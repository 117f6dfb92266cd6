//! What the overlay shows, as far as it is decided by numbers: the band of a
//! running hold time, the tone of a verdict, the fading of a feed line.

use vstd::prelude::*;
use vstd::string::*;
use crate::feedback::{EntryView, FeedEntry, FULL_OPACITY};
use crate::state::{
    current_hold_time,
    spec_evaluate,
    CounterStrafeState,
    Quality,
    StateView,
    MAX_HOLD_TIME,
    MIN_HOLD_TIME,
    OPTIMAL_HOLD_TIME,
    PERFECT_TOLERANCE,
};
use crate::timing::{millis_half_up, round_half_even, spec_millis_half_up, spec_round_half_even};

verus! {

/// The strongest alpha value of a colour.
pub const OPAQUE_ALPHA: u64 = 255;

/// The whole, in per cent.
pub const PER_CENT: u64 = 100;

/// Where a hold time lies relative to the bounds.
#[derive(Debug, Clone, Copy, PartialEq, Eq, Structural)]
pub enum HoldBand {
    TooFast,
    Perfect,
    Good,
    TooSlow,
}

/// The mood of a colour.
#[derive(Debug, Clone, Copy, PartialEq, Eq, Structural)]
pub enum Tone {
    Good,
    Warning,
    Bad,
}

/// The band of a hold time.
pub open spec fn spec_hold_band(hold_time: nat) -> HoldBand {
    if hold_time < MIN_HOLD_TIME {
        HoldBand::TooFast
    } else if hold_time > MAX_HOLD_TIME {
        HoldBand::TooSlow
    } else if hold_time - OPTIMAL_HOLD_TIME <= PERFECT_TOLERANCE && OPTIMAL_HOLD_TIME - hold_time
        <= PERFECT_TOLERANCE {
        HoldBand::Perfect
    } else {
        HoldBand::Good
    }
}

impl HoldBand {
    /// The grade that a hold time of this band gets.
    pub open spec fn spec_quality(self) -> Quality {
        match self {
            HoldBand::TooFast => Quality::Failed,
            HoldBand::Perfect => Quality::Perfect,
            HoldBand::Good => Quality::Good,
            HoldBand::TooSlow => Quality::Failed,
        }
    }

    /// The grade that a hold time of this band gets.
    pub fn quality(&self) -> (quality: Quality)
        ensures
            quality == self.spec_quality(),
    {
        match self {
            HoldBand::TooFast => Quality::Failed,
            HoldBand::Perfect => Quality::Perfect,
            HoldBand::Good => Quality::Good,
            HoldBand::TooSlow => Quality::Failed,
        }
    }
}

/// The tone in which a grade is shown.
pub open spec fn spec_tone(quality: Quality) -> Tone {
    match quality {
        Quality::Perfect => Tone::Good,
        Quality::Good => Tone::Warning,
        Quality::Failed => Tone::Bad,
    }
}

/// The tone in which a grade is shown.
pub fn tone(quality: Quality) -> (shade: Tone)
    ensures
        shade == spec_tone(quality),
{
    match quality {
        Quality::Perfect => Tone::Good,
        Quality::Good => Tone::Warning,
        Quality::Failed => Tone::Bad,
    }
}

/// The band of a hold time.
pub fn hold_band(hold_time: u64) -> (band: HoldBand)
    ensures
        band == spec_hold_band(hold_time as nat),
{
    if hold_time < MIN_HOLD_TIME {
        HoldBand::TooFast
    } else if hold_time > MAX_HOLD_TIME {
        HoldBand::TooSlow
    } else {
        let distance: u64 = if hold_time >= OPTIMAL_HOLD_TIME {
            hold_time - OPTIMAL_HOLD_TIME
        } else {
            OPTIMAL_HOLD_TIME - hold_time
        };
        if distance <= PERFECT_TOLERANCE {
            HoldBand::Perfect
        } else {
            HoldBand::Good
        }
    }
}

/// The band of a hold time tells its grade: the running clock and the final
/// verdict never disagree.
pub proof fn lemma_band_tells_quality(hold_time: nat)
    ensures
        spec_hold_band(hold_time).spec_quality() == spec_evaluate(hold_time),
{
}

/// The running clock of a counter-strafe.
#[derive(Debug, Clone, Copy, PartialEq, Eq, Structural)]
pub struct LiveReadout {
    /// The hold time so far, in milliseconds rounded to the nearest.
    pub millis: u64,
    pub band: HoldBand,
}

/// The running clock of a state at time `now`: none unless the counter key
/// is down.
pub open spec fn spec_live_readout(state: StateView, now: nat) -> Option<LiveReadout> {
    match current_hold_time(state, now) {
        Some(held) => Some(
            LiveReadout { millis: spec_millis_half_up(held) as u64, band: spec_hold_band(held) },
        ),
        None => None,
    }
}

/// The running clock of a state at time `now`.
pub fn live_readout(state: &CounterStrafeState, now: u64) -> (readout: Option<LiveReadout>)
    ensures
        readout == spec_live_readout(state@, now as nat),
{
    match state.get_current_hold_time(now) {
        Some(held) => Some(LiveReadout { millis: millis_half_up(held), band: hold_band(held) }),
        None => None,
    }
}

/// The alpha value of an opacity given in billionths: the share of 255,
/// rounded down, and 255 for anything above full opacity.
pub open spec fn spec_alpha(opacity: nat) -> nat {
    if opacity >= FULL_OPACITY {
        OPAQUE_ALPHA as nat
    } else {
        (OPAQUE_ALPHA * opacity / (FULL_OPACITY as int)) as nat
    }
}

/// The alpha value of an opacity given in billionths.
pub fn alpha(opacity: u64) -> (value: u8)
    ensures
        value == spec_alpha(opacity as nat),
{
    if opacity >= FULL_OPACITY {
        255
    } else {
        let scaled: u64 = OPAQUE_ALPHA * opacity / FULL_OPACITY;
        assert(scaled <= 255);
        scaled as u8
    }
}

/// A fainter entry is never drawn stronger.
pub proof fn lemma_alpha_follows_opacity(fainter: nat, stronger: nat)
    requires
        fainter <= stronger,
    ensures
        spec_alpha(fainter) <= spec_alpha(stronger) <= OPAQUE_ALPHA,
        spec_alpha(0) == 0,
        spec_alpha(FULL_OPACITY as nat) == OPAQUE_ALPHA,
{
}

/// The line of a feed entry: its glyph, a space, its message.
pub open spec fn spec_feed_line(entry: EntryView) -> Seq<char> {
    entry.symbol.push(' ') + entry.message
}

/// The line of a feed entry.
pub fn feed_line(entry: &FeedEntry) -> (line: String)
    ensures
        line@ == spec_feed_line(entry@),
{
    proof {
        reveal_strlit(" ");
    }
    let glyph = entry.symbol.clone();
    let spaced = glyph.concat(" ");
    assert(spaced@ =~= entry@.symbol.push(' '));
    spaced.concat(entry.message.as_str())
}

/// `count` out of `total` in whole per cent, rounded to the nearest; a half
/// rounds to the even neighbour, and nothing out of nothing is zero.
pub open spec fn spec_whole_percent(count: nat, total: nat) -> nat {
    if total == 0 {
        0
    } else {
        spec_round_half_even(count * PER_CENT as nat, total)
    }
}

/// `count` out of `total` in whole per cent.
pub fn whole_percent(count: u32, total: u32) -> (percent: u64)
    ensures
        percent == spec_whole_percent(count as nat, total as nat),
{
    if total == 0 {
        0
    } else {
        let scaled: u64 = (count as u64) * PER_CENT;
        round_half_even(scaled, total as u64)
    }
}

} // verus!
