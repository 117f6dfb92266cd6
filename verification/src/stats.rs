//! The running tally of graded attempts and the shares derived from it.

use vstd::prelude::*;
use crate::state::Quality;

verus! {

/// The value that stands for one hundred per cent: shares are counted in
/// hundredths of a per cent.
pub const FULL_SHARE: u64 = 10_000;

/// How many attempts were made, and how many of each grade.
#[derive(Debug)]
pub struct Stats {
    pub total_attempts: u32,
    pub perfect_count: u32,
    pub good_count: u32,
    pub failed_count: u32,
}

/// A tally as a mathematical value, free of machine limits.
pub struct Tally {
    pub total: nat,
    pub perfect: nat,
    pub good: nat,
    pub failed: nat,
}

impl Tally {
    /// The tally before any attempt.
    pub open spec fn zero() -> Tally {
        Tally { total: 0, perfect: 0, good: 0, failed: 0 }
    }

    /// Whether the total is the sum of the three grades.
    pub open spec fn balanced(self) -> bool {
        self.total == self.perfect + self.good + self.failed
    }

    /// How many attempts got the grade `quality`.
    pub open spec fn count(self, quality: Quality) -> nat {
        match quality {
            Quality::Perfect => self.perfect,
            Quality::Good => self.good,
            Quality::Failed => self.failed,
        }
    }

    /// The tally with one more attempt of grade `quality` counted.
    pub open spec fn counted(self, quality: Quality) -> Tally {
        match quality {
            Quality::Perfect => Tally { total: self.total + 1, perfect: self.perfect + 1, ..self },
            Quality::Good => Tally { total: self.total + 1, good: self.good + 1, ..self },
            Quality::Failed => Tally { total: self.total + 1, failed: self.failed + 1, ..self },
        }
    }

    /// Whether one more attempt of grade `quality` still fits the counters.
    pub open spec fn has_room(self, quality: Quality) -> bool {
        self.total < u32::MAX && self.count(quality) < u32::MAX
    }

    /// The tally after one more attempt of grade `quality`: the attempt is
    /// counted while the counters have room, and the tally stays as it is
    /// once they are full.
    pub open spec fn record(self, quality: Quality) -> Tally {
        if self.has_room(quality) {
            self.counted(quality)
        } else {
            self
        }
    }

    /// The tally after the attempts `qualities`, in order.
    pub open spec fn record_all(self, qualities: Seq<Quality>) -> Tally
        decreases qualities.len(),
    {
        if qualities.len() == 0 {
            self
        } else {
            self.record_all(qualities.drop_last()).record(qualities.last())
        }
    }

    /// The share of `quality` among all attempts, in hundredths of a per
    /// cent and rounded down; zero before any attempt.
    pub open spec fn share(self, quality: Quality) -> nat {
        spec_share(self.count(quality), self.total)
    }
}

/// `count` out of `total` in hundredths of a per cent, rounded down; zero
/// where `total` is zero.
pub open spec fn spec_share(count: nat, total: nat) -> nat {
    if total == 0 {
        0
    } else {
        (count * 10_000) / total
    }
}

impl View for Stats {
    type V = Tally;

    open spec fn view(&self) -> Tally {
        Tally {
            total: self.total_attempts as nat,
            perfect: self.perfect_count as nat,
            good: self.good_count as nat,
            failed: self.failed_count as nat,
        }
    }
}

/// `count` out of `total` in hundredths of a per cent.
fn share_of(count: u32, total: u32) -> (share: u64)
    ensures
        share == spec_share(count as nat, total as nat),
{
    if total == 0 {
        0
    } else {
        let scaled: u64 = (count as u64) * FULL_SHARE;
        scaled / (total as u64)
    }
}

impl Stats {
    /// The tally before any attempt.
    pub fn new() -> (stats: Self)
        ensures
            stats@ == Tally::zero(),
    {
        Stats { total_attempts: 0, perfect_count: 0, good_count: 0, failed_count: 0 }
    }

    /// Counts one more attempt of grade `quality`. Counters that are full
    /// stay as they are.
    pub fn record(&mut self, quality: Quality)
        ensures
            final(self)@ == old(self)@.record(quality),
    {
        if self.total_attempts < u32::MAX {
            match quality {
                Quality::Perfect => if self.perfect_count < u32::MAX {
                    self.total_attempts += 1;
                    self.perfect_count += 1;
                },
                Quality::Good => if self.good_count < u32::MAX {
                    self.total_attempts += 1;
                    self.good_count += 1;
                },
                Quality::Failed => if self.failed_count < u32::MAX {
                    self.total_attempts += 1;
                    self.failed_count += 1;
                },
            }
        }
    }

    /// The share of perfect attempts, in hundredths of a per cent.
    pub fn perfect_percentage(&self) -> (share: u64)
        ensures
            share == self@.share(Quality::Perfect),
    {
        share_of(self.perfect_count, self.total_attempts)
    }

    /// The share of good attempts, in hundredths of a per cent.
    pub fn good_percentage(&self) -> (share: u64)
        ensures
            share == self@.share(Quality::Good),
    {
        share_of(self.good_count, self.total_attempts)
    }

    /// The share of failed attempts, in hundredths of a per cent.
    pub fn failed_percentage(&self) -> (share: u64)
        ensures
            share == self@.share(Quality::Failed),
    {
        share_of(self.failed_count, self.total_attempts)
    }

    /// Sets every counter back to zero.
    pub fn reset(&mut self)
        ensures
            final(self)@ == Tally::zero(),
    {
        *self = Stats::new();
    }
}

impl Clone for Stats {
    fn clone(&self) -> (copy: Self)
        ensures
            copy == *self,
    {
        Stats {
            total_attempts: self.total_attempts,
            perfect_count: self.perfect_count,
            good_count: self.good_count,
            failed_count: self.failed_count,
        }
    }
}

impl Default for Stats {
    fn default() -> (stats: Self)
        ensures
            stats@ == Tally::zero(),
    {
        Stats::new()
    }
}

/// One more attempt keeps a balanced tally balanced and lowers no counter.
/// While the total has room, the attempt raises the total and the counter of
/// its grade by one and leaves the other two as they were.
pub proof fn lemma_record_keeps_balance(tally: Tally, quality: Quality)
    requires
        tally.balanced(),
    ensures
        tally.record(quality).balanced(),
        tally.record(quality).total >= tally.total,
        forall|any: Quality| tally.record(quality).count(any) >= tally.count(any),
        tally.total < u32::MAX ==> {
            &&& tally.record(quality).total == tally.total + 1
            &&& tally.record(quality).count(quality) == tally.count(quality) + 1
            &&& forall|other: Quality|
                other != quality ==> tally.record(quality).count(other) == tally.count(other)
        },
{
}

/// After any sequence of attempts a balanced tally is balanced, and its
/// total has grown by the number of attempts as far as the counter has room
/// for them.
pub proof fn lemma_record_all_keeps_balance(tally: Tally, qualities: Seq<Quality>)
    requires
        tally.balanced(),
    ensures
        tally.record_all(qualities).balanced(),
        tally.total <= tally.record_all(qualities).total <= tally.total + qualities.len(),
        tally.total + qualities.len() <= u32::MAX ==> tally.record_all(qualities).total
            == tally.total + qualities.len(),
    decreases qualities.len(),
{
    if qualities.len() > 0 {
        lemma_record_all_keeps_balance(tally, qualities.drop_last());
    }
}

/// In a balanced tally each share lies between zero and one hundred per
/// cent, the three together do not exceed one hundred per cent, and before
/// any attempt each share is zero.
pub proof fn lemma_share_bounds(tally: Tally)
    requires
        tally.balanced(),
    ensures
        forall|quality: Quality| 0 <= #[trigger] tally.share(quality) <= FULL_SHARE,
        tally.share(Quality::Perfect) + tally.share(Quality::Good) + tally.share(Quality::Failed)
            <= FULL_SHARE,
        tally.total == 0 ==> forall|quality: Quality| #[trigger] tally.share(quality) == 0,
{
    if tally.total > 0 {
        let t = tally.total as int;
        let p = tally.perfect as int;
        let g = tally.good as int;
        let f = tally.failed as int;
        assert(p * 10_000 / t + g * 10_000 / t + f * 10_000 / t <= 10_000 && 0 <= p * 10_000 / t
            <= 10_000 && 0 <= g * 10_000 / t <= 10_000 && 0 <= f * 10_000 / t <= 10_000)
            by (nonlinear_arith)
            requires
                t > 0,
                p >= 0,
                g >= 0,
                f >= 0,
                t == p + g + f,
        ;
    }
}

} // verus!
