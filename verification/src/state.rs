//! The counter-strafe state machine and the rule that grades a hold time.
//!
//! A counter-strafe is: hold a strafe key, release it, tap the opposite key.
//! The time the opposite key stays down is the hold time, and it is graded
//! against fixed bounds.

use vstd::prelude::*;
use vstd::string::*;
use crate::text::{format_labelled, labelled_number};
use crate::timing::{elapsed, millis_half_even, spec_elapsed, spec_millis_half_even};

verus! {

/// The hold time a player aims for: 80 ms.
pub const OPTIMAL_HOLD_TIME: u64 = 80_000_000;

/// The shortest hold time that is not a failure: 60 ms.
pub const MIN_HOLD_TIME: u64 = 60_000_000;

/// The longest hold time that is not a failure: 120 ms.
pub const MAX_HOLD_TIME: u64 = 120_000_000;

/// How far from the optimum a hold time may lie and still be perfect: 15 ms.
pub const PERFECT_TOLERANCE: u64 = 15_000_000;

/// How long a released key waits for the opposite key: 180 ms.
pub const TIMEOUT_NO_COUNTER: u64 = 180_000_000;

/// One of the two strafe keys.
#[derive(Debug, Clone, Copy, PartialEq, Eq, Structural)]
pub enum StrafeKey {
    A,
    D,
}

impl StrafeKey {
    /// The key of the other direction.
    pub open spec fn spec_opposite(self) -> StrafeKey {
        match self {
            StrafeKey::A => StrafeKey::D,
            StrafeKey::D => StrafeKey::A,
        }
    }

    /// The letter shown for the key.
    pub open spec fn spec_as_char(self) -> char {
        match self {
            StrafeKey::A => 'A',
            StrafeKey::D => 'D',
        }
    }

    /// The key of the other direction.
    pub fn opposite(&self) -> (r: Self)
        ensures
            r == self.spec_opposite(),
    {
        match self {
            StrafeKey::A => StrafeKey::D,
            StrafeKey::D => StrafeKey::A,
        }
    }

    /// The letter shown for the key.
    pub fn as_char(&self) -> (r: char)
        ensures
            r == self.spec_as_char(),
    {
        match self {
            StrafeKey::A => 'A',
            StrafeKey::D => 'D',
        }
    }

    /// The key's letter as a string of one character.
    pub fn letter(&self) -> (r: &'static str)
        ensures
            r@ == seq![self.spec_as_char()],
    {
        let r = match self {
            StrafeKey::A => "A",
            StrafeKey::D => "D",
        };
        proof {
            reveal_strlit("A");
            reveal_strlit("D");
            assert(r@ =~= seq![self.spec_as_char()]);
        }
        r
    }
}

/// Taking the opposite twice gives the key back, and a key is never its own
/// opposite.
pub proof fn lemma_opposite_involution(key: StrafeKey)
    ensures
        key.spec_opposite().spec_opposite() == key,
        key.spec_opposite() != key,
{
}

/// The grade of a counter-strafe.
#[derive(Debug, Clone, Copy, PartialEq, Eq, Structural)]
pub enum Quality {
    /// Within the tolerance of the optimum.
    Perfect,
    /// Within the bounds, outside the perfect band.
    Good,
    /// Shorter than the minimum or longer than the maximum.
    Failed,
}

impl Quality {
    /// The glyph shown for the grade.
    pub open spec fn spec_symbol(self) -> Seq<char> {
        match self {
            Quality::Perfect => seq!['★'],
            Quality::Good => seq!['●'],
            Quality::Failed => seq!['✕'],
        }
    }

    /// The glyph shown for the grade.
    pub fn symbol(&self) -> (r: &'static str)
        ensures
            r@ == self.spec_symbol(),
    {
        let r = match self {
            Quality::Perfect => "★",
            Quality::Good => "●",
            Quality::Failed => "✕",
        };
        proof {
            reveal_strlit("★");
            reveal_strlit("●");
            reveal_strlit("✕");
            assert(r@ =~= self.spec_symbol());
        }
        r
    }
}

/// The grade of a hold time: failed outside the bounds, perfect within the
/// tolerance of the optimum, good otherwise.
pub open spec fn spec_evaluate(hold_time: nat) -> Quality {
    if hold_time < MIN_HOLD_TIME || hold_time > MAX_HOLD_TIME {
        Quality::Failed
    } else if hold_time - OPTIMAL_HOLD_TIME <= PERFECT_TOLERANCE && OPTIMAL_HOLD_TIME - hold_time
        <= PERFECT_TOLERANCE {
        Quality::Perfect
    } else {
        Quality::Good
    }
}

/// Grades a hold time.
pub fn evaluate_hold_time(hold_time: u64) -> (quality: Quality)
    ensures
        quality == spec_evaluate(hold_time as nat),
{
    if hold_time < MIN_HOLD_TIME || hold_time > MAX_HOLD_TIME {
        Quality::Failed
    } else {
        let distance: u64 = if hold_time >= OPTIMAL_HOLD_TIME {
            hold_time - OPTIMAL_HOLD_TIME
        } else {
            OPTIMAL_HOLD_TIME - hold_time
        };
        if distance <= PERFECT_TOLERANCE {
            Quality::Perfect
        } else {
            Quality::Good
        }
    }
}

/// The three bands of the grade, in nanoseconds: perfect from 65 ms to 95 ms,
/// good from 60 ms to 120 ms outside the perfect band, failed elsewhere. All
/// four bounds belong to the better band.
pub proof fn lemma_quality_bands(hold_time: nat)
    ensures
        spec_evaluate(hold_time) == Quality::Perfect <==> 65_000_000 <= hold_time <= 95_000_000,
        spec_evaluate(hold_time) == Quality::Good <==> (60_000_000 <= hold_time < 65_000_000
            || 95_000_000 < hold_time <= 120_000_000),
        spec_evaluate(hold_time) == Quality::Failed <==> (hold_time < 60_000_000 || hold_time
            > 120_000_000),
{
}

/// What the machine reports when an attempt ends.
#[derive(Debug)]
pub struct CompletionResult {
    /// How long the counter key was held, in nanoseconds.
    pub hold_time: u64,
    pub quality: Quality,
    /// Why the attempt failed, if it did.
    pub error_message: Option<String>,
}

/// A `CompletionResult` as a mathematical value.
pub struct CompletionView {
    pub hold_time: nat,
    pub quality: Quality,
    pub error_message: Option<Seq<char>>,
}

/// An optional string as an optional sequence of characters.
pub open spec fn message_view(message: Option<String>) -> Option<Seq<char>> {
    match message {
        Some(text) => Some(text@),
        None => None,
    }
}

impl View for CompletionResult {
    type V = CompletionView;

    open spec fn view(&self) -> CompletionView {
        CompletionView {
            hold_time: self.hold_time as nat,
            quality: self.quality,
            error_message: message_view(self.error_message),
        }
    }
}

/// A copy of an optional string.
fn clone_message(message: &Option<String>) -> (copy: Option<String>)
    ensures
        message_view(copy) == message_view(*message),
{
    match message {
        Some(text) => Some(text.clone()),
        None => None,
    }
}

impl Clone for CompletionResult {
    fn clone(&self) -> (copy: Self)
        ensures
            copy@ == self@,
    {
        CompletionResult {
            hold_time: self.hold_time,
            quality: self.quality,
            error_message: clone_message(&self.error_message),
        }
    }
}

/// An optional result as an optional mathematical value.
pub open spec fn result_view(result: Option<CompletionResult>) -> Option<CompletionView> {
    match result {
        Some(completion) => Some(completion@),
        None => None,
    }
}

/// Where the player is in a counter-strafe attempt.
#[derive(Debug)]
pub enum CounterStrafeState {
    /// Nothing is held.
    Idle,
    /// A strafe key is held.
    Strafing { key: StrafeKey, start_time: u64 },
    /// The strafe key was released; the opposite key is awaited.
    Released { original_key: StrafeKey, release_time: u64 },
    /// The opposite key is held and timed.
    CounterStrafing { original_key: StrafeKey, counter_key: StrafeKey, start_time: u64 },
    /// The attempt has ended; shown until the next press.
    Completed { hold_time: u64, quality: Quality, error_message: Option<String> },
}

/// A `CounterStrafeState` as a mathematical value.
pub enum StateView {
    Idle,
    Strafing { key: StrafeKey, start_time: nat },
    Released { original_key: StrafeKey, release_time: nat },
    CounterStrafing { original_key: StrafeKey, counter_key: StrafeKey, start_time: nat },
    Completed { hold_time: nat, quality: Quality, error_message: Option<Seq<char>> },
}

impl View for CounterStrafeState {
    type V = StateView;

    open spec fn view(&self) -> StateView {
        match *self {
            CounterStrafeState::Idle => StateView::Idle,
            CounterStrafeState::Strafing { key, start_time } => StateView::Strafing {
                key,
                start_time: start_time as nat,
            },
            CounterStrafeState::Released { original_key, release_time } => StateView::Released {
                original_key,
                release_time: release_time as nat,
            },
            CounterStrafeState::CounterStrafing {
                original_key,
                counter_key,
                start_time,
            } => StateView::CounterStrafing {
                original_key,
                counter_key,
                start_time: start_time as nat,
            },
            CounterStrafeState::Completed {
                hold_time,
                quality,
                error_message,
            } => StateView::Completed {
                hold_time: hold_time as nat,
                quality,
                error_message: message_view(error_message),
            },
        }
    }
}

impl Clone for CounterStrafeState {
    fn clone(&self) -> (copy: Self)
        ensures
            copy@ == self@,
    {
        match self {
            CounterStrafeState::Idle => CounterStrafeState::Idle,
            CounterStrafeState::Strafing { key, start_time } => CounterStrafeState::Strafing {
                key: *key,
                start_time: *start_time,
            },
            CounterStrafeState::Released {
                original_key,
                release_time,
            } => CounterStrafeState::Released {
                original_key: *original_key,
                release_time: *release_time,
            },
            CounterStrafeState::CounterStrafing {
                original_key,
                counter_key,
                start_time,
            } => CounterStrafeState::CounterStrafing {
                original_key: *original_key,
                counter_key: *counter_key,
                start_time: *start_time,
            },
            CounterStrafeState::Completed {
                hold_time,
                quality,
                error_message,
            } => CounterStrafeState::Completed {
                hold_time: *hold_time,
                quality: *quality,
                error_message: clone_message(error_message),
            },
        }
    }
}

/// The message of an attempt that pressed the opposite key too early.
pub open spec fn both_keys_message() -> Seq<char> {
    "Both keys pressed"@
}

/// The message of a timed attempt: none within the bounds, else which bound
/// was missed and the hold time in rounded milliseconds.
pub open spec fn timing_message(hold_time: nat) -> Option<Seq<char>> {
    if hold_time < MIN_HOLD_TIME {
        Some(labelled_number("Too fast "@, spec_millis_half_even(hold_time), "ms"@))
    } else if hold_time > MAX_HOLD_TIME {
        Some(labelled_number("Too slow "@, spec_millis_half_even(hold_time), "ms"@))
    } else {
        None
    }
}

/// The result of an attempt that pressed the opposite key while the first
/// was still down.
pub open spec fn both_keys_completion() -> CompletionView {
    CompletionView {
        hold_time: 0,
        quality: Quality::Failed,
        error_message: Some(both_keys_message()),
    }
}

/// The result of an attempt whose counter key was held for `hold_time`.
pub open spec fn timed_completion(hold_time: nat) -> CompletionView {
    CompletionView {
        hold_time,
        quality: spec_evaluate(hold_time),
        error_message: timing_message(hold_time),
    }
}

/// The state that shows a result.
pub open spec fn completed_state(result: CompletionView) -> StateView {
    StateView::Completed {
        hold_time: result.hold_time,
        quality: result.quality,
        error_message: result.error_message,
    }
}

/// What a press of `key` reports in state `state`: a failure where the
/// opposite key is pressed while the first is held, nothing otherwise.
pub open spec fn press_result(state: StateView, key: StrafeKey) -> Option<CompletionView> {
    match state {
        StateView::Strafing { key: current, .. } => if current == key {
            None
        } else {
            Some(both_keys_completion())
        },
        _ => None,
    }
}

/// The state after a press of `key` at time `now`.
pub open spec fn after_press(state: StateView, key: StrafeKey, now: nat) -> StateView {
    match state {
        StateView::Idle => StateView::Strafing { key, start_time: now },
        StateView::Strafing { key: current, .. } => if current == key {
            state
        } else {
            completed_state(both_keys_completion())
        },
        StateView::Released { original_key, .. } => if key == original_key {
            StateView::Strafing { key, start_time: now }
        } else {
            StateView::CounterStrafing { original_key, counter_key: key, start_time: now }
        },
        StateView::CounterStrafing { .. } => state,
        StateView::Completed { .. } => StateView::Strafing { key, start_time: now },
    }
}

/// What a release of `key` at time `now` reports in state `state`: the timed
/// result where the counter key is released, nothing otherwise.
pub open spec fn release_result(state: StateView, key: StrafeKey, now: nat) -> Option<
    CompletionView,
> {
    match state {
        StateView::CounterStrafing { counter_key, start_time, .. } => if counter_key == key {
            Some(timed_completion(spec_elapsed(now, start_time)))
        } else {
            None
        },
        _ => None,
    }
}

/// The state after a release of `key` at time `now`.
pub open spec fn after_release(state: StateView, key: StrafeKey, now: nat) -> StateView {
    match state {
        StateView::Strafing { key: current, .. } => if current == key {
            StateView::Released { original_key: key, release_time: now }
        } else {
            state
        },
        StateView::CounterStrafing { counter_key, start_time, .. } => if counter_key == key {
            completed_state(timed_completion(spec_elapsed(now, start_time)))
        } else {
            state
        },
        _ => state,
    }
}

/// Whether a released key has waited out the timeout at time `now`.
pub open spec fn timed_out(state: StateView, now: nat) -> bool {
    state matches StateView::Released { release_time, .. } && spec_elapsed(now, release_time)
        >= TIMEOUT_NO_COUNTER
}

/// The state after the timeout check at time `now`.
pub open spec fn after_timeout(state: StateView, now: nat) -> StateView {
    if timed_out(state, now) {
        StateView::Idle
    } else {
        state
    }
}

/// How long the counter key has been down at time `now`, while it is down.
pub open spec fn current_hold_time(state: StateView, now: nat) -> Option<nat> {
    match state {
        StateView::CounterStrafing { start_time, .. } => Some(spec_elapsed(now, start_time)),
        _ => None,
    }
}

/// A press reports a result exactly when it takes the machine to the
/// completed state, and that state then shows the result. Such a result is a
/// failure with a message and no hold time.
pub proof fn lemma_press_reports_completion(state: StateView, key: StrafeKey, now: nat)
    ensures
        press_result(state, key) is Some <==> after_press(state, key, now) is Completed,
        press_result(state, key) matches Some(result) ==> {
            &&& after_press(state, key, now) == completed_state(result)
            &&& result.quality == Quality::Failed
            &&& result.error_message is Some
            &&& result.hold_time == 0
        },
{
}

/// A release reports a result exactly when it takes the machine from
/// another state to the completed state, and that state then shows the
/// result. The result carries the time since the counter key went down and
/// the grade of that time, and it has a message exactly when it is a failure.
pub proof fn lemma_release_reports_completion(state: StateView, key: StrafeKey, now: nat)
    ensures
        release_result(state, key, now) is Some <==> (after_release(state, key, now) is Completed
            && !(state is Completed)),
        release_result(state, key, now) matches Some(result) ==> {
            &&& after_release(state, key, now) == completed_state(result)
            &&& current_hold_time(state, now) == Some(result.hold_time)
            &&& result.quality == spec_evaluate(result.hold_time)
            &&& (result.quality == Quality::Failed <==> result.error_message is Some)
        },
{
}

/// The timeout check moves nothing but a released key, and that only to
/// idle.
pub proof fn lemma_timeout_only_releases(state: StateView, now: nat)
    ensures
        !(state is Released) ==> after_timeout(state, now) == state,
        after_timeout(state, now) == state || after_timeout(state, now) == StateView::Idle,
{
}

/// Builds the result of an attempt whose counter key was held for
/// `hold_time`.
pub fn complete_timed(hold_time: u64) -> (result: CompletionResult)
    ensures
        result@ == timed_completion(hold_time as nat),
{
    let quality = evaluate_hold_time(hold_time);
    let error_message = if hold_time < MIN_HOLD_TIME {
        Some(format_labelled("Too fast ", millis_half_even(hold_time), "ms"))
    } else if hold_time > MAX_HOLD_TIME {
        Some(format_labelled("Too slow ", millis_half_even(hold_time), "ms"))
    } else {
        None
    };
    CompletionResult { hold_time, quality, error_message }
}

/// Builds the result of an attempt that pressed both keys.
pub fn complete_both_keys() -> (result: CompletionResult)
    ensures
        result@ == both_keys_completion(),
{
    CompletionResult {
        hold_time: 0,
        quality: Quality::Failed,
        error_message: Some(String::from_str("Both keys pressed")),
    }
}

impl CompletionResult {
    /// The state that shows this result.
    pub fn to_state(&self) -> (state: CounterStrafeState)
        ensures
            state@ == completed_state(self@),
    {
        CounterStrafeState::Completed {
            hold_time: self.hold_time,
            quality: self.quality,
            error_message: clone_message(&self.error_message),
        }
    }
}

/// What the screen shows for a state.
#[derive(Debug)]
pub struct StateDisplayInfo {
    pub main_text: String,
    pub sub_text: Option<String>,
    /// Whether the running hold time is shown in place of the text.
    pub show_target: bool,
}

/// A `StateDisplayInfo` as a mathematical value.
pub struct DisplayView {
    pub main_text: Seq<char>,
    pub sub_text: Option<Seq<char>>,
    pub show_target: bool,
}

impl View for StateDisplayInfo {
    type V = DisplayView;

    open spec fn view(&self) -> DisplayView {
        DisplayView {
            main_text: self.main_text@,
            sub_text: message_view(self.sub_text),
            show_target: self.show_target,
        }
    }
}

impl Clone for StateDisplayInfo {
    fn clone(&self) -> (copy: Self)
        ensures
            copy@ == self@,
    {
        StateDisplayInfo {
            main_text: self.main_text.clone(),
            sub_text: clone_message(&self.sub_text),
            show_target: self.show_target,
        }
    }
}

/// What the screen shows while the machine waits for a first press.
pub open spec fn ready_display() -> DisplayView {
    DisplayView { main_text: "READY"@, sub_text: Some("Press A or D"@), show_target: false }
}

/// What the screen shows for a state: an instruction naming the key to act
/// on, or the running hold time while the counter key is down.
pub open spec fn display_info(state: StateView) -> DisplayView {
    match state {
        StateView::Idle => ready_display(),
        StateView::Strafing { key, .. } => DisplayView {
            main_text: "RELEASE"@,
            sub_text: Some("Release "@.push(key.spec_as_char())),
            show_target: false,
        },
        StateView::Released { original_key, .. } => DisplayView {
            main_text: "COUNTER"@,
            sub_text: Some("Press "@.push(original_key.spec_opposite().spec_as_char())),
            show_target: false,
        },
        StateView::CounterStrafing { .. } => DisplayView {
            main_text: Seq::empty(),
            sub_text: None,
            show_target: true,
        },
        StateView::Completed { .. } => ready_display(),
    }
}

impl CounterStrafeState {
    /// The state before any key was touched.
    pub fn new() -> (state: Self)
        ensures
            state@ == StateView::Idle,
    {
        CounterStrafeState::Idle
    }

    /// Handles a press of `key` at time `now`, and reports a result where the
    /// press ends an attempt.
    pub fn on_key_press(&mut self, key: StrafeKey, now: u64) -> (result: Option<CompletionResult>)
        ensures
            final(self)@ == after_press(old(self)@, key, now as nat),
            result_view(result) == press_result(old(self)@, key),
    {
        match self {
            CounterStrafeState::Idle => {
                *self = CounterStrafeState::Strafing { key, start_time: now };
                None
            },
            CounterStrafeState::Strafing { key: current_key, .. } => {
                if *current_key == key {
                    None
                } else {
                    let result = complete_both_keys();
                    *self = result.to_state();
                    Some(result)
                }
            },
            CounterStrafeState::Released { original_key, .. } => {
                if key == *original_key {
                    *self = CounterStrafeState::Strafing { key, start_time: now };
                    None
                } else {
                    *self = CounterStrafeState::CounterStrafing {
                        original_key: *original_key,
                        counter_key: key,
                        start_time: now,
                    };
                    None
                }
            },
            CounterStrafeState::CounterStrafing { .. } => None,
            CounterStrafeState::Completed { .. } => {
                *self = CounterStrafeState::Strafing { key, start_time: now };
                None
            },
        }
    }

    /// Handles a release of `key` at time `now`, and reports the timed result
    /// where the release ends an attempt.
    pub fn on_key_release(&mut self, key: StrafeKey, now: u64) -> (result: Option<
        CompletionResult,
    >)
        ensures
            final(self)@ == after_release(old(self)@, key, now as nat),
            result_view(result) == release_result(old(self)@, key, now as nat),
    {
        match self {
            CounterStrafeState::Idle => None,
            CounterStrafeState::Strafing { key: current_key, .. } => {
                if *current_key == key {
                    *self = CounterStrafeState::Released { original_key: key, release_time: now };
                }
                None
            },
            CounterStrafeState::Released { .. } => None,
            CounterStrafeState::CounterStrafing { counter_key, start_time, .. } => {
                if *counter_key == key {
                    let hold_time = elapsed(now, *start_time);
                    let result = complete_timed(hold_time);
                    *self = result.to_state();
                    Some(result)
                } else {
                    None
                }
            },
            CounterStrafeState::Completed { .. } => None,
        }
    }

    /// Falls back to idle where a released key has waited out the timeout,
    /// and says whether it did.
    pub fn check_timeout(&mut self, now: u64) -> (expired: bool)
        ensures
            expired == timed_out(old(self)@, now as nat),
            final(self)@ == after_timeout(old(self)@, now as nat),
    {
        if let CounterStrafeState::Released { release_time, .. } = self {
            let waited = elapsed(now, *release_time);
            if waited >= TIMEOUT_NO_COUNTER {
                *self = CounterStrafeState::Idle;
                return true;
            }
        }
        false
    }

    /// Goes back to idle.
    pub fn reset(&mut self)
        ensures
            final(self)@ == StateView::Idle,
    {
        *self = CounterStrafeState::Idle;
    }

    /// How long the counter key has been down at time `now`, while it is down.
    pub fn get_current_hold_time(&self, now: u64) -> (hold_time: Option<u64>)
        ensures
            current_hold_time(self@, now as nat) == match hold_time {
                Some(held) => Some(held as nat),
                None => None,
            },
    {
        if let CounterStrafeState::CounterStrafing { start_time, .. } = self {
            Some(elapsed(now, *start_time))
        } else {
            None
        }
    }

    /// What the screen shows for this state.
    pub fn get_display_info(&self) -> (info: StateDisplayInfo)
        ensures
            info@ == display_info(self@),
    {
        match self {
            CounterStrafeState::Strafing { key, .. } => {
                let sub_text = String::from_str("Release ").concat(key.letter());
                assert(sub_text@ =~= "Release "@.push(key.spec_as_char()));
                StateDisplayInfo {
                    main_text: String::from_str("RELEASE"),
                    sub_text: Some(sub_text),
                    show_target: false,
                }
            },
            CounterStrafeState::Released { original_key, .. } => {
                let sub_text = String::from_str("Press ").concat(original_key.opposite().letter());
                assert(sub_text@ =~= "Press "@.push(original_key.spec_opposite().spec_as_char()));
                StateDisplayInfo {
                    main_text: String::from_str("COUNTER"),
                    sub_text: Some(sub_text),
                    show_target: false,
                }
            },
            CounterStrafeState::CounterStrafing { .. } => StateDisplayInfo {
                main_text: String::new(),
                sub_text: None,
                show_target: true,
            },
            CounterStrafeState::Idle | CounterStrafeState::Completed { .. } => StateDisplayInfo {
                main_text: String::from_str("READY"),
                sub_text: Some(String::from_str("Press A or D")),
                show_target: false,
            },
        }
    }
}

} // verus!
