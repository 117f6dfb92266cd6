//! One practice session: the state machine, the feed and the tally, and the
//! step that feeds a frame's events through them.

use vstd::prelude::*;
use vstd::string::*;
use crate::events::{EventListener, GameEvent};
use crate::feedback::{
    entry_at,
    good_message,
    lemma_with_newest,
    live_at,
    live_entries,
    perfect_message,
    with_newest,
    EntryView,
    FeedSystem,
    MAX_FEED_ENTRIES,
};
use crate::state::{
    after_press,
    after_release,
    after_timeout,
    press_result,
    release_result,
    CompletionResult,
    CompletionView,
    CounterStrafeState,
    Quality,
    StateView,
    StrafeKey,
    TIMEOUT_NO_COUNTER,
};
use crate::stats::{lemma_record_keeps_balance, Stats, Tally};
use crate::text::{format_labelled, labelled_number};
use crate::timing::{millis_half_even, spec_millis_half_even};

verus! {

/// Everything the main loop owns.
#[derive(Debug)]
pub struct Session {
    pub state: CounterStrafeState,
    pub feed: FeedSystem,
    pub stats: Stats,
    /// Whether the player has asked to quit.
    pub should_quit: bool,
}

/// A `Session` as a mathematical value.
pub struct SessionView {
    pub state: StateView,
    pub feed: Seq<EntryView>,
    pub stats: Tally,
    pub should_quit: bool,
}

impl View for Session {
    type V = SessionView;

    open spec fn view(&self) -> SessionView {
        SessionView {
            state: self.state@,
            feed: self.feed@,
            stats: self.stats@,
            should_quit: self.should_quit,
        }
    }
}

/// The message of a failed attempt that came without one: its hold time in
/// rounded milliseconds.
pub open spec fn failed_message(hold_time: nat) -> Seq<char> {
    labelled_number("Failed "@, spec_millis_half_even(hold_time), "ms"@)
}

/// The feed entry made at time `now` for a result: a result with a message
/// is shown as a failure with that message, one without by its grade and
/// hold time.
pub open spec fn completion_entry(result: CompletionView, now: nat) -> EntryView {
    match result.error_message {
        Some(message) => entry_at(message, Quality::Failed, now),
        None => match result.quality {
            Quality::Perfect => entry_at(perfect_message(result.hold_time), Quality::Perfect, now),
            Quality::Good => entry_at(good_message(result.hold_time), Quality::Good, now),
            Quality::Failed => entry_at(failed_message(result.hold_time), Quality::Failed, now),
        },
    }
}

impl SessionView {
    /// The session before any input.
    pub open spec fn fresh() -> SessionView {
        SessionView {
            state: StateView::Idle,
            feed: Seq::empty(),
            stats: Tally::zero(),
            should_quit: false,
        }
    }

    /// The session after a result was counted and put on the feed.
    pub open spec fn after_completion(self, result: CompletionView, now: nat) -> SessionView {
        SessionView {
            stats: self.stats.record(result.quality),
            feed: with_newest(self.feed, completion_entry(result, now)),
            ..self
        }
    }

    /// The session after the state machine moved to `state` and reported
    /// `result`.
    pub open spec fn after_transition(
        self,
        state: StateView,
        result: Option<CompletionView>,
        now: nat,
    ) -> SessionView {
        let moved = SessionView { state, ..self };
        match result {
            Some(completion) => moved.after_completion(completion, now),
            None => moved,
        }
    }

    /// The session after a press of `key` at time `now`.
    pub open spec fn after_key_press(self, key: StrafeKey, now: nat) -> SessionView {
        self.after_transition(after_press(self.state, key, now), press_result(self.state, key), now)
    }

    /// The session after a release of `key` at time `now`.
    pub open spec fn after_key_release(self, key: StrafeKey, now: nat) -> SessionView {
        self.after_transition(
            after_release(self.state, key, now),
            release_result(self.state, key, now),
            now,
        )
    }

    /// The session after one event handled at time `now`.
    pub open spec fn after_event(self, event: GameEvent, now: nat) -> SessionView {
        match event {
            GameEvent::KeyAPress => self.after_key_press(StrafeKey::A, now),
            GameEvent::KeyARelease => self.after_key_release(StrafeKey::A, now),
            GameEvent::KeyDPress => self.after_key_press(StrafeKey::D, now),
            GameEvent::KeyDRelease => self.after_key_release(StrafeKey::D, now),
            GameEvent::SpacePress => self,
            GameEvent::EscapePress => SessionView { should_quit: true, ..self },
        }
    }

    /// The session after the events `events`, handled in order at time `now`.
    pub open spec fn after_events(self, events: Seq<GameEvent>, now: nat) -> SessionView
        decreases events.len(),
    {
        if events.len() == 0 {
            self
        } else {
            self.after_events(events.drop_last(), now).after_event(events.last(), now)
        }
    }

    /// The session after the timeout check and the removal of faded entries
    /// at time `now`.
    pub open spec fn after_upkeep(self, now: nat) -> SessionView {
        SessionView {
            state: after_timeout(self.state, now),
            feed: live_entries(self.feed, now),
            ..self
        }
    }

    /// The session after one frame: the events in order, then the upkeep.
    pub open spec fn after_frame(self, events: Seq<GameEvent>, now: nat) -> SessionView {
        self.after_events(events, now).after_upkeep(now)
    }
}

/// Whether a session keeps its books: the tally is balanced and the feed is
/// within its capacity.
pub open spec fn in_order(session: SessionView) -> bool {
    session.stats.balanced() && session.feed.len() <= MAX_FEED_ENTRIES
}

/// Counting a result and putting it on the feed keeps the books in order
/// and counts at most one attempt.
pub proof fn lemma_completion_keeps_order(session: SessionView, result: CompletionView, now: nat)
    requires
        in_order(session),
    ensures
        in_order(session.after_completion(result, now)),
        session.stats.total <= session.after_completion(result, now).stats.total
            <= session.stats.total + 1,
        session.after_completion(result, now).feed[0] == completion_entry(result, now),
        session.after_completion(result, now).state == session.state,
        session.after_completion(result, now).should_quit == session.should_quit,
{
    lemma_record_keeps_balance(session.stats, result.quality);
    lemma_with_newest(session.feed, completion_entry(result, now));
}

/// One event keeps the books in order. It counts at most one attempt, and
/// the player has asked to quit after it if they had before or the event is
/// the quit key.
pub proof fn lemma_event_keeps_order(session: SessionView, event: GameEvent, now: nat)
    requires
        in_order(session),
    ensures
        in_order(session.after_event(event, now)),
        session.stats.total <= session.after_event(event, now).stats.total <= session.stats.total
            + 1,
        session.after_event(event, now).should_quit == (session.should_quit || event
            == GameEvent::EscapePress),
{
    let (state, result) = match event {
        GameEvent::KeyAPress => (
            after_press(session.state, StrafeKey::A, now),
            press_result(session.state, StrafeKey::A),
        ),
        GameEvent::KeyDPress => (
            after_press(session.state, StrafeKey::D, now),
            press_result(session.state, StrafeKey::D),
        ),
        GameEvent::KeyARelease => (
            after_release(session.state, StrafeKey::A, now),
            release_result(session.state, StrafeKey::A, now),
        ),
        GameEvent::KeyDRelease => (
            after_release(session.state, StrafeKey::D, now),
            release_result(session.state, StrafeKey::D, now),
        ),
        _ => (session.state, None),
    };
    if let Some(completion) = result {
        lemma_completion_keeps_order(SessionView { state, ..session }, completion, now);
    }
}

/// Any events keep the books in order. They count at most one attempt each,
/// and the player has asked to quit after them if they had before or the
/// quit key is among them.
pub proof fn lemma_events_keep_order(session: SessionView, events: Seq<GameEvent>, now: nat)
    requires
        in_order(session),
    ensures
        in_order(session.after_events(events, now)),
        session.stats.total <= session.after_events(events, now).stats.total
            <= session.stats.total + events.len(),
        session.after_events(events, now).should_quit == (session.should_quit || events.contains(
            GameEvent::EscapePress,
        )),
    decreases events.len(),
{
    if events.len() > 0 {
        let earlier = events.drop_last();
        lemma_events_keep_order(session, earlier, now);
        lemma_event_keeps_order(session.after_events(earlier, now), events.last(), now);
        if earlier.contains(GameEvent::EscapePress) {
            let at = choose|i: int| 0 <= i < earlier.len() && earlier[i] == GameEvent::EscapePress;
            assert(events[at] == GameEvent::EscapePress);
        }
        if events.contains(GameEvent::EscapePress) && events.last() != GameEvent::EscapePress {
            let at = choose|i: int| 0 <= i < events.len() && events[i] == GameEvent::EscapePress;
            assert(earlier[at] == GameEvent::EscapePress);
        }
    }
}

/// A frame keeps the books in order, whatever the events and the time. After
/// it no entry on the feed has faded out, the tally has changed as the
/// events alone say, and a released key that has waited out the timeout is
/// idle.
pub proof fn lemma_frame_keeps_order(session: SessionView, events: Seq<GameEvent>, now: nat)
    requires
        in_order(session),
    ensures
        in_order(session.after_frame(events, now)),
        forall|i: int|
            0 <= i < session.after_frame(events, now).feed.len() ==> !(
            #[trigger] session.after_frame(events, now).feed[i]).expired(now),
        session.after_frame(events, now).stats == session.after_events(events, now).stats,
        session.after_frame(events, now).should_quit == (session.should_quit || events.contains(
            GameEvent::EscapePress,
        )),
        !(session.after_frame(events, now).state matches StateView::Released { release_time, .. }
            && now >= release_time + TIMEOUT_NO_COUNTER),
{
    lemma_events_keep_order(session, events, now);
    let handled = session.after_events(events, now);
    handled.feed.lemma_filter_len(live_at(now));
    let after = session.after_frame(events, now);
    assert forall|i: int| 0 <= i < after.feed.len() implies !(#[trigger] after.feed[i]).expired(
        now,
    ) by {
        handled.feed.lemma_filter_pred(live_at(now), i);
    }
}

impl Session {
    /// A session before any input.
    pub fn new() -> (session: Self)
        ensures
            session@ == SessionView::fresh(),
    {
        Session {
            state: CounterStrafeState::new(),
            feed: FeedSystem::new(),
            stats: Stats::new(),
            should_quit: false,
        }
    }

    /// Counts a result and puts it on the feed.
    pub fn handle_completion(&mut self, result: CompletionResult, now: u64)
        ensures
            final(self)@ == old(self)@.after_completion(result@, now as nat),
    {
        self.stats.record(result.quality);
        match &result.error_message {
            Some(message) => self.feed.add_failed(message.as_str(), now),
            None => match result.quality {
                Quality::Perfect => self.feed.add_perfect(result.hold_time, now),
                Quality::Good => self.feed.add_good(result.hold_time, now),
                Quality::Failed => {
                    let message = format_labelled(
                        "Failed ",
                        millis_half_even(result.hold_time),
                        "ms",
                    );
                    self.feed.add_failed(message.as_str(), now);
                },
            },
        }
    }

    /// Hands a press of `key` to the state machine and handles what it
    /// reports.
    pub fn handle_key_press(&mut self, key: StrafeKey, now: u64)
        ensures
            final(self)@ == old(self)@.after_key_press(key, now as nat),
    {
        if let Some(result) = self.state.on_key_press(key, now) {
            self.handle_completion(result, now);
        }
    }

    /// Hands a release of `key` to the state machine and handles what it
    /// reports.
    pub fn handle_key_release(&mut self, key: StrafeKey, now: u64)
        ensures
            final(self)@ == old(self)@.after_key_release(key, now as nat),
    {
        if let Some(result) = self.state.on_key_release(key, now) {
            self.handle_completion(result, now);
        }
    }

    /// Handles one event at time `now`.
    pub fn handle_event(&mut self, event: GameEvent, now: u64)
        ensures
            final(self)@ == old(self)@.after_event(event, now as nat),
    {
        match event {
            GameEvent::KeyAPress => self.handle_key_press(StrafeKey::A, now),
            GameEvent::KeyARelease => self.handle_key_release(StrafeKey::A, now),
            GameEvent::KeyDPress => self.handle_key_press(StrafeKey::D, now),
            GameEvent::KeyDRelease => self.handle_key_release(StrafeKey::D, now),
            GameEvent::SpacePress => {},
            GameEvent::EscapePress => {
                self.should_quit = true;
            },
        }
    }

    /// Runs one frame at time `now`: handles the events in order, then
    /// checks the timeout and drops the faded feed entries.
    pub fn process_events(&mut self, events: &Vec<GameEvent>, now: u64)
        ensures
            final(self)@ == old(self)@.after_frame(events@, now as nat),
    {
        let mut index: usize = 0;
        while index < events.len()
            invariant
                index <= events@.len(),
                self@ == old(self)@.after_events(events@.subrange(0, index as int), now as nat),
            decreases events@.len() - index,
        {
            proof {
                assert(events@.subrange(0, index + 1).drop_last() =~= events@.subrange(
                    0,
                    index as int,
                ));
            }
            self.handle_event(events[index], now);
            index += 1;
        }
        proof {
            assert(events@.subrange(0, index as int) =~= events@);
        }
        self.state.check_timeout(now);
        self.feed.cleanup(now);
    }

    /// Runs one frame at time `now` on the events that are queued at
    /// `listener`, without waiting for more.
    pub fn poll(&mut self, listener: &EventListener, now: u64)
        ensures
            exists|events: Seq<GameEvent>|
                final(self)@ == #[trigger] old(self)@.after_frame(events, now as nat),
    {
        let events = listener.drain_events();
        self.process_events(&events, now);
    }
}

} // verus!
