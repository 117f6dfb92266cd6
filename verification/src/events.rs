//! Logical input events: how raw key transitions become them, and the queue
//! that carries them from the listener to the main loop.

use vstd::prelude::*;
use std::sync::mpsc::{channel, Receiver, Sender, TryRecvError};
use crate::state::StrafeKey;

verus! {

/// An input event as the state machine sees it.
#[derive(Debug, Clone, Copy, PartialEq, Eq, Structural)]
pub enum GameEvent {
    KeyAPress,
    KeyARelease,
    KeyDPress,
    KeyDRelease,
    SpacePress,
    EscapePress,
}

/// A key of the keyboard, as far as the trainer tells keys apart.
#[derive(Debug, Clone, Copy, PartialEq, Eq, Structural)]
pub enum PhysicalKey {
    KeyA,
    KeyD,
    Alt,
    Space,
    Escape,
    Other,
}

/// A raw transition reported by the keyboard hook. Key repeat shows up as
/// presses without a release between them.
#[derive(Debug, Clone, Copy, PartialEq, Eq, Structural)]
pub enum RawEvent {
    KeyPress(PhysicalKey),
    KeyRelease(PhysicalKey),
    /// Anything that is not a key transition.
    Other,
}

/// The second key that counts as the left strafe key.
pub const LEFT_ALIAS: PhysicalKey = PhysicalKey::Alt;

/// What a physical key means to the trainer.
#[derive(Debug, Clone, Copy, PartialEq, Eq, Structural)]
pub enum KeyRole {
    Strafe(StrafeKey),
    Auxiliary,
    Quit,
    Unused,
}

/// The meaning of a physical key: the left alias counts as the left strafe
/// key.
pub open spec fn spec_role(key: PhysicalKey) -> KeyRole {
    if key == PhysicalKey::KeyA || key == LEFT_ALIAS {
        KeyRole::Strafe(StrafeKey::A)
    } else if key == PhysicalKey::KeyD {
        KeyRole::Strafe(StrafeKey::D)
    } else if key == PhysicalKey::Space {
        KeyRole::Auxiliary
    } else if key == PhysicalKey::Escape {
        KeyRole::Quit
    } else {
        KeyRole::Unused
    }
}

/// The meaning of a physical key.
pub fn role(key: PhysicalKey) -> (meaning: KeyRole)
    ensures
        meaning == spec_role(key),
{
    if key == PhysicalKey::KeyA || key == LEFT_ALIAS {
        KeyRole::Strafe(StrafeKey::A)
    } else if key == PhysicalKey::KeyD {
        KeyRole::Strafe(StrafeKey::D)
    } else if key == PhysicalKey::Space {
        KeyRole::Auxiliary
    } else if key == PhysicalKey::Escape {
        KeyRole::Quit
    } else {
        KeyRole::Unused
    }
}

/// The event of pressing a strafe key.
pub open spec fn spec_press_event(key: StrafeKey) -> GameEvent {
    match key {
        StrafeKey::A => GameEvent::KeyAPress,
        StrafeKey::D => GameEvent::KeyDPress,
    }
}

/// The event of releasing a strafe key.
pub open spec fn spec_release_event(key: StrafeKey) -> GameEvent {
    match key {
        StrafeKey::A => GameEvent::KeyARelease,
        StrafeKey::D => GameEvent::KeyDRelease,
    }
}

/// The event of pressing a strafe key.
pub fn press_event(key: StrafeKey) -> (event: GameEvent)
    ensures
        event == spec_press_event(key),
{
    match key {
        StrafeKey::A => GameEvent::KeyAPress,
        StrafeKey::D => GameEvent::KeyDPress,
    }
}

/// The event of releasing a strafe key.
pub fn release_event(key: StrafeKey) -> (event: GameEvent)
    ensures
        event == spec_release_event(key),
{
    match key {
        StrafeKey::A => GameEvent::KeyARelease,
        StrafeKey::D => GameEvent::KeyDRelease,
    }
}

/// The last known position of each strafe key, by which key repeat is told
/// from a fresh press.
#[derive(Debug, Clone, Copy, PartialEq, Eq, Structural)]
pub struct KeyFilter {
    pub a_pressed: bool,
    pub d_pressed: bool,
}

impl KeyFilter {
    /// Whether `key` is known to be down.
    pub open spec fn pressed(self, key: StrafeKey) -> bool {
        match key {
            StrafeKey::A => self.a_pressed,
            StrafeKey::D => self.d_pressed,
        }
    }

    /// The filter with `key` known to be down or up.
    pub open spec fn with_pressed(self, key: StrafeKey, down: bool) -> KeyFilter {
        match key {
            StrafeKey::A => KeyFilter { a_pressed: down, ..self },
            StrafeKey::D => KeyFilter { d_pressed: down, ..self },
        }
    }

    /// The event that a raw transition gives rise to: a strafe key reports a
    /// press only when it was up and a release only when it was down; the
    /// auxiliary and the quit key report every press.
    pub open spec fn emits(self, raw: RawEvent) -> Option<GameEvent> {
        match raw {
            RawEvent::KeyPress(physical) => match spec_role(physical) {
                KeyRole::Strafe(key) => if self.pressed(key) {
                    None
                } else {
                    Some(spec_press_event(key))
                },
                KeyRole::Auxiliary => Some(GameEvent::SpacePress),
                KeyRole::Quit => Some(GameEvent::EscapePress),
                KeyRole::Unused => None,
            },
            RawEvent::KeyRelease(physical) => match spec_role(physical) {
                KeyRole::Strafe(key) => if self.pressed(key) {
                    Some(spec_release_event(key))
                } else {
                    None
                },
                _ => None,
            },
            RawEvent::Other => None,
        }
    }

    /// The filter after a raw transition: a strafe key is down after its
    /// press and up after its release.
    pub open spec fn after(self, raw: RawEvent) -> KeyFilter {
        match raw {
            RawEvent::KeyPress(physical) => match spec_role(physical) {
                KeyRole::Strafe(key) => self.with_pressed(key, true),
                _ => self,
            },
            RawEvent::KeyRelease(physical) => match spec_role(physical) {
                KeyRole::Strafe(key) => self.with_pressed(key, false),
                _ => self,
            },
            RawEvent::Other => self,
        }
    }

    /// The filter after the raw transitions `raws`, in order.
    pub open spec fn after_all(self, raws: Seq<RawEvent>) -> KeyFilter
        decreases raws.len(),
    {
        if raws.len() == 0 {
            self
        } else {
            self.after_all(raws.drop_last()).after(raws.last())
        }
    }

    /// The events that the raw transitions `raws` give rise to, in order.
    pub open spec fn emits_all(self, raws: Seq<RawEvent>) -> Seq<GameEvent>
        decreases raws.len(),
    {
        if raws.len() == 0 {
            Seq::empty()
        } else {
            let earlier = self.emits_all(raws.drop_last());
            match self.after_all(raws.drop_last()).emits(raws.last()) {
                Some(event) => earlier.push(event),
                None => earlier,
            }
        }
    }

    /// A filter that knows both strafe keys to be up.
    pub fn new() -> (filter: Self)
        ensures
            filter == (KeyFilter { a_pressed: false, d_pressed: false }),
    {
        KeyFilter { a_pressed: false, d_pressed: false }
    }

    /// Whether `key` is known to be down.
    pub fn is_pressed(&self, key: StrafeKey) -> (down: bool)
        ensures
            down == self.pressed(key),
    {
        match key {
            StrafeKey::A => self.a_pressed,
            StrafeKey::D => self.d_pressed,
        }
    }

    /// Notes `key` as down or up.
    fn set_pressed(&mut self, key: StrafeKey, down: bool)
        ensures
            *final(self) == old(self).with_pressed(key, down),
    {
        match key {
            StrafeKey::A => self.a_pressed = down,
            StrafeKey::D => self.d_pressed = down,
        }
    }

    /// Takes a raw transition, notes the key's new position, and returns the
    /// event to publish, if any.
    pub fn filter(&mut self, raw: RawEvent) -> (event: Option<GameEvent>)
        ensures
            event == old(self).emits(raw),
            *final(self) == old(self).after(raw),
    {
        match raw {
            RawEvent::KeyPress(physical) => match role(physical) {
                KeyRole::Strafe(key) => {
                    if !self.is_pressed(key) {
                        self.set_pressed(key, true);
                        Some(press_event(key))
                    } else {
                        None
                    }
                },
                KeyRole::Auxiliary => Some(GameEvent::SpacePress),
                KeyRole::Quit => Some(GameEvent::EscapePress),
                KeyRole::Unused => None,
            },
            RawEvent::KeyRelease(physical) => match role(physical) {
                KeyRole::Strafe(key) => {
                    if self.is_pressed(key) {
                        self.set_pressed(key, false);
                        Some(release_event(key))
                    } else {
                        None
                    }
                },
                _ => None,
            },
            RawEvent::Other => None,
        }
    }
}

/// Whether `key` is down after the published events `events`, given whether
/// it was down before them.
pub open spec fn held_after(events: Seq<GameEvent>, initially: bool, key: StrafeKey) -> bool
    decreases events.len(),
{
    if events.len() == 0 {
        initially
    } else if events.last() == spec_press_event(key) {
        true
    } else if events.last() == spec_release_event(key) {
        false
    } else {
        held_after(events.drop_last(), initially, key)
    }
}

/// Whether presses and releases of `key` take turns in `events`: no press
/// while the key is down, no release while it is up.
pub open spec fn debounced(events: Seq<GameEvent>, initially: bool, key: StrafeKey) -> bool
    decreases events.len(),
{
    events.len() == 0 || {
        let earlier = events.drop_last();
        &&& debounced(earlier, initially, key)
        &&& events.last() == spec_press_event(key) ==> !held_after(earlier, initially, key)
        &&& events.last() == spec_release_event(key) ==> held_after(earlier, initially, key)
    }
}

/// Whatever the keyboard reports, the published presses and releases of each
/// strafe key take turns, and the filter knows the key's position.
pub proof fn lemma_filter_debounces(filter: KeyFilter, raws: Seq<RawEvent>, key: StrafeKey)
    ensures
        debounced(filter.emits_all(raws), filter.pressed(key), key),
        held_after(filter.emits_all(raws), filter.pressed(key), key) == filter.after_all(
            raws,
        ).pressed(key),
    decreases raws.len(),
{
    if raws.len() > 0 {
        let earlier = filter.emits_all(raws.drop_last());
        lemma_filter_debounces(filter, raws.drop_last(), key);
        match filter.after_all(raws.drop_last()).emits(raws.last()) {
            Some(event) => {
                assert(earlier.push(event).drop_last() =~= earlier);
            },
            None => {},
        }
    }
}

/// The receiving end of a channel of the standard library.
#[verifier::external_type_specification]
#[verifier::external_body]
#[verifier::reject_recursive_types(T)]
pub struct ExReceiver<T>(Receiver<T>);

/// The sending end of a channel of the standard library.
#[verifier::external_type_specification]
#[verifier::external_body]
#[verifier::reject_recursive_types(T)]
pub struct ExSender<T>(Sender<T>);

/// Calls `std::sync::mpsc::channel`, which opens a queue without a bound and
/// returns its two ends. Nothing is claimed of them.
#[verifier::external_body]
fn open_channel() -> (ends: (Sender<GameEvent>, Receiver<GameEvent>)) {
    channel()
}

/// Calls `Sender::send`, which never blocks, and drops its answer: an event
/// sent after the receiver is gone is lost.
#[verifier::external_body]
fn send_on_channel(sender: &Sender<GameEvent>, event: GameEvent) {
    let _ = sender.send(event);
}

/// Why a poll of a channel of the standard library gave no value: the
/// channel was empty, or its sender is gone.
#[verifier::external_type_specification]
#[verifier::external_body]
pub struct ExTryRecvError(TryRecvError);

/// Calls `Receiver::try_recv`, which never blocks. What comes back depends on
/// what the sender has sent so far, so nothing is claimed of it.
#[verifier::external_body]
fn poll_channel(receiver: &Receiver<GameEvent>) -> (outcome: Result<GameEvent, TryRecvError>) {
    receiver.try_recv()
}

/// What a poll of the queue hands out: the event that was received, and
/// nothing where the poll failed, whatever the reason.
pub open spec fn spec_polled_event(outcome: Result<GameEvent, TryRecvError>) -> Option<GameEvent> {
    match outcome {
        Ok(received) => Some(received),
        Err(_) => None,
    }
}

/// What a poll of the queue hands out: the event that was received, and
/// nothing where the poll failed, whatever the reason.
pub fn polled_event(outcome: Result<GameEvent, TryRecvError>) -> (event: Option<GameEvent>)
    ensures
        event == spec_polled_event(outcome),
{
    match outcome {
        Ok(received) => Some(received),
        Err(_) => None,
    }
}

/// The publishing end of the event queue: it filters raw transitions and
/// sends what is left. It belongs to the thread that hooks the keyboard.
pub struct EventPublisher {
    sender: Sender<GameEvent>,
    filter: KeyFilter,
}

/// The consuming end of the event queue. It belongs to the main loop.
pub struct EventListener {
    receiver: Receiver<GameEvent>,
}

/// Opens an event queue and returns its two ends. The publisher knows both
/// strafe keys to be up.
pub fn event_queue() -> (ends: (EventPublisher, EventListener))
    ensures
        ends.0.filter_state() == (KeyFilter { a_pressed: false, d_pressed: false }),
{
    let (sender, receiver) = open_channel();
    (EventPublisher { sender, filter: KeyFilter::new() }, EventListener { receiver })
}

impl EventPublisher {
    /// What the publisher knows of the strafe keys.
    pub closed spec fn filter_state(&self) -> KeyFilter {
        self.filter
    }

    /// What the publisher knows of the strafe keys.
    pub fn key_filter(&self) -> (filter: KeyFilter)
        ensures
            filter == self.filter_state(),
    {
        self.filter
    }

    /// Takes a raw transition, notes the key's new position, and sends the
    /// event that the transition gives rise to, if any. Returns that event.
    /// Sending never waits, and an event that cannot be delivered is dropped.
    pub fn publish(&mut self, raw: RawEvent) -> (event: Option<GameEvent>)
        ensures
            event == old(self).filter_state().emits(raw),
            final(self).filter_state() == old(self).filter_state().after(raw),
    {
        let event = self.filter.filter(raw);
        if let Some(emitted) = event {
            send_on_channel(&self.sender, emitted);
        }
        event
    }
}

impl EventListener {
    /// Takes the next queued event without waiting; none if the queue is
    /// empty or the sender is gone.
    pub fn try_recv(&self) -> (event: Option<GameEvent>) {
        polled_event(poll_channel(&self.receiver))
    }

    /// Takes all queued events without waiting, in the order of arrival.
    pub fn drain_events(&self) -> (events: Vec<GameEvent>) {
        let mut events: Vec<GameEvent> = Vec::new();
        while events.len() < usize::MAX
            decreases usize::MAX - events@.len(),
        {
            match self.try_recv() {
                Some(event) => events.push(event),
                None => break ,
            }
        }
        events
    }
}

} // verus!
