use counter_strafe_trainer::events::{
    event_queue, polled_event, press_event, release_event, role, GameEvent, KeyFilter, KeyRole,
    PhysicalKey, RawEvent, LEFT_ALIAS,
};
use counter_strafe_trainer::state::StrafeKey;
use std::sync::mpsc::TryRecvError;

#[test]
fn test_game_event_equality() {
    assert_eq!(GameEvent::KeyAPress, GameEvent::KeyAPress);
    assert_ne!(GameEvent::KeyAPress, GameEvent::KeyDPress);
}

#[test]
fn keys_and_their_roles() {
    assert_eq!(LEFT_ALIAS, PhysicalKey::Alt);
    assert_eq!(role(PhysicalKey::KeyA), KeyRole::Strafe(StrafeKey::A));
    assert_eq!(role(LEFT_ALIAS), KeyRole::Strafe(StrafeKey::A));
    assert_eq!(role(PhysicalKey::KeyD), KeyRole::Strafe(StrafeKey::D));
    assert_eq!(role(PhysicalKey::Space), KeyRole::Auxiliary);
    assert_eq!(role(PhysicalKey::Escape), KeyRole::Quit);
    assert_eq!(role(PhysicalKey::Other), KeyRole::Unused);

    assert_eq!(press_event(StrafeKey::A), GameEvent::KeyAPress);
    assert_eq!(press_event(StrafeKey::D), GameEvent::KeyDPress);
    assert_eq!(release_event(StrafeKey::A), GameEvent::KeyARelease);
    assert_eq!(release_event(StrafeKey::D), GameEvent::KeyDRelease);
}

#[test]
fn filter_suppresses_key_repeat() {
    let mut filter = KeyFilter::new();
    assert!(!filter.is_pressed(StrafeKey::A));
    assert_eq!(filter.filter(RawEvent::KeyPress(PhysicalKey::KeyA)), Some(GameEvent::KeyAPress));
    assert!(filter.is_pressed(StrafeKey::A));
    assert!(!filter.is_pressed(StrafeKey::D));
    assert_eq!(filter.filter(RawEvent::KeyPress(PhysicalKey::KeyA)), None);
    assert_eq!(filter.filter(RawEvent::KeyPress(PhysicalKey::KeyA)), None);
    assert_eq!(filter.filter(RawEvent::KeyRelease(PhysicalKey::KeyA)), Some(GameEvent::KeyARelease));
    assert!(!filter.is_pressed(StrafeKey::A));
    assert_eq!(filter.filter(RawEvent::KeyRelease(PhysicalKey::KeyA)), None);
    assert_eq!(filter.filter(RawEvent::KeyPress(PhysicalKey::KeyA)), Some(GameEvent::KeyAPress));
}

#[test]
fn the_two_strafe_keys_are_filtered_apart() {
    let mut filter = KeyFilter::new();
    assert_eq!(filter.filter(RawEvent::KeyPress(PhysicalKey::KeyA)), Some(GameEvent::KeyAPress));
    assert_eq!(filter.filter(RawEvent::KeyPress(PhysicalKey::KeyD)), Some(GameEvent::KeyDPress));
    assert_eq!(filter, KeyFilter { a_pressed: true, d_pressed: true });
    assert_eq!(filter.filter(RawEvent::KeyPress(PhysicalKey::KeyD)), None);
    assert_eq!(filter.filter(RawEvent::KeyRelease(PhysicalKey::KeyA)), Some(GameEvent::KeyARelease));
    assert_eq!(filter, KeyFilter { a_pressed: false, d_pressed: true });
    assert_eq!(filter.filter(RawEvent::KeyRelease(PhysicalKey::KeyD)), Some(GameEvent::KeyDRelease));
    assert_eq!(filter, KeyFilter::new());
}

#[test]
fn the_alias_acts_as_the_left_key() {
    let mut filter = KeyFilter::new();
    assert_eq!(filter.filter(RawEvent::KeyPress(PhysicalKey::Alt)), Some(GameEvent::KeyAPress));
    // The alias and the key share one position.
    assert_eq!(filter.filter(RawEvent::KeyPress(PhysicalKey::KeyA)), None);
    assert_eq!(filter.filter(RawEvent::KeyRelease(PhysicalKey::KeyA)), Some(GameEvent::KeyARelease));
    assert_eq!(filter.filter(RawEvent::KeyRelease(PhysicalKey::Alt)), None);
    assert_eq!(filter.filter(RawEvent::KeyPress(PhysicalKey::KeyA)), Some(GameEvent::KeyAPress));
    assert_eq!(filter.filter(RawEvent::KeyRelease(PhysicalKey::Alt)), Some(GameEvent::KeyARelease));
}

#[test]
fn auxiliary_and_quit_are_not_filtered() {
    let mut filter = KeyFilter::new();
    for _ in 0..3 {
        assert_eq!(filter.filter(RawEvent::KeyPress(PhysicalKey::Space)), Some(GameEvent::SpacePress));
        assert_eq!(filter.filter(RawEvent::KeyPress(PhysicalKey::Escape)), Some(GameEvent::EscapePress));
    }
    assert_eq!(filter.filter(RawEvent::KeyRelease(PhysicalKey::Space)), None);
    assert_eq!(filter.filter(RawEvent::KeyRelease(PhysicalKey::Escape)), None);
    assert_eq!(filter, KeyFilter::new());
}

#[test]
fn other_input_is_ignored() {
    let mut filter = KeyFilter { a_pressed: true, d_pressed: false };
    assert_eq!(filter.filter(RawEvent::KeyPress(PhysicalKey::Other)), None);
    assert_eq!(filter.filter(RawEvent::KeyRelease(PhysicalKey::Other)), None);
    assert_eq!(filter.filter(RawEvent::Other), None);
    assert_eq!(filter, KeyFilter { a_pressed: true, d_pressed: false });
}

#[test]
fn published_presses_and_releases_take_turns() {
    let keys = [PhysicalKey::KeyA, PhysicalKey::KeyD, PhysicalKey::Alt, PhysicalKey::Space, PhysicalKey::Other];
    let mut filter = KeyFilter::new();
    let mut a_down = false;
    let mut d_down = false;
    let mut seed: u32 = 12_345;
    for _ in 0..2_000 {
        seed = seed.wrapping_mul(1_103_515_245).wrapping_add(12_345);
        let key = keys[((seed >> 16) % 5) as usize];
        let raw = if (seed >> 8) & 1 == 0 { RawEvent::KeyPress(key) } else { RawEvent::KeyRelease(key) };
        match filter.filter(raw) {
            Some(GameEvent::KeyAPress) => {
                assert!(!a_down);
                a_down = true;
            }
            Some(GameEvent::KeyARelease) => {
                assert!(a_down);
                a_down = false;
            }
            Some(GameEvent::KeyDPress) => {
                assert!(!d_down);
                d_down = true;
            }
            Some(GameEvent::KeyDRelease) => {
                assert!(d_down);
                d_down = false;
            }
            _ => {}
        }
        assert_eq!(filter.is_pressed(StrafeKey::A), a_down);
        assert_eq!(filter.is_pressed(StrafeKey::D), d_down);
    }
}

/// The raw press that gives rise to `event` at a publisher that knows the
/// strafe keys to be in the right position for it.
fn raw_for(event: GameEvent) -> RawEvent {
    match event {
        GameEvent::KeyAPress => RawEvent::KeyPress(PhysicalKey::KeyA),
        GameEvent::KeyARelease => RawEvent::KeyRelease(PhysicalKey::KeyA),
        GameEvent::KeyDPress => RawEvent::KeyPress(PhysicalKey::KeyD),
        GameEvent::KeyDRelease => RawEvent::KeyRelease(PhysicalKey::KeyD),
        GameEvent::SpacePress => RawEvent::KeyPress(PhysicalKey::Space),
        GameEvent::EscapePress => RawEvent::KeyPress(PhysicalKey::Escape),
    }
}

#[test]
fn the_queue_hands_events_out_in_order() {
    let (mut publisher, listener) = event_queue();
    assert_eq!(publisher.key_filter(), KeyFilter::new());

    assert_eq!(listener.try_recv(), None);
    assert_eq!(listener.drain_events(), vec![]);

    let sent = [
        GameEvent::KeyAPress,
        GameEvent::KeyARelease,
        GameEvent::KeyDPress,
        GameEvent::SpacePress,
        GameEvent::KeyDRelease,
        GameEvent::EscapePress,
    ];
    for event in sent {
        assert_eq!(publisher.publish(raw_for(event)), Some(event));
    }
    assert_eq!(listener.try_recv(), Some(GameEvent::KeyAPress));
    assert_eq!(listener.try_recv(), Some(GameEvent::KeyARelease));
    assert_eq!(listener.drain_events(), sent[2..].to_vec());
    assert_eq!(listener.drain_events(), vec![]);
    assert_eq!(listener.try_recv(), None);

    assert_eq!(publisher.publish(RawEvent::KeyPress(PhysicalKey::KeyA)), Some(GameEvent::KeyAPress));
    assert_eq!(listener.drain_events(), vec![GameEvent::KeyAPress]);
}

#[test]
fn the_queue_carries_only_what_the_filter_lets_through() {
    let (mut publisher, listener) = event_queue();
    let raws = [
        RawEvent::KeyPress(PhysicalKey::KeyA),
        RawEvent::KeyPress(PhysicalKey::KeyA),
        RawEvent::KeyPress(PhysicalKey::Alt),
        RawEvent::Other,
        RawEvent::KeyPress(PhysicalKey::Other),
        RawEvent::KeyRelease(PhysicalKey::KeyD),
        RawEvent::KeyRelease(PhysicalKey::KeyA),
        RawEvent::KeyPress(PhysicalKey::KeyD),
        RawEvent::KeyPress(PhysicalKey::KeyD),
        RawEvent::KeyPress(PhysicalKey::Space),
        RawEvent::KeyRelease(PhysicalKey::Space),
        RawEvent::KeyRelease(PhysicalKey::KeyD),
    ];
    let mut filter = KeyFilter::new();
    let mut expected = Vec::new();
    for raw in raws {
        let event = filter.filter(raw);
        assert_eq!(publisher.publish(raw), event);
        assert_eq!(publisher.key_filter(), filter);
        expected.extend(event);
    }
    assert_eq!(
        expected,
        vec![
            GameEvent::KeyAPress,
            GameEvent::KeyARelease,
            GameEvent::KeyDPress,
            GameEvent::SpacePress,
            GameEvent::KeyDRelease,
        ]
    );
    assert_eq!(listener.drain_events(), expected);
}

#[test]
fn a_queue_without_its_publisher_is_empty() {
    let (mut publisher, listener) = event_queue();
    assert_eq!(publisher.publish(RawEvent::KeyPress(PhysicalKey::Space)), Some(GameEvent::SpacePress));
    drop(publisher);
    // What was sent before the publisher went away is still handed out.
    assert_eq!(listener.drain_events(), vec![GameEvent::SpacePress]);
    assert_eq!(listener.try_recv(), None);
    assert_eq!(listener.drain_events(), vec![]);
}

#[test]
fn publishing_without_a_listener_drops_the_event() {
    let (mut publisher, listener) = event_queue();
    drop(listener);
    assert_eq!(publisher.publish(RawEvent::KeyPress(PhysicalKey::KeyA)), Some(GameEvent::KeyAPress));
    // The filter still follows the keys.
    assert_eq!(publisher.key_filter(), KeyFilter { a_pressed: true, d_pressed: false });
    assert_eq!(publisher.publish(RawEvent::KeyPress(PhysicalKey::KeyA)), None);
    assert_eq!(publisher.publish(RawEvent::KeyRelease(PhysicalKey::KeyA)), Some(GameEvent::KeyARelease));
}

#[test]
fn many_queued_events_are_drained_at_once() {
    let (mut publisher, listener) = event_queue();
    let mut sent = Vec::new();
    for i in 0..10_000u32 {
        let event = if i % 2 == 0 { GameEvent::KeyAPress } else { GameEvent::KeyARelease };
        assert_eq!(publisher.publish(raw_for(event)), Some(event));
        sent.push(event);
    }
    assert_eq!(listener.drain_events(), sent);
}

#[test]
fn a_poll_hands_out_what_was_received_or_nothing() {
    for event in [
        GameEvent::KeyAPress,
        GameEvent::KeyARelease,
        GameEvent::KeyDPress,
        GameEvent::KeyDRelease,
        GameEvent::SpacePress,
        GameEvent::EscapePress,
    ] {
        assert_eq!(polled_event(Ok(event)), Some(event));
    }
    assert_eq!(polled_event(Err(TryRecvError::Empty)), None);
    assert_eq!(polled_event(Err(TryRecvError::Disconnected)), None);
}
