use sdl2::custom::CustomEventTypeMaps;
use sdl2::event::{Event, RawEventError};
use sdl2::keyboard::Scancode;
use sdl2::raw::RawEvent;
use sdl2::subsystem::{EventPump, EventSubsystem};

#[test]
fn push_event_refuses_unsupported_events() {
    let ev = EventSubsystem::new();
    let r = ev.push_event(Event::ClipboardUpdate { timestamp: 0 });
    assert_eq!(r.err(), Some("Cannot push unsupported event type to the queue".to_string()));
    let raw = ev.push_event(Event::Quit { timestamp: 3 }).ok().unwrap();
    assert!(Event::from_ll(&raw) == Event::Quit { timestamp: 3 });
}

#[test]
fn register_events_hands_out_consecutive_numbers() {
    let ev = EventSubsystem::new();
    assert_eq!(ev.register_events(3, 0x8000), Ok(vec![0x8000, 0x8001, 0x8002]));
    assert_eq!(ev.register_events(0, 0x8004), Ok(vec![]));
    assert_eq!(
        ev.register_events(1, u32::MAX),
        Err("No more user events can be created; SDL_LASTEVENT reached".to_string())
    );
    assert_eq!(ev.register_event(0x8010), Ok(0x8010));
}

#[test]
fn custom_events_are_registered_once_and_delivered() {
    let ev = EventSubsystem::new();
    let mut maps = CustomEventTypeMaps::new();
    assert_eq!(maps.sdl_id_of(77), None);
    assert_eq!(ev.register_custom_event(&mut maps, 0x8003, 77), Ok(()));
    assert_eq!(maps.sdl_id_of(77), Some(0x8003));
    assert_eq!(maps.type_id_of(0x8003), Some(77));
    assert_eq!(
        ev.register_custom_event(&mut maps, 0x8004, 77),
        Err("The same event type can not be registered twice!".to_string())
    );
    assert_eq!(maps.type_id_of(0x8004), None);
    assert_eq!(
        ev.register_custom_event(&mut maps, u32::MAX, 78),
        Err("No more user events can be created; SDL_LASTEVENT reached".to_string())
    );
    let raw = ev.push_custom_event(&maps, 77, 0xdead_beef);
    let received = Event::from_ll(&raw);
    assert!(received.is_user_event());
    assert_eq!(received.as_user_event_type(&maps, 77), Some(0xdead_beef));
    assert_eq!(received.as_user_event_type(&maps, 78), None);
    assert_eq!(Event::Quit { timestamp: 0 }.as_user_event_type(&maps, 77), None);
}

#[test]
fn peek_events_converts_in_order() {
    let ev = EventSubsystem::new();
    let raws = vec![
        Event::Quit { timestamp: 1 }.to_ll().unwrap(),
        Event::JoyDeviceAdded { timestamp: 2, which: 5 }.to_ll().unwrap(),
    ];
    let events = ev.peek_events(&raws).ok().unwrap();
    assert!(events.len() == 2);
    assert!(events[0] == Event::Quit { timestamp: 1 });
    assert!(events[1] == Event::JoyDeviceAdded { timestamp: 2, which: 5 });
    let bad = vec![RawEvent::from_bytes(&[0u8; 56], &[])];
    assert!(ev.peek_events(&bad).is_err());
}

#[test]
fn pump_decisions() {
    let mut pump = EventPump::new();
    assert!(pump.is_event_enabled(1));
    assert!(!pump.is_event_enabled(0));
    assert!(pump.enable_event(1));
    assert!(!pump.disable_event(0));
    let raw = Event::Quit { timestamp: 4 }.to_ll().unwrap();
    assert!(pump.poll_event(false, &raw) == Ok(None));
    assert!(pump.poll_event(true, &raw) == Ok(Some(Event::Quit { timestamp: 4 })));
    assert!(pump.wait_event(&raw) == Ok(Event::Quit { timestamp: 4 }));
    assert!(pump.wait_event_timeout(false, &raw) == Ok(None));
    assert!(pump.wait_event_timeout(true, &raw) == Ok(Some(Event::Quit { timestamp: 4 })));
    let first = RawEvent::from_bytes(&[0u8; 56], &[]);
    assert!(pump.poll_event(true, &first) == Err(RawEventError::UnusedFirst));
    assert!(pump.wait_event(&first) == Err(RawEventError::UnusedFirst));
    assert_eq!(pump.wait_timeout_iter(250).timeout(), 250);
    let state = pump.mouse_state(0b101, 10, -2);
    assert_eq!((state.to_sdl_state(), state.x(), state.y()), (0b101, 10, -2));
    let rel = pump.relative_mouse_state(1, -3, 4);
    assert_eq!((rel.to_sdl_state(), rel.x(), rel.y()), (1, -3, 4));
    let mut keys = vec![0u8; 512];
    keys[20] = 1;
    let ks = pump.keyboard_state(&keys);
    assert!(ks.is_scancode_pressed(Scancode::Q));
    assert!(!ks.is_scancode_pressed(Scancode::R));
}

#[test]
fn peek_events_reports_the_first_unconvertible_event() {
    let ev = EventSubsystem::new();
    let mut last = [0u8; 56];
    last[0..4].copy_from_slice(&0xffffu32.to_le_bytes());
    let ok = Event::Quit { timestamp: 1 }.to_ll().unwrap();
    let raws = vec![ok, RawEvent::from_bytes(&[0u8; 56], &[]), RawEvent::from_bytes(&last, &[])];
    assert!(ev.peek_events(&raws) == Err(RawEventError::UnusedFirst));
    let raws = vec![RawEvent::from_bytes(&last, &[]), RawEvent::from_bytes(&[0u8; 56], &[])];
    assert!(ev.peek_events(&raws) == Err(RawEventError::UnusableLast));
}

#[test]
fn pushed_events_carry_no_dropped_file() {
    let ev = EventSubsystem::new();
    let raw = ev.push_event(Event::Quit { timestamp: 9 }).ok().unwrap();
    assert!(raw.dropped_file().is_empty());
    let mut maps = CustomEventTypeMaps::new();
    assert_eq!(ev.register_custom_event(&mut maps, 0x8000, 5), Ok(()));
    let raw = ev.push_custom_event(&maps, 5, 0x10);
    assert!(raw.dropped_file().is_empty());
}
