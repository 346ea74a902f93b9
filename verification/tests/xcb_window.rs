//! Lifecycle and translation scenarios on the XCB backend state machine.

use nengine::platform::linux::Window;
use nengine::platform::linux::XcbEvent;
use nengine::platform::CrossPlatformWindow;
use nengine::platform::RecordingSink;
use nengine::platform::WindowError;
use nengine::Event;
use nengine::MouseButton;
use nengine::Key;

const DELETE_ATOM: u32 = 0x1a4;

fn fresh_window() -> Window<RecordingSink> {
    let mut window: Window<RecordingSink> = Window::new(800, 600, "Test", false);
    window.register_close_protocol(DELETE_ATOM);
    window
}

fn recorded(window: &Window<RecordingSink>) -> &[Event] {
    match &window.event_callback {
        Some(sink) => &sink.events,
        None => panic!("no sink registered"),
    }
}

#[test]
fn window_starts_open_hidden_and_empty() {
    let window = fresh_window();
    assert!(window.is_open());
    assert!(!window.visible);
    assert_eq!(window.width, 800);
    assert_eq!(window.height, 600);
    assert_eq!(window.title, "Test");
    assert!(!window.fullscreen);
    assert!(window.pending.is_empty());
}

#[test]
fn show_keeps_the_window_open() {
    let mut window = fresh_window();
    window.show();
    assert!(window.is_open());
    assert!(window.visible);
    window.show();
    assert!(window.visible);
}

#[test]
fn close_message_flips_is_open_exactly_once() {
    let mut window = fresh_window();
    window.set_event_callback(RecordingSink::new());
    window.show();
    window.queue_native_event(XcbEvent::ClientMessage { data0: DELETE_ATOM });
    window.poll_events();
    assert!(!window.is_open());
    assert_eq!(recorded(&window).len(), 0);
    window.poll_events();
    assert!(!window.is_open());
    window.queue_native_event(XcbEvent::MotionNotify { event_x: 1, event_y: 2 });
    window.poll_events();
    assert!(!window.is_open());
}

#[test]
fn client_message_with_other_atom_is_ignored() {
    let mut window = fresh_window();
    window.set_event_callback(RecordingSink::new());
    window.queue_native_event(XcbEvent::ClientMessage { data0: DELETE_ATOM + 1 });
    window.poll_events();
    assert!(window.is_open());
    assert_eq!(recorded(&window).len(), 0);
}

#[test]
fn poll_with_nothing_pending_changes_nothing() {
    let mut window = fresh_window();
    window.set_event_callback(RecordingSink::new());
    window.show();
    window.poll_events();
    assert!(window.is_open());
    assert!(window.visible);
    assert_eq!(recorded(&window).len(), 0);
    // The registration survives: a later event still reaches the sink.
    window.queue_native_event(XcbEvent::ButtonPress { detail: 1 });
    window.poll_events();
    assert_eq!(
        recorded(&window),
        &[Event::MouseButton { button: MouseButton::Left, is_press: true }]
    );
}

#[test]
fn scroll_down_code_reaches_the_sink_once() {
    let mut window = fresh_window();
    window.set_event_callback(RecordingSink::new());
    window.show();
    window.queue_native_event(XcbEvent::ButtonPress { detail: 5 });
    window.poll_events();
    assert_eq!(recorded(&window), &[Event::MouseScroll { x: 0, y: -1 }]);
    assert!(window.is_open());
}

#[test]
fn scroll_up_code_reaches_the_sink_once() {
    let mut window = fresh_window();
    window.set_event_callback(RecordingSink::new());
    window.queue_native_event(XcbEvent::ButtonPress { detail: 4 });
    window.poll_events();
    assert_eq!(recorded(&window), &[Event::MouseScroll { x: 0, y: 1 }]);
}

#[test]
fn motion_reaches_the_sink_once() {
    let mut window = fresh_window();
    window.set_event_callback(RecordingSink::new());
    window.show();
    window.queue_native_event(XcbEvent::MotionNotify { event_x: 120, event_y: 80 });
    window.poll_events();
    assert_eq!(recorded(&window), &[Event::MouseMove { x: 120, y: 80 }]);
}

#[test]
fn key_records_resolve_through_the_keysym_table() {
    let mut window = fresh_window();
    window.set_event_callback(RecordingSink::new());
    window.queue_native_event(XcbEvent::KeyPress { keysym: 0x77 });
    window.queue_native_event(XcbEvent::KeyRelease { keysym: 0x77 });
    window.queue_native_event(XcbEvent::KeyPress { keysym: 0xffffff });
    window.poll_events();
    assert_eq!(
        recorded(&window),
        &[
            Event::Key { keycode: Key::W, is_press: true },
            Event::Key { keycode: Key::W, is_press: false },
        ]
    );
}

#[test]
fn a_burst_is_drained_in_order() {
    let mut window = fresh_window();
    window.set_event_callback(RecordingSink::new());
    window.queue_native_event(XcbEvent::MotionNotify { event_x: 1, event_y: 1 });
    window.queue_native_event(XcbEvent::ButtonPress { detail: 3 });
    window.queue_native_event(XcbEvent::Other);
    window.queue_native_event(XcbEvent::ButtonRelease { detail: 3 });
    window.poll_events();
    assert_eq!(
        recorded(&window),
        &[
            Event::MouseMove { x: 1, y: 1 },
            Event::MouseButton { button: MouseButton::Right, is_press: true },
            Event::MouseButton { button: MouseButton::Right, is_press: false },
        ]
    );
    assert!(window.pending.is_empty());
}

#[test]
fn draining_stops_at_the_close_request() {
    let mut window = fresh_window();
    window.set_event_callback(RecordingSink::new());
    window.queue_native_event(XcbEvent::MotionNotify { event_x: 9, event_y: 9 });
    window.queue_native_event(XcbEvent::ClientMessage { data0: DELETE_ATOM });
    window.queue_native_event(XcbEvent::ButtonPress { detail: 4 });
    window.poll_events();
    assert!(!window.is_open());
    assert_eq!(recorded(&window), &[Event::MouseMove { x: 9, y: 9 }]);
    assert_eq!(window.pending.len(), 1);
}

#[test]
fn motion_at_the_coordinate_extremes_is_exact() {
    let mut window = fresh_window();
    window.set_event_callback(RecordingSink::new());
    window.queue_native_event(XcbEvent::MotionNotify { event_x: i16::MIN, event_y: i16::MAX });
    window.queue_native_event(XcbEvent::MotionNotify { event_x: 0, event_y: 0 });
    window.poll_events();
    assert_eq!(
        recorded(&window),
        &[
            Event::MouseMove { x: -32768, y: 32767 },
            Event::MouseMove { x: 0, y: 0 },
        ]
    );
}

#[test]
fn extreme_dimensions_are_kept_as_requested() {
    let window: Window<RecordingSink> = Window::new(u32::MAX, 0, "", true);
    assert_eq!(window.width, u32::MAX);
    assert_eq!(window.height, 0);
    assert_eq!(window.title, "");
    assert!(window.fullscreen);
    assert!(window.is_open());
}

#[test]
fn without_a_sink_events_are_dropped() {
    let mut window = fresh_window();
    window.queue_native_event(XcbEvent::ButtonPress { detail: 1 });
    window.poll_events();
    assert!(window.is_open());
    assert!(window.event_callback.is_none());
    assert!(window.pending.is_empty());
}

#[test]
fn replacing_the_sink_discards_the_old_registration() {
    let mut window = fresh_window();
    window.set_event_callback(RecordingSink::new());
    window.queue_native_event(XcbEvent::ButtonPress { detail: 2 });
    window.poll_events();
    assert_eq!(recorded(&window).len(), 1);
    window.set_event_callback(RecordingSink::new());
    assert_eq!(recorded(&window).len(), 0);
}

#[test]
fn construction_errors_are_distinct_values() {
    assert_ne!(WindowError::ConnectionFailed, WindowError::AtomLookupFailed);
    assert_ne!(WindowError::ConnectionFailed, WindowError::ClassRegistrationFailed);
    assert_ne!(WindowError::AtomLookupFailed, WindowError::ClassRegistrationFailed);
    let error = WindowError::AtomLookupFailed;
    assert_eq!(error, error.clone());
}

// A host loop written once against the trait, backend-agnostic.
fn drive<W: CrossPlatformWindow<RecordingSink>>(window: &mut W) {
    window.set_event_callback(RecordingSink::new());
    window.show();
    while window.is_open() {
        window.poll_events();
    }
}

#[test]
fn the_generic_contract_drives_the_backend() {
    let mut window = fresh_window();
    window.queue_native_event(XcbEvent::ClientMessage { data0: DELETE_ATOM });
    drive(&mut window);
    assert!(!window.is_open());
}
