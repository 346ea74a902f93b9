//! Lifecycle and translation scenarios on the Win32 backend state machine.

use nengine::platform::windows::Win32Msg;
use nengine::platform::windows::Window;
use nengine::platform::windows::MessageAction;
use nengine::platform::windows::window_proc;
use nengine::platform::windows::translate_win32_message;
use nengine::platform::windows::WM_CLOSE;
use nengine::platform::windows::WM_QUIT;
use nengine::platform::windows::WM_KEYDOWN;
use nengine::platform::windows::WM_KEYUP;
use nengine::platform::windows::WM_MOUSEMOVE;
use nengine::platform::windows::WM_LBUTTONDOWN;
use nengine::platform::windows::WM_LBUTTONUP;
use nengine::platform::windows::WM_RBUTTONDOWN;
use nengine::platform::windows::WM_MBUTTONUP;
use nengine::platform::windows::WM_MOUSEWHEEL;
use nengine::platform::windows::WM_XBUTTONDOWN;
use nengine::platform::windows::WM_XBUTTONUP;
use nengine::platform::CrossPlatformWindow;
use nengine::platform::RecordingSink;
use nengine::Event;
use nengine::Key;
use nengine::MouseButton;

fn msg(message: u32, w_param: u64, l_param: u64) -> Win32Msg {
    Win32Msg { message, w_param, l_param }
}

fn fresh_window() -> Window<RecordingSink> {
    let mut window: Window<RecordingSink> = Window::new(1024, 768, "Test", false);
    window.set_event_callback(RecordingSink::new());
    window
}

fn recorded(window: &Window<RecordingSink>) -> &[Event] {
    match &window.event_callback {
        Some(sink) => &sink.events,
        None => panic!("no sink registered"),
    }
}

#[test]
fn the_message_procedure_intercepts_only_the_close_request() {
    assert_eq!(window_proc(WM_CLOSE), MessageAction::PostQuit);
    assert_eq!(window_proc(WM_MOUSEMOVE), MessageAction::RunDefault);
    assert_eq!(window_proc(WM_KEYDOWN), MessageAction::RunDefault);
    assert_eq!(window_proc(0x000F), MessageAction::RunDefault);
}

#[test]
fn a_quit_message_flips_is_open_and_stops_the_drain() {
    let mut window = fresh_window();
    window.show();
    window.queue_native_event(msg(WM_QUIT, 0, 0));
    window.queue_native_event(msg(WM_LBUTTONDOWN, 0, 0));
    window.poll_events();
    assert!(!window.is_open());
    assert_eq!(recorded(&window).len(), 0);
    assert_eq!(window.pending.len(), 1);
    window.poll_events();
    assert!(!window.is_open());
}

#[test]
fn a_close_request_posts_a_quit_and_closes_in_the_same_poll() {
    let mut window = fresh_window();
    window.queue_native_event(msg(WM_CLOSE, 0, 0));
    window.poll_events();
    assert!(!window.is_open());
    assert_eq!(recorded(&window).len(), 0);
    assert!(window.pending.is_empty());
}

#[test]
fn messages_between_close_and_quit_are_still_drained() {
    let mut window = fresh_window();
    window.queue_native_event(msg(WM_CLOSE, 0, 0));
    window.queue_native_event(msg(WM_LBUTTONDOWN, 0, 0));
    window.poll_events();
    assert!(!window.is_open());
    assert_eq!(
        recorded(&window),
        &[Event::MouseButton { button: MouseButton::Left, is_press: true }]
    );
}

#[test]
fn cursor_coordinates_are_unpacked_from_the_parameter_word() {
    let mut window = fresh_window();
    window.queue_native_event(msg(WM_MOUSEMOVE, 0, (80u64 << 16) | 120u64));
    window.poll_events();
    assert_eq!(recorded(&window), &[Event::MouseMove { x: 120, y: 80 }]);
}

#[test]
fn negative_cursor_coordinates_keep_their_sign() {
    let mut window = fresh_window();
    let x = (-5i16 as u16) as u64;
    let y = (-7i16 as u16) as u64;
    window.queue_native_event(msg(WM_MOUSEMOVE, 0, (y << 16) | x));
    window.poll_events();
    assert_eq!(recorded(&window), &[Event::MouseMove { x: -5, y: -7 }]);
}

#[test]
fn wheel_deltas_become_single_scroll_clicks() {
    let mut window = fresh_window();
    window.queue_native_event(msg(WM_MOUSEWHEEL, (120u64) << 16, 0));
    window.queue_native_event(msg(WM_MOUSEWHEEL, ((-120i16 as u16) as u64) << 16, 0));
    window.queue_native_event(msg(WM_MOUSEWHEEL, 0, 0));
    window.poll_events();
    assert_eq!(
        recorded(&window),
        &[Event::MouseScroll { x: 0, y: 1 }, Event::MouseScroll { x: 0, y: -1 }]
    );
}

#[test]
fn the_three_conventional_buttons_translate() {
    let mut window = fresh_window();
    window.queue_native_event(msg(WM_LBUTTONDOWN, 0, 0));
    window.queue_native_event(msg(WM_LBUTTONUP, 0, 0));
    window.queue_native_event(msg(WM_RBUTTONDOWN, 0, 0));
    window.queue_native_event(msg(WM_MBUTTONUP, 0, 0));
    window.poll_events();
    assert_eq!(
        recorded(&window),
        &[
            Event::MouseButton { button: MouseButton::Left, is_press: true },
            Event::MouseButton { button: MouseButton::Left, is_press: false },
            Event::MouseButton { button: MouseButton::Right, is_press: true },
            Event::MouseButton { button: MouseButton::Middle, is_press: false },
        ]
    );
}

#[test]
fn extended_buttons_take_the_numbered_range() {
    let mut window = fresh_window();
    window.queue_native_event(msg(WM_XBUTTONDOWN, 1u64 << 16, 0));
    window.queue_native_event(msg(WM_XBUTTONUP, 2u64 << 16, 0));
    window.poll_events();
    assert_eq!(
        recorded(&window),
        &[
            Event::MouseButton { button: MouseButton::Eight, is_press: true },
            Event::MouseButton { button: MouseButton::Nine, is_press: false },
        ]
    );
}

#[test]
fn key_messages_resolve_through_the_virtual_key_table() {
    let mut window = fresh_window();
    window.queue_native_event(msg(WM_KEYDOWN, 0x57, 0));
    window.queue_native_event(msg(WM_KEYUP, 0x57, 0));
    window.queue_native_event(msg(WM_KEYDOWN, 0x07, 0));
    window.poll_events();
    assert_eq!(
        recorded(&window),
        &[
            Event::Key { keycode: Key::W, is_press: true },
            Event::Key { keycode: Key::W, is_press: false },
        ]
    );
}

#[test]
fn unrelated_messages_produce_nothing() {
    assert_eq!(translate_win32_message(msg(0x000F, 0, 0)), None);
    assert_eq!(translate_win32_message(msg(WM_CLOSE, 0, 0)), None);
    assert_eq!(translate_win32_message(msg(WM_QUIT, 0, 0)), None);
}

#[test]
fn win32_poll_with_nothing_pending_changes_nothing() {
    let mut window = fresh_window();
    window.show();
    window.poll_events();
    assert!(window.is_open());
    assert!(window.visible);
    assert_eq!(recorded(&window).len(), 0);
}

#[test]
fn the_host_loop_ends_when_the_user_closes_the_window() {
    let mut window: Window<RecordingSink> = Window::new(640, 480, "Test", true);
    assert!(window.fullscreen);
    window.set_event_callback(RecordingSink::new());
    window.show();
    window.queue_native_event(msg(WM_MOUSEMOVE, 0, 0));
    window.queue_native_event(msg(WM_CLOSE, 0, 0));
    while window.is_open() {
        window.poll_events();
    }
    assert_eq!(recorded(&window), &[Event::MouseMove { x: 0, y: 0 }]);
}
