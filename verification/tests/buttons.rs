//! The fixed button-code table and its degrade-safely default.

use nengine::platform::linux::translate_xcb_buttons;
use nengine::platform::linux::translate_xcb_event;
use nengine::platform::linux::XcbEvent;
use nengine::Event;
use nengine::MouseButton;

#[test]
fn tabled_codes_map_to_their_buttons() {
    assert_eq!(translate_xcb_buttons(1), MouseButton::Left);
    assert_eq!(translate_xcb_buttons(2), MouseButton::Middle);
    assert_eq!(translate_xcb_buttons(3), MouseButton::Right);
    assert_eq!(translate_xcb_buttons(6), MouseButton::Six);
    assert_eq!(translate_xcb_buttons(7), MouseButton::Seven);
    assert_eq!(translate_xcb_buttons(8), MouseButton::Eight);
    assert_eq!(translate_xcb_buttons(9), MouseButton::Nine);
    assert_eq!(translate_xcb_buttons(10), MouseButton::Ten);
}

#[test]
fn unknown_codes_default_to_left() {
    assert_eq!(translate_xcb_buttons(0), MouseButton::Left);
    assert_eq!(translate_xcb_buttons(11), MouseButton::Left);
    assert_eq!(translate_xcb_buttons(42), MouseButton::Left);
    assert_eq!(translate_xcb_buttons(255), MouseButton::Left);
}

#[test]
fn tabled_press_codes_produce_button_events() {
    for &(code, button) in &[
        (1u8, MouseButton::Left),
        (2u8, MouseButton::Middle),
        (3u8, MouseButton::Right),
        (6u8, MouseButton::Six),
        (7u8, MouseButton::Seven),
        (8u8, MouseButton::Eight),
        (9u8, MouseButton::Nine),
        (10u8, MouseButton::Ten),
    ] {
        assert_eq!(
            translate_xcb_event(XcbEvent::ButtonPress { detail: code }),
            Some(Event::MouseButton { button, is_press: true })
        );
        assert_eq!(
            translate_xcb_event(XcbEvent::ButtonRelease { detail: code }),
            Some(Event::MouseButton { button, is_press: false })
        );
    }
}

#[test]
fn scroll_codes_never_produce_button_events() {
    assert_eq!(
        translate_xcb_event(XcbEvent::ButtonPress { detail: 4 }),
        Some(Event::MouseScroll { x: 0, y: 1 })
    );
    assert_eq!(
        translate_xcb_event(XcbEvent::ButtonPress { detail: 5 }),
        Some(Event::MouseScroll { x: 0, y: -1 })
    );
    assert_eq!(translate_xcb_event(XcbEvent::ButtonRelease { detail: 4 }), None);
    assert_eq!(translate_xcb_event(XcbEvent::ButtonRelease { detail: 5 }), None);
}

#[test]
fn unknown_press_code_degrades_to_left_event() {
    assert_eq!(
        translate_xcb_event(XcbEvent::ButtonPress { detail: 200 }),
        Some(Event::MouseButton { button: MouseButton::Left, is_press: true })
    );
}
