//! The XCB backend state machine.
//!
//! A window on this backend negotiates the standards-based close protocol:
//! the driver interns the delete-window atom and registers it on the real
//! window, and a client message whose first data word carries that atom is
//! the window manager's cooperative close request. Everything the
//! translation reads from a native record is decoded into [`XcbEvent`]
//! by the driver; the state machine here makes every decision.

use vstd::prelude::*;

use crate::events::Event;
use crate::events::Key;
use crate::events::MouseButton;
use crate::platform::CrossPlatformWindow;
use crate::platform::DrainOutcome;
use crate::platform::EventSink;

verus! {

/// A native record from the display server, decoded to the plain values
/// the translation reads. Key records carry the keysym that the keyboard
/// mapping resolved from the raw keycode, so that the symbolic lookup
/// here is layout-correct.
#[derive(Clone, Copy, Debug, PartialEq, Eq, Structural)]
pub enum XcbEvent {
    /// A client message; `data0` is the first 32-bit word of its data.
    ClientMessage { data0: u32 },
    /// A button press; `detail` is the native button code.
    ButtonPress { detail: u8 },
    /// A button release; `detail` is the native button code.
    ButtonRelease { detail: u8 },
    /// Pointer motion, in window-relative coordinates.
    MotionNotify { event_x: i16, event_y: i16 },
    /// A key press, already resolved to a keysym.
    KeyPress { keysym: u32 },
    /// A key release, already resolved to a keysym.
    KeyRelease { keysym: u32 },
    /// Any other native record; it never produces an event.
    Other,
}

/// The fixed native-button-code table. Codes 4 and 5 never reach this
/// table from the translation (they carry scroll motion); every code
/// outside the table degrades to `Left` rather than failing.
pub open spec fn button_for_code(code: u8) -> MouseButton {
    match code {
        1u8 => MouseButton::Left,
        2u8 => MouseButton::Middle,
        3u8 => MouseButton::Right,
        6u8 => MouseButton::Six,
        7u8 => MouseButton::Seven,
        8u8 => MouseButton::Eight,
        9u8 => MouseButton::Nine,
        10u8 => MouseButton::Ten,
        _ => MouseButton::Left,
    }
}

/// Maps a native button code to its [`MouseButton`], as
/// [`button_for_code`] states. Codes 4 and 5 are absent from the table
/// because the server uses them for scroll events; like every other
/// unlisted code they fall back to `Left`.
pub fn translate_xcb_buttons(xcb_button_code: u8) -> (button: MouseButton)
    ensures
        button == button_for_code(xcb_button_code),
{
    match xcb_button_code {
        1u8 => MouseButton::Left,
        2u8 => MouseButton::Middle,
        3u8 => MouseButton::Right,
        6u8 => MouseButton::Six,
        7u8 => MouseButton::Seven,
        8u8 => MouseButton::Eight,
        9u8 => MouseButton::Nine,
        10u8 => MouseButton::Ten,
        _ => MouseButton::Left,
    }
}

/// The symbolic key for a keysym, for the keys this vocabulary covers.
pub open spec fn key_for_keysym(keysym: u32) -> Option<Key> {
    match keysym {
        0xff1bu32 => Some(Key::Escape),
        0xffbeu32 => Some(Key::F1),
        0xffbfu32 => Some(Key::F2),
        0xffc0u32 => Some(Key::F3),
        0xffc1u32 => Some(Key::F4),
        0xffc2u32 => Some(Key::F5),
        0xffc3u32 => Some(Key::F6),
        0xffc4u32 => Some(Key::F7),
        0xffc5u32 => Some(Key::F8),
        0xffc6u32 => Some(Key::F9),
        0xffc7u32 => Some(Key::F10),
        0xffc8u32 => Some(Key::F11),
        0xffc9u32 => Some(Key::F12),
        0x60u32 => Some(Key::GraveAccent),
        0x31u32 => Some(Key::One),
        0x32u32 => Some(Key::Two),
        0x33u32 => Some(Key::Three),
        0x34u32 => Some(Key::Four),
        0x35u32 => Some(Key::Five),
        0x36u32 => Some(Key::Six),
        0x37u32 => Some(Key::Seven),
        0x38u32 => Some(Key::Eight),
        0x39u32 => Some(Key::Nine),
        0x30u32 => Some(Key::Zero),
        0x2du32 => Some(Key::Hyphen),
        0x3du32 => Some(Key::EqualSign),
        0xff08u32 => Some(Key::Backspace),
        0xff09u32 => Some(Key::Tab),
        0x71u32 => Some(Key::Q),
        0x77u32 => Some(Key::W),
        0x65u32 => Some(Key::E),
        0x72u32 => Some(Key::R),
        0x74u32 => Some(Key::T),
        0x79u32 => Some(Key::Y),
        0x75u32 => Some(Key::U),
        0x69u32 => Some(Key::I),
        0x6fu32 => Some(Key::O),
        0x70u32 => Some(Key::P),
        0x5bu32 => Some(Key::LeftSquareBracket),
        0x5du32 => Some(Key::RightSquareBracket),
        0x5cu32 => Some(Key::BackSlash),
        0xffe5u32 => Some(Key::CapsLock),
        0x61u32 => Some(Key::A),
        0x73u32 => Some(Key::S),
        0x64u32 => Some(Key::D),
        0x66u32 => Some(Key::F),
        0x67u32 => Some(Key::G),
        0x68u32 => Some(Key::H),
        0x6au32 => Some(Key::J),
        0x6bu32 => Some(Key::K),
        0x6cu32 => Some(Key::L),
        0x3bu32 => Some(Key::Semicolon),
        0x27u32 => Some(Key::Quote),
        0xff0du32 => Some(Key::Enter),
        0xffe1u32 => Some(Key::LeftShift),
        0x7au32 => Some(Key::Z),
        0x78u32 => Some(Key::X),
        0x63u32 => Some(Key::C),
        0x76u32 => Some(Key::V),
        0x62u32 => Some(Key::B),
        0x6eu32 => Some(Key::N),
        0x6du32 => Some(Key::M),
        0x2cu32 => Some(Key::Comma),
        0x2eu32 => Some(Key::Period),
        0x2fu32 => Some(Key::ForwardSlash),
        0xffe2u32 => Some(Key::RightShift),
        0xffe3u32 => Some(Key::LeftControl),
        0xffebu32 => Some(Key::LeftSuper),
        0xffe9u32 => Some(Key::LeftAlt),
        0x20u32 => Some(Key::Spacebar),
        0xffeau32 => Some(Key::RightAlt),
        0xffecu32 => Some(Key::RightSuper),
        0xff67u32 => Some(Key::Menu),
        0xffe4u32 => Some(Key::RightControl),
        _ => None,
    }
}

/// Resolves a keysym to its symbolic [`Key`], as [`key_for_keysym`]
/// states; keysyms outside the covered vocabulary resolve to nothing and
/// their records are skipped.
pub fn keysym_to_key(keysym: u32) -> (key: Option<Key>)
    ensures
        key == key_for_keysym(keysym),
{
    match keysym {
        0xff1bu32 => Some(Key::Escape),
        0xffbeu32 => Some(Key::F1),
        0xffbfu32 => Some(Key::F2),
        0xffc0u32 => Some(Key::F3),
        0xffc1u32 => Some(Key::F4),
        0xffc2u32 => Some(Key::F5),
        0xffc3u32 => Some(Key::F6),
        0xffc4u32 => Some(Key::F7),
        0xffc5u32 => Some(Key::F8),
        0xffc6u32 => Some(Key::F9),
        0xffc7u32 => Some(Key::F10),
        0xffc8u32 => Some(Key::F11),
        0xffc9u32 => Some(Key::F12),
        0x60u32 => Some(Key::GraveAccent),
        0x31u32 => Some(Key::One),
        0x32u32 => Some(Key::Two),
        0x33u32 => Some(Key::Three),
        0x34u32 => Some(Key::Four),
        0x35u32 => Some(Key::Five),
        0x36u32 => Some(Key::Six),
        0x37u32 => Some(Key::Seven),
        0x38u32 => Some(Key::Eight),
        0x39u32 => Some(Key::Nine),
        0x30u32 => Some(Key::Zero),
        0x2du32 => Some(Key::Hyphen),
        0x3du32 => Some(Key::EqualSign),
        0xff08u32 => Some(Key::Backspace),
        0xff09u32 => Some(Key::Tab),
        0x71u32 => Some(Key::Q),
        0x77u32 => Some(Key::W),
        0x65u32 => Some(Key::E),
        0x72u32 => Some(Key::R),
        0x74u32 => Some(Key::T),
        0x79u32 => Some(Key::Y),
        0x75u32 => Some(Key::U),
        0x69u32 => Some(Key::I),
        0x6fu32 => Some(Key::O),
        0x70u32 => Some(Key::P),
        0x5bu32 => Some(Key::LeftSquareBracket),
        0x5du32 => Some(Key::RightSquareBracket),
        0x5cu32 => Some(Key::BackSlash),
        0xffe5u32 => Some(Key::CapsLock),
        0x61u32 => Some(Key::A),
        0x73u32 => Some(Key::S),
        0x64u32 => Some(Key::D),
        0x66u32 => Some(Key::F),
        0x67u32 => Some(Key::G),
        0x68u32 => Some(Key::H),
        0x6au32 => Some(Key::J),
        0x6bu32 => Some(Key::K),
        0x6cu32 => Some(Key::L),
        0x3bu32 => Some(Key::Semicolon),
        0x27u32 => Some(Key::Quote),
        0xff0du32 => Some(Key::Enter),
        0xffe1u32 => Some(Key::LeftShift),
        0x7au32 => Some(Key::Z),
        0x78u32 => Some(Key::X),
        0x63u32 => Some(Key::C),
        0x76u32 => Some(Key::V),
        0x62u32 => Some(Key::B),
        0x6eu32 => Some(Key::N),
        0x6du32 => Some(Key::M),
        0x2cu32 => Some(Key::Comma),
        0x2eu32 => Some(Key::Period),
        0x2fu32 => Some(Key::ForwardSlash),
        0xffe2u32 => Some(Key::RightShift),
        0xffe3u32 => Some(Key::LeftControl),
        0xffebu32 => Some(Key::LeftSuper),
        0xffe9u32 => Some(Key::LeftAlt),
        0x20u32 => Some(Key::Spacebar),
        0xffeau32 => Some(Key::RightAlt),
        0xffecu32 => Some(Key::RightSuper),
        0xff67u32 => Some(Key::Menu),
        0xffe4u32 => Some(Key::RightControl),
        _ => None,
    }
}

/// The event, if any, that one native record translates to. Button codes
/// 4 and 5 are reinterpreted: a press becomes one scroll click up or
/// down, a release is dropped. Client messages are handled internally
/// and never produce an event.
pub open spec fn xcb_translated_event(record: XcbEvent) -> Option<Event> {
    match record {
        XcbEvent::ButtonPress { detail } => if detail == 4 {
            Some(Event::MouseScroll { x: 0i32, y: 1i32 })
        } else if detail == 5 {
            Some(Event::MouseScroll { x: 0i32, y: -1i32 })
        } else {
            Some(Event::MouseButton { button: button_for_code(detail), is_press: true })
        },
        XcbEvent::ButtonRelease { detail } => if detail == 4 || detail == 5 {
            None
        } else {
            Some(Event::MouseButton { button: button_for_code(detail), is_press: false })
        },
        XcbEvent::MotionNotify { event_x, event_y } => Some(
            Event::MouseMove { x: event_x as i32, y: event_y as i32 },
        ),
        XcbEvent::KeyPress { keysym } => match key_for_keysym(keysym) {
            Some(keycode) => Some(Event::Key { keycode, is_press: true }),
            None => None,
        },
        XcbEvent::KeyRelease { keysym } => match key_for_keysym(keysym) {
            Some(keycode) => Some(Event::Key { keycode, is_press: false }),
            None => None,
        },
        XcbEvent::ClientMessage { .. } => None,
        XcbEvent::Other => None,
    }
}

/// Whether a record is the window manager's close request: a client
/// message whose first data word is the registered delete-window atom.
pub open spec fn xcb_closes(record: XcbEvent, delete_atom: u32) -> bool {
    record matches XcbEvent::ClientMessage { data0 } && data0 == delete_atom
}

/// Translates one native record, as [`xcb_translated_event`] states.
pub fn translate_xcb_event(record: XcbEvent) -> (translated: Option<Event>)
    ensures
        translated == xcb_translated_event(record),
{
    match record {
        XcbEvent::ButtonPress { detail } => if detail == 4 {
            Some(Event::MouseScroll { x: 0i32, y: 1i32 })
        } else if detail == 5 {
            Some(Event::MouseScroll { x: 0i32, y: -1i32 })
        } else {
            Some(Event::MouseButton { button: translate_xcb_buttons(detail), is_press: true })
        },
        XcbEvent::ButtonRelease { detail } => if detail == 4 || detail == 5 {
            None
        } else {
            Some(Event::MouseButton { button: translate_xcb_buttons(detail), is_press: false })
        },
        XcbEvent::MotionNotify { event_x, event_y } => Some(
            Event::MouseMove { x: event_x as i32, y: event_y as i32 },
        ),
        XcbEvent::KeyPress { keysym } => match keysym_to_key(keysym) {
            Some(keycode) => Some(Event::Key { keycode, is_press: true }),
            None => None,
        },
        XcbEvent::KeyRelease { keysym } => match keysym_to_key(keysym) {
            Some(keycode) => Some(Event::Key { keycode, is_press: false }),
            None => None,
        },
        XcbEvent::ClientMessage { .. } => None,
        XcbEvent::Other => None,
    }
}

/// What draining the pending records amounts to: the translated events in
/// order, the records left for a later poll, and whether the close
/// request was honoured. Draining stops at the first close request,
/// which itself produces no event.
pub open spec fn xcb_drain(pending: Seq<XcbEvent>, delete_atom: u32) -> DrainOutcome<XcbEvent>
    decreases pending.len(),
{
    if pending.len() == 0 {
        DrainOutcome { events: Seq::empty(), remaining: pending, closed: false }
    } else if xcb_closes(pending[0], delete_atom) {
        DrainOutcome { events: Seq::empty(), remaining: pending.skip(1), closed: true }
    } else {
        let rest = xcb_drain(pending.skip(1), delete_atom);
        match xcb_translated_event(pending[0]) {
            Some(event) => DrainOutcome {
                events: seq![event] + rest.events,
                remaining: rest.remaining,
                closed: rest.closed,
            },
            None => rest,
        }
    }
}

/// A keysym that resolves to the given key: the witness for the coverage
/// law [`lemma_key_event_producible`].
pub open spec fn keysym_for_key(keycode: Key) -> u32 {
    match keycode {
        Key::Escape => 0xff1bu32,
        Key::F1 => 0xffbeu32,
        Key::F2 => 0xffbfu32,
        Key::F3 => 0xffc0u32,
        Key::F4 => 0xffc1u32,
        Key::F5 => 0xffc2u32,
        Key::F6 => 0xffc3u32,
        Key::F7 => 0xffc4u32,
        Key::F8 => 0xffc5u32,
        Key::F9 => 0xffc6u32,
        Key::F10 => 0xffc7u32,
        Key::F11 => 0xffc8u32,
        Key::F12 => 0xffc9u32,
        Key::GraveAccent => 0x60u32,
        Key::One => 0x31u32,
        Key::Two => 0x32u32,
        Key::Three => 0x33u32,
        Key::Four => 0x34u32,
        Key::Five => 0x35u32,
        Key::Six => 0x36u32,
        Key::Seven => 0x37u32,
        Key::Eight => 0x38u32,
        Key::Nine => 0x39u32,
        Key::Zero => 0x30u32,
        Key::Hyphen => 0x2du32,
        Key::EqualSign => 0x3du32,
        Key::Backspace => 0xff08u32,
        Key::Tab => 0xff09u32,
        Key::Q => 0x71u32,
        Key::W => 0x77u32,
        Key::E => 0x65u32,
        Key::R => 0x72u32,
        Key::T => 0x74u32,
        Key::Y => 0x79u32,
        Key::U => 0x75u32,
        Key::I => 0x69u32,
        Key::O => 0x6fu32,
        Key::P => 0x70u32,
        Key::LeftSquareBracket => 0x5bu32,
        Key::RightSquareBracket => 0x5du32,
        Key::BackSlash => 0x5cu32,
        Key::CapsLock => 0xffe5u32,
        Key::A => 0x61u32,
        Key::S => 0x73u32,
        Key::D => 0x64u32,
        Key::F => 0x66u32,
        Key::G => 0x67u32,
        Key::H => 0x68u32,
        Key::J => 0x6au32,
        Key::K => 0x6bu32,
        Key::L => 0x6cu32,
        Key::Semicolon => 0x3bu32,
        Key::Quote => 0x27u32,
        Key::Enter => 0xff0du32,
        Key::LeftShift => 0xffe1u32,
        Key::Z => 0x7au32,
        Key::X => 0x78u32,
        Key::C => 0x63u32,
        Key::V => 0x76u32,
        Key::B => 0x62u32,
        Key::N => 0x6eu32,
        Key::M => 0x6du32,
        Key::Comma => 0x2cu32,
        Key::Period => 0x2eu32,
        Key::ForwardSlash => 0x2fu32,
        Key::RightShift => 0xffe2u32,
        Key::LeftControl => 0xffe3u32,
        Key::LeftSuper => 0xffebu32,
        Key::LeftAlt => 0xffe9u32,
        Key::Spacebar => 0x20u32,
        Key::RightAlt => 0xffeau32,
        Key::RightSuper => 0xffecu32,
        Key::Menu => 0xff67u32,
        Key::RightControl => 0xffe4u32,
    }
}

/// A native code that maps to the given button: the witness for the
/// coverage law [`lemma_mouse_button_event_producible`]. Buttons `One`
/// through `Five` have no code of their own in the table, so nothing
/// meaningful can stand here for them.
pub open spec fn code_for_button(button: MouseButton) -> u8 {
    match button {
        MouseButton::Left => 1u8,
        MouseButton::Middle => 2u8,
        MouseButton::Right => 3u8,
        MouseButton::Six => 6u8,
        MouseButton::Seven => 7u8,
        MouseButton::Eight => 8u8,
        MouseButton::Nine => 9u8,
        MouseButton::Ten => 10u8,
        _ => 1u8,
    }
}

/// Law: the table is a left inverse of the keysym witness, so every
/// symbolic key is reachable from some keysym.
pub proof fn lemma_keysym_table_covers_keys(keycode: Key)
    ensures
        key_for_keysym(keysym_for_key(keycode)) == Some(keycode),
{
}

/// Law: every native button-press code translates as the fixed table
/// says. A press of code 4 or 5 yields exactly one scroll click, up or
/// down, and never a button event; a release of code 4 or 5 yields
/// nothing; every other code yields a button event carrying the tabled
/// button.
pub proof fn lemma_button_code_translation(detail: u8)
    ensures
        detail != 4 && detail != 5 ==> xcb_translated_event(XcbEvent::ButtonPress { detail })
            == Some(Event::MouseButton { button: button_for_code(detail), is_press: true }),
        detail != 4 && detail != 5 ==> xcb_translated_event(XcbEvent::ButtonRelease { detail })
            == Some(Event::MouseButton { button: button_for_code(detail), is_press: false }),
        detail == 4 ==> xcb_translated_event(XcbEvent::ButtonPress { detail }) == Some(
            Event::MouseScroll { x: 0i32, y: 1i32 },
        ),
        detail == 5 ==> xcb_translated_event(XcbEvent::ButtonPress { detail }) == Some(
            Event::MouseScroll { x: 0i32, y: -1i32 },
        ),
        detail == 4 || detail == 5 ==> !(xcb_translated_event(XcbEvent::ButtonPress { detail })
            matches Some(event) && event is MouseButton),
        detail == 4 || detail == 5 ==> xcb_translated_event(XcbEvent::ButtonRelease { detail })
            is None,
{
}

/// Law: every native button code outside the fixed table degrades to the
/// left button; an unknown code is never a decode failure.
pub proof fn lemma_unknown_button_defaults(detail: u8)
    requires
        detail != 1,
        detail != 2,
        detail != 3,
        !(6 <= detail <= 10),
    ensures
        button_for_code(detail) == MouseButton::Left,
{
}

/// Law: the close request is handled internally and never forwarded: a
/// record that closes the window translates to no event.
pub proof fn lemma_close_request_produces_no_event(record: XcbEvent, delete_atom: u32)
    requires
        xcb_closes(record, delete_atom),
    ensures
        xcb_translated_event(record) is None,
{
}

/// Law: every symbolic key event, press or release, is producible by a
/// native key record carrying the witness keysym.
pub proof fn lemma_key_event_producible(keycode: Key, is_press: bool)
    ensures
        exists|record: XcbEvent|
            xcb_translated_event(record) == Some(Event::Key { keycode, is_press }),
{
    let keysym = keysym_for_key(keycode);
    lemma_keysym_table_covers_keys(keycode);
    if is_press {
        assert(xcb_translated_event(XcbEvent::KeyPress { keysym }) == Some(
            Event::Key { keycode, is_press },
        ));
    } else {
        assert(xcb_translated_event(XcbEvent::KeyRelease { keysym }) == Some(
            Event::Key { keycode, is_press },
        ));
    }
}

/// Law: every button of the fixed table is producible, as press and as
/// release, by a native button record carrying the witness code. The
/// numbered buttons `One` through `Five` are left out: no native code
/// maps to them, because codes 4 and 5 carry scroll motion and the table
/// starts the numbered range at 6.
pub proof fn lemma_mouse_button_event_producible(button: MouseButton, is_press: bool)
    requires
        !(button is One),
        !(button is Two),
        !(button is Three),
        !(button is Four),
        !(button is Five),
    ensures
        exists|record: XcbEvent|
            xcb_translated_event(record) == Some(Event::MouseButton { button, is_press }),
{
    let detail = code_for_button(button);
    if is_press {
        assert(xcb_translated_event(XcbEvent::ButtonPress { detail }) == Some(
            Event::MouseButton { button, is_press },
        ));
    } else {
        assert(xcb_translated_event(XcbEvent::ButtonRelease { detail }) == Some(
            Event::MouseButton { button, is_press },
        ));
    }
}

/// Law: both scroll directions are producible, by the two native scroll
/// codes.
pub proof fn lemma_scroll_event_producible(y: i32)
    requires
        y == 1 || y == -1,
    ensures
        exists|record: XcbEvent|
            xcb_translated_event(record) == Some(Event::MouseScroll { x: 0i32, y }),
{
    if y == 1 {
        assert(xcb_translated_event(XcbEvent::ButtonPress { detail: 4u8 }) == Some(
            Event::MouseScroll { x: 0i32, y },
        ));
    } else {
        assert(xcb_translated_event(XcbEvent::ButtonPress { detail: 5u8 }) == Some(
            Event::MouseScroll { x: 0i32, y },
        ));
    }
}

/// Law: every window-relative pointer position the native record can
/// carry is producible as a motion event.
pub proof fn lemma_mouse_move_event_producible(x: i16, y: i16)
    ensures
        exists|record: XcbEvent|
            xcb_translated_event(record) == Some(
                Event::MouseMove { x: x as i32, y: y as i32 },
            ),
{
    assert(xcb_translated_event(XcbEvent::MotionNotify { event_x: x, event_y: y }) == Some(
        Event::MouseMove { x: x as i32, y: y as i32 },
    ));
}

/// The XCB window state machine. The real connection and window handles
/// are owned by the driver; this value holds everything the lifecycle
/// and translation decisions depend on, and a ghost log of every event
/// handed to the registered sink.
pub struct Window<S: EventSink> {
    /// Requested width in pixels; advisory when fullscreen.
    pub width: u32,
    /// Requested height in pixels; advisory when fullscreen.
    pub height: u32,
    /// The window's name property.
    pub title: String,
    /// Whether the fullscreen state was requested at creation.
    pub fullscreen: bool,
    /// The lifecycle flag: starts true, flips to false exactly once.
    pub is_open: bool,
    /// Whether the window has been mapped.
    pub visible: bool,
    /// The registered event sink, if any.
    pub event_callback: Option<S>,
    /// The interned delete-window atom; zero until the close protocol is
    /// registered.
    pub wm_delete_window_atom: u32,
    /// Native records waiting to be drained, oldest first.
    pub pending: Vec<XcbEvent>,
    /// Every event handed to a registered sink so far, in order.
    pub delivered: Ghost<Seq<Event>>,
}

impl<S: EventSink> Window<S> {
    /// A fresh window: open, hidden, with no sink, no registered close
    /// protocol and nothing pending. The driver creates the real window
    /// with the same dimensions and name, then registers the interned
    /// delete-window atom through
    /// [`Window::register_close_protocol`].
    pub fn new(width: u32, height: u32, title: &str, fullscreen: bool) -> (window: Window<S>)
        ensures
            window.width == width,
            window.height == height,
            window.title@ == title@,
            window.fullscreen == fullscreen,
            window.is_open,
            !window.visible,
            window.event_callback is None,
            window.wm_delete_window_atom == 0,
            window.pending@ == Seq::<XcbEvent>::empty(),
            window.delivered@ == Seq::<Event>::empty(),
    {
        Window {
            width,
            height,
            title: title.to_owned(),
            fullscreen,
            is_open: true,
            visible: false,
            event_callback: None,
            wm_delete_window_atom: 0,
            pending: Vec::new(),
            delivered: Ghost(Seq::empty()),
        }
    }

    /// Records the interned delete-window atom, completing the close
    /// protocol negotiation: from now on a client message carrying this
    /// atom is recognised as the close request.
    pub fn register_close_protocol(&mut self, delete_atom: u32)
        ensures
            final(self).wm_delete_window_atom == delete_atom,
            final(self).width == old(self).width,
            final(self).height == old(self).height,
            final(self).title@ == old(self).title@,
            final(self).fullscreen == old(self).fullscreen,
            final(self).is_open == old(self).is_open,
            final(self).visible == old(self).visible,
            final(self).event_callback == old(self).event_callback,
            final(self).pending@ == old(self).pending@,
            final(self).delivered@ == old(self).delivered@,
    {
        self.wm_delete_window_atom = delete_atom;
    }

    /// Appends one decoded native record to the pending queue. The
    /// driver calls this with what the non-blocking poll returned; a
    /// test synthesizes records the same way.
    pub fn queue_native_event(&mut self, record: XcbEvent)
        ensures
            final(self).pending@ == old(self).pending@.push(record),
            final(self).width == old(self).width,
            final(self).height == old(self).height,
            final(self).title@ == old(self).title@,
            final(self).fullscreen == old(self).fullscreen,
            final(self).is_open == old(self).is_open,
            final(self).visible == old(self).visible,
            final(self).event_callback == old(self).event_callback,
            final(self).wm_delete_window_atom == old(self).wm_delete_window_atom,
            final(self).delivered@ == old(self).delivered@,
    {
        self.pending.push(record);
    }
}

impl<S: EventSink> CrossPlatformWindow<S> for Window<S> {
    open spec fn spec_is_open(&self) -> bool {
        self.is_open
    }

    open spec fn spec_visible(&self) -> bool {
        self.visible
    }

    open spec fn spec_pending(&self) -> nat {
        self.pending@.len()
    }

    open spec fn spec_has_callback(&self) -> bool {
        self.event_callback is Some
    }

    open spec fn spec_delivered(&self) -> Seq<Event> {
        self.delivered@
    }

    fn new(width: u32, height: u32, title: &str, fullscreen: bool) -> (window: Window<S>) {
        Window::new(width, height, title, fullscreen)
    }

    fn set_event_callback(&mut self, callback: S)
        ensures
            final(self).event_callback is Some,
            final(self).width == old(self).width,
            final(self).height == old(self).height,
            final(self).title@ == old(self).title@,
            final(self).fullscreen == old(self).fullscreen,
            final(self).wm_delete_window_atom == old(self).wm_delete_window_atom,
            final(self).pending@ == old(self).pending@,
    {
        self.event_callback = Some(callback);
    }

    fn show(&mut self)
        ensures
            final(self).visible,
            final(self).width == old(self).width,
            final(self).height == old(self).height,
            final(self).title@ == old(self).title@,
            final(self).fullscreen == old(self).fullscreen,
            final(self).event_callback == old(self).event_callback,
            final(self).wm_delete_window_atom == old(self).wm_delete_window_atom,
            final(self).pending@ == old(self).pending@,
    {
        self.visible = true;
    }

    fn is_open(&self) -> (open: bool) {
        self.is_open
    }

    fn poll_events(&mut self)
        ensures
            (
                {
                    let outcome = xcb_drain(
                        old(self).pending@,
                        old(self).wm_delete_window_atom,
                    );
                    &&& final(self).pending@ == outcome.remaining
                    &&& final(self).is_open == (old(self).is_open && !outcome.closed)
                    &&& final(self).delivered@ == old(self).delivered@ + (
                        if old(self).event_callback is Some {
                            outcome.events
                        } else {
                            Seq::<Event>::empty()
                        }
                    )
                }
            ),
            final(self).width == old(self).width,
            final(self).height == old(self).height,
            final(self).title@ == old(self).title@,
            final(self).fullscreen == old(self).fullscreen,
            final(self).visible == old(self).visible,
            final(self).wm_delete_window_atom == old(self).wm_delete_window_atom,
            (final(self).event_callback is Some) == (old(self).event_callback is Some),
    {
        let ghost start = *self;
        let ghost atom = self.wm_delete_window_atom;
        let ghost has_callback = self.event_callback is Some;
        let ghost mut emitted: Seq<Event> = Seq::empty();
        let mut closed_now: bool = false;
        while self.pending.len() > 0 && !closed_now
            invariant
                self.width == start.width,
                self.height == start.height,
                self.title@ == start.title@,
                self.fullscreen == start.fullscreen,
                self.visible == start.visible,
                self.wm_delete_window_atom == start.wm_delete_window_atom,
                atom == start.wm_delete_window_atom,
                has_callback == (start.event_callback is Some),
                (self.event_callback is Some) == has_callback,
                has_callback ==> self.delivered@ == start.delivered@ + emitted,
                !has_callback ==> self.delivered@ == start.delivered@,
                !closed_now ==> self.is_open == start.is_open,
                !closed_now ==> xcb_drain(start.pending@, atom).events == emitted + xcb_drain(
                    self.pending@,
                    atom,
                ).events,
                !closed_now ==> xcb_drain(start.pending@, atom).remaining == xcb_drain(
                    self.pending@,
                    atom,
                ).remaining,
                !closed_now ==> xcb_drain(start.pending@, atom).closed == xcb_drain(
                    self.pending@,
                    atom,
                ).closed,
                closed_now ==> xcb_drain(start.pending@, atom).events == emitted,
                closed_now ==> xcb_drain(start.pending@, atom).remaining == self.pending@,
                closed_now ==> xcb_drain(start.pending@, atom).closed,
                closed_now ==> !self.is_open,
            decreases self.pending@.len(),
        {
            let ghost before = self.pending@;
            let record = self.pending.remove(0);
            proof {
                assert(self.pending@ =~= before.skip(1));
            }
            let is_close = match record {
                XcbEvent::ClientMessage { data0 } => data0 == self.wm_delete_window_atom,
                _ => false,
            };
            if is_close {
                self.is_open = false;
                closed_now = true;
                proof {
                    assert(emitted + Seq::<Event>::empty() =~= emitted);
                }
            } else {
                match translate_xcb_event(record) {
                    Some(event) => {
                        match &mut self.event_callback {
                            Some(callback) => {
                                callback.handle(event);
                            },
                            None => {},
                        }
                        if self.event_callback.is_some() {
                            self.delivered = Ghost(self.delivered@.push(event));
                        }
                        proof {
                            assert(emitted + (seq![event] + xcb_drain(self.pending@, atom).events)
                                =~= emitted.push(event) + xcb_drain(self.pending@, atom).events);
                            assert(start.delivered@ + emitted.push(event) =~= (start.delivered@
                                + emitted).push(event));
                            emitted = emitted.push(event);
                        }
                    },
                    None => {},
                }
            }
        }
        proof {
            if !closed_now {
                assert(self.pending@.len() == 0);
                assert(xcb_drain(self.pending@, atom).events == Seq::<Event>::empty());
                assert(xcb_drain(self.pending@, atom).remaining == self.pending@);
                assert(emitted + Seq::<Event>::empty() =~= emitted);
            }
            assert(start.delivered@ + Seq::<Event>::empty() =~= start.delivered@);
        }
    }
}

} // verus!
