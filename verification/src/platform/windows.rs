//! The Win32 backend state machine.
//!
//! A window on this backend drains all currently queued messages per
//! poll. The close handshake differs from the XCB backend: the message
//! procedure intercepts the close request and posts a quit message back
//! into the queue, so teardown always flows through the normal drain
//! path; the quit message itself flips the lifecycle flag and stops the
//! drain for that call. Every queued message is translated into the
//! shared event vocabulary with the same press/release and
//! button-numbering semantics as the XCB backend.

use vstd::prelude::*;

use crate::events::Event;
use crate::events::Key;
use crate::events::MouseButton;
use crate::platform::CrossPlatformWindow;
use crate::platform::DrainOutcome;
use crate::platform::EventSink;

verus! {

/// The close-request message code.
pub const WM_CLOSE: u32 = 0x0010;

/// The quit message code, posted by the message procedure in answer to a
/// close request.
pub const WM_QUIT: u32 = 0x0012;

/// A key went down; the low word of `w_param` is the virtual-key code.
pub const WM_KEYDOWN: u32 = 0x0100;

/// A key went up; the low word of `w_param` is the virtual-key code.
pub const WM_KEYUP: u32 = 0x0101;

/// The cursor moved; `l_param` packs the window-relative coordinates.
pub const WM_MOUSEMOVE: u32 = 0x0200;

/// The left mouse button went down.
pub const WM_LBUTTONDOWN: u32 = 0x0201;

/// The left mouse button went up.
pub const WM_LBUTTONUP: u32 = 0x0202;

/// The right mouse button went down.
pub const WM_RBUTTONDOWN: u32 = 0x0204;

/// The right mouse button went up.
pub const WM_RBUTTONUP: u32 = 0x0205;

/// The middle mouse button went down.
pub const WM_MBUTTONDOWN: u32 = 0x0207;

/// The middle mouse button went up.
pub const WM_MBUTTONUP: u32 = 0x0208;

/// The wheel turned; the high word of `w_param` is the signed delta.
pub const WM_MOUSEWHEEL: u32 = 0x020A;

/// An extended button went down; the high word of `w_param` says which.
pub const WM_XBUTTONDOWN: u32 = 0x020B;

/// An extended button went up; the high word of `w_param` says which.
pub const WM_XBUTTONUP: u32 = 0x020C;

/// One queued native message, reduced to the plain words the translation
/// reads: the message code and the raw bits of the two parameter words.
#[derive(Clone, Copy, Debug, PartialEq, Eq, Structural)]
pub struct Win32Msg {
    /// The message code.
    pub message: u32,
    /// The raw bits of the first parameter word.
    pub w_param: u64,
    /// The raw bits of the second parameter word.
    pub l_param: u64,
}

/// The low sixteen bits of a parameter word.
pub open spec fn low_word_of(value: u64) -> u16 {
    value as u16
}

/// The next sixteen bits of a parameter word.
pub open spec fn high_word_of(value: u64) -> u16 {
    (value >> 16u64) as u16
}

/// A sixteen-bit word read as a signed window-relative coordinate.
pub open spec fn signed_word_of(word: u16) -> i32 {
    word as i16 as i32
}

/// Extracts the low word of a parameter word, as [`low_word_of`] states.
pub fn low_word(value: u64) -> (word: u16)
    ensures
        word == low_word_of(value),
{
    #[verifier::truncate] (value as u16)
}

/// Extracts the high word of a parameter word, as [`high_word_of`]
/// states.
pub fn high_word(value: u64) -> (word: u16)
    ensures
        word == high_word_of(value),
{
    #[verifier::truncate] ((value >> 16u64) as u16)
}

/// Reads a word as a signed coordinate, as [`signed_word_of`] states.
pub fn signed_word(word: u16) -> (coord: i32)
    ensures
        coord == signed_word_of(word),
{
    #[verifier::truncate] (word as i16) as i32
}

/// What the message procedure decides for one dispatched message.
#[derive(Clone, Copy, Debug, PartialEq, Eq, Structural)]
pub enum MessageAction {
    /// Post a quit message: teardown is deferred to the drain path.
    PostQuit,
    /// Hand the message to the default handler.
    RunDefault,
}

/// The message procedure's decision: a close request posts a quit
/// message, everything else runs the default handler.
pub open spec fn window_proc_action(message: u32) -> MessageAction {
    if message == WM_CLOSE {
        MessageAction::PostQuit
    } else {
        MessageAction::RunDefault
    }
}

/// Decides one dispatched message, as [`window_proc_action`] states.
pub fn window_proc(message: u32) -> (action: MessageAction)
    ensures
        action == window_proc_action(message),
{
    if message == WM_CLOSE {
        MessageAction::PostQuit
    } else {
        MessageAction::RunDefault
    }
}

/// The quit message that the message procedure posts in answer to a
/// close request.
pub open spec fn quit_message() -> Win32Msg {
    Win32Msg { message: WM_QUIT, w_param: 0u64, l_param: 0u64 }
}

/// The symbolic key for a virtual-key code, for the keys this vocabulary
/// covers.
pub open spec fn key_for_virtual_key(code: u16) -> Option<Key> {
    match code {
        0x1bu16 => Some(Key::Escape),
        0x70u16 => Some(Key::F1),
        0x71u16 => Some(Key::F2),
        0x72u16 => Some(Key::F3),
        0x73u16 => Some(Key::F4),
        0x74u16 => Some(Key::F5),
        0x75u16 => Some(Key::F6),
        0x76u16 => Some(Key::F7),
        0x77u16 => Some(Key::F8),
        0x78u16 => Some(Key::F9),
        0x79u16 => Some(Key::F10),
        0x7au16 => Some(Key::F11),
        0x7bu16 => Some(Key::F12),
        0xc0u16 => Some(Key::GraveAccent),
        0x31u16 => Some(Key::One),
        0x32u16 => Some(Key::Two),
        0x33u16 => Some(Key::Three),
        0x34u16 => Some(Key::Four),
        0x35u16 => Some(Key::Five),
        0x36u16 => Some(Key::Six),
        0x37u16 => Some(Key::Seven),
        0x38u16 => Some(Key::Eight),
        0x39u16 => Some(Key::Nine),
        0x30u16 => Some(Key::Zero),
        0xbdu16 => Some(Key::Hyphen),
        0xbbu16 => Some(Key::EqualSign),
        0x08u16 => Some(Key::Backspace),
        0x09u16 => Some(Key::Tab),
        0x51u16 => Some(Key::Q),
        0x57u16 => Some(Key::W),
        0x45u16 => Some(Key::E),
        0x52u16 => Some(Key::R),
        0x54u16 => Some(Key::T),
        0x59u16 => Some(Key::Y),
        0x55u16 => Some(Key::U),
        0x49u16 => Some(Key::I),
        0x4fu16 => Some(Key::O),
        0x50u16 => Some(Key::P),
        0xdbu16 => Some(Key::LeftSquareBracket),
        0xddu16 => Some(Key::RightSquareBracket),
        0xdcu16 => Some(Key::BackSlash),
        0x14u16 => Some(Key::CapsLock),
        0x41u16 => Some(Key::A),
        0x53u16 => Some(Key::S),
        0x44u16 => Some(Key::D),
        0x46u16 => Some(Key::F),
        0x47u16 => Some(Key::G),
        0x48u16 => Some(Key::H),
        0x4au16 => Some(Key::J),
        0x4bu16 => Some(Key::K),
        0x4cu16 => Some(Key::L),
        0xbau16 => Some(Key::Semicolon),
        0xdeu16 => Some(Key::Quote),
        0x0du16 => Some(Key::Enter),
        0xa0u16 => Some(Key::LeftShift),
        0x5au16 => Some(Key::Z),
        0x58u16 => Some(Key::X),
        0x43u16 => Some(Key::C),
        0x56u16 => Some(Key::V),
        0x42u16 => Some(Key::B),
        0x4eu16 => Some(Key::N),
        0x4du16 => Some(Key::M),
        0xbcu16 => Some(Key::Comma),
        0xbeu16 => Some(Key::Period),
        0xbfu16 => Some(Key::ForwardSlash),
        0xa1u16 => Some(Key::RightShift),
        0xa2u16 => Some(Key::LeftControl),
        0x5bu16 => Some(Key::LeftSuper),
        0xa4u16 => Some(Key::LeftAlt),
        0x20u16 => Some(Key::Spacebar),
        0xa5u16 => Some(Key::RightAlt),
        0x5cu16 => Some(Key::RightSuper),
        0x5du16 => Some(Key::Menu),
        0xa3u16 => Some(Key::RightControl),
        _ => None,
    }
}

/// Resolves a virtual-key code to its symbolic [`Key`], as
/// [`key_for_virtual_key`] states; codes outside the covered vocabulary
/// resolve to nothing and their messages are skipped.
pub fn virtual_key_to_key(code: u16) -> (key: Option<Key>)
    ensures
        key == key_for_virtual_key(code),
{
    match code {
        0x1bu16 => Some(Key::Escape),
        0x70u16 => Some(Key::F1),
        0x71u16 => Some(Key::F2),
        0x72u16 => Some(Key::F3),
        0x73u16 => Some(Key::F4),
        0x74u16 => Some(Key::F5),
        0x75u16 => Some(Key::F6),
        0x76u16 => Some(Key::F7),
        0x77u16 => Some(Key::F8),
        0x78u16 => Some(Key::F9),
        0x79u16 => Some(Key::F10),
        0x7au16 => Some(Key::F11),
        0x7bu16 => Some(Key::F12),
        0xc0u16 => Some(Key::GraveAccent),
        0x31u16 => Some(Key::One),
        0x32u16 => Some(Key::Two),
        0x33u16 => Some(Key::Three),
        0x34u16 => Some(Key::Four),
        0x35u16 => Some(Key::Five),
        0x36u16 => Some(Key::Six),
        0x37u16 => Some(Key::Seven),
        0x38u16 => Some(Key::Eight),
        0x39u16 => Some(Key::Nine),
        0x30u16 => Some(Key::Zero),
        0xbdu16 => Some(Key::Hyphen),
        0xbbu16 => Some(Key::EqualSign),
        0x08u16 => Some(Key::Backspace),
        0x09u16 => Some(Key::Tab),
        0x51u16 => Some(Key::Q),
        0x57u16 => Some(Key::W),
        0x45u16 => Some(Key::E),
        0x52u16 => Some(Key::R),
        0x54u16 => Some(Key::T),
        0x59u16 => Some(Key::Y),
        0x55u16 => Some(Key::U),
        0x49u16 => Some(Key::I),
        0x4fu16 => Some(Key::O),
        0x50u16 => Some(Key::P),
        0xdbu16 => Some(Key::LeftSquareBracket),
        0xddu16 => Some(Key::RightSquareBracket),
        0xdcu16 => Some(Key::BackSlash),
        0x14u16 => Some(Key::CapsLock),
        0x41u16 => Some(Key::A),
        0x53u16 => Some(Key::S),
        0x44u16 => Some(Key::D),
        0x46u16 => Some(Key::F),
        0x47u16 => Some(Key::G),
        0x48u16 => Some(Key::H),
        0x4au16 => Some(Key::J),
        0x4bu16 => Some(Key::K),
        0x4cu16 => Some(Key::L),
        0xbau16 => Some(Key::Semicolon),
        0xdeu16 => Some(Key::Quote),
        0x0du16 => Some(Key::Enter),
        0xa0u16 => Some(Key::LeftShift),
        0x5au16 => Some(Key::Z),
        0x58u16 => Some(Key::X),
        0x43u16 => Some(Key::C),
        0x56u16 => Some(Key::V),
        0x42u16 => Some(Key::B),
        0x4eu16 => Some(Key::N),
        0x4du16 => Some(Key::M),
        0xbcu16 => Some(Key::Comma),
        0xbeu16 => Some(Key::Period),
        0xbfu16 => Some(Key::ForwardSlash),
        0xa1u16 => Some(Key::RightShift),
        0xa2u16 => Some(Key::LeftControl),
        0x5bu16 => Some(Key::LeftSuper),
        0xa4u16 => Some(Key::LeftAlt),
        0x20u16 => Some(Key::Spacebar),
        0xa5u16 => Some(Key::RightAlt),
        0x5cu16 => Some(Key::RightSuper),
        0x5du16 => Some(Key::Menu),
        0xa3u16 => Some(Key::RightControl),
        _ => None,
    }
}

/// The extended mouse button for the high word of an extended-button
/// message: the first extended button is reported as `Eight` and the
/// second as `Nine`, matching the native codes the XCB backend assigns
/// them; any other value degrades to `Left`.
pub open spec fn extended_button_of(index: u16) -> MouseButton {
    if index == 1 {
        MouseButton::Eight
    } else if index == 2 {
        MouseButton::Nine
    } else {
        MouseButton::Left
    }
}

/// The event, if any, that one queued message translates to. A wheel
/// message becomes one scroll click whose sign follows the delta; close
/// and quit messages are handled internally and never produce an event.
pub open spec fn win32_translated_event(msg: Win32Msg) -> Option<Event> {
    if msg.message == WM_MOUSEMOVE {
        Some(
            Event::MouseMove {
                x: signed_word_of(low_word_of(msg.l_param)),
                y: signed_word_of(high_word_of(msg.l_param)),
            },
        )
    } else if msg.message == WM_LBUTTONDOWN {
        Some(Event::MouseButton { button: MouseButton::Left, is_press: true })
    } else if msg.message == WM_LBUTTONUP {
        Some(Event::MouseButton { button: MouseButton::Left, is_press: false })
    } else if msg.message == WM_RBUTTONDOWN {
        Some(Event::MouseButton { button: MouseButton::Right, is_press: true })
    } else if msg.message == WM_RBUTTONUP {
        Some(Event::MouseButton { button: MouseButton::Right, is_press: false })
    } else if msg.message == WM_MBUTTONDOWN {
        Some(Event::MouseButton { button: MouseButton::Middle, is_press: true })
    } else if msg.message == WM_MBUTTONUP {
        Some(Event::MouseButton { button: MouseButton::Middle, is_press: false })
    } else if msg.message == WM_XBUTTONDOWN {
        Some(
            Event::MouseButton {
                button: extended_button_of(high_word_of(msg.w_param)),
                is_press: true,
            },
        )
    } else if msg.message == WM_XBUTTONUP {
        Some(
            Event::MouseButton {
                button: extended_button_of(high_word_of(msg.w_param)),
                is_press: false,
            },
        )
    } else if msg.message == WM_MOUSEWHEEL {
        let delta = signed_word_of(high_word_of(msg.w_param));
        if delta > 0 {
            Some(Event::MouseScroll { x: 0i32, y: 1i32 })
        } else if delta < 0 {
            Some(Event::MouseScroll { x: 0i32, y: -1i32 })
        } else {
            None
        }
    } else if msg.message == WM_KEYDOWN {
        match key_for_virtual_key(low_word_of(msg.w_param)) {
            Some(keycode) => Some(Event::Key { keycode, is_press: true }),
            None => None,
        }
    } else if msg.message == WM_KEYUP {
        match key_for_virtual_key(low_word_of(msg.w_param)) {
            Some(keycode) => Some(Event::Key { keycode, is_press: false }),
            None => None,
        }
    } else {
        None
    }
}

/// Translates one queued message, as [`win32_translated_event`] states.
pub fn translate_win32_message(msg: Win32Msg) -> (translated: Option<Event>)
    ensures
        translated == win32_translated_event(msg),
{
    if msg.message == WM_MOUSEMOVE {
        Some(
            Event::MouseMove {
                x: signed_word(low_word(msg.l_param)),
                y: signed_word(high_word(msg.l_param)),
            },
        )
    } else if msg.message == WM_LBUTTONDOWN {
        Some(Event::MouseButton { button: MouseButton::Left, is_press: true })
    } else if msg.message == WM_LBUTTONUP {
        Some(Event::MouseButton { button: MouseButton::Left, is_press: false })
    } else if msg.message == WM_RBUTTONDOWN {
        Some(Event::MouseButton { button: MouseButton::Right, is_press: true })
    } else if msg.message == WM_RBUTTONUP {
        Some(Event::MouseButton { button: MouseButton::Right, is_press: false })
    } else if msg.message == WM_MBUTTONDOWN {
        Some(Event::MouseButton { button: MouseButton::Middle, is_press: true })
    } else if msg.message == WM_MBUTTONUP {
        Some(Event::MouseButton { button: MouseButton::Middle, is_press: false })
    } else if msg.message == WM_XBUTTONDOWN || msg.message == WM_XBUTTONUP {
        let index = high_word(msg.w_param);
        let button = if index == 1 {
            MouseButton::Eight
        } else if index == 2 {
            MouseButton::Nine
        } else {
            MouseButton::Left
        };
        Some(Event::MouseButton { button, is_press: msg.message == WM_XBUTTONDOWN })
    } else if msg.message == WM_MOUSEWHEEL {
        let delta = signed_word(high_word(msg.w_param));
        if delta > 0 {
            Some(Event::MouseScroll { x: 0i32, y: 1i32 })
        } else if delta < 0 {
            Some(Event::MouseScroll { x: 0i32, y: -1i32 })
        } else {
            None
        }
    } else if msg.message == WM_KEYDOWN || msg.message == WM_KEYUP {
        match virtual_key_to_key(low_word(msg.w_param)) {
            Some(keycode) => Some(Event::Key { keycode, is_press: msg.message == WM_KEYDOWN }),
            None => None,
        }
    } else {
        None
    }
}

/// How many close requests a queue still holds. Draining one appends a
/// quit message, so the measure that shrinks with every drained message
/// is the queue length plus this count.
pub open spec fn close_count(queue: Seq<Win32Msg>) -> nat
    decreases queue.len(),
{
    if queue.len() == 0 {
        0nat
    } else {
        (if queue[0].message == WM_CLOSE {
            1nat
        } else {
            0nat
        }) + close_count(queue.skip(1))
    }
}

/// Appending a message that is not a close request leaves the close
/// count unchanged.
pub proof fn lemma_close_count_push(queue: Seq<Win32Msg>, msg: Win32Msg)
    requires
        msg.message != WM_CLOSE,
    ensures
        close_count(queue.push(msg)) == close_count(queue),
    decreases queue.len(),
{
    if queue.len() == 0 {
        assert(queue.push(msg).len() == 1);
        assert(queue.push(msg)[0] == msg);
        assert(queue.push(msg).skip(1) =~= Seq::<Win32Msg>::empty());
        assert(close_count(Seq::<Win32Msg>::empty()) == 0);
        assert(close_count(queue.push(msg)) == 0);
    } else {
        assert(queue.push(msg)[0] == queue[0]);
        assert(queue.push(msg).skip(1) =~= queue.skip(1).push(msg));
        lemma_close_count_push(queue.skip(1), msg);
        assert(close_count(queue.push(msg)) == (if queue[0].message == WM_CLOSE {
            1nat
        } else {
            0nat
        }) + close_count(queue.skip(1).push(msg)));
        assert(close_count(queue) == (if queue[0].message == WM_CLOSE {
            1nat
        } else {
            0nat
        }) + close_count(queue.skip(1)));
    }
}

/// The measure that every drained message shrinks.
pub open spec fn drain_measure(queue: Seq<Win32Msg>) -> nat {
    queue.len() + close_count(queue)
}

/// What draining the queued messages amounts to: the translated events
/// in order, the messages left for a later poll, and whether a quit
/// message was drained. A quit message stops the drain; a close request
/// posts a quit message at the back of the queue and produces nothing
/// itself.
pub open spec fn win32_drain(queue: Seq<Win32Msg>) -> DrainOutcome<Win32Msg>
    decreases drain_measure(queue),
    via win32_drain_decreases
{
    if queue.len() == 0 {
        DrainOutcome { events: Seq::empty(), remaining: queue, closed: false }
    } else if queue[0].message == WM_QUIT {
        DrainOutcome { events: Seq::empty(), remaining: queue.skip(1), closed: true }
    } else if queue[0].message == WM_CLOSE {
        win32_drain(queue.skip(1).push(quit_message()))
    } else {
        let rest = win32_drain(queue.skip(1));
        match win32_translated_event(queue[0]) {
            Some(event) => DrainOutcome {
                events: seq![event] + rest.events,
                remaining: rest.remaining,
                closed: rest.closed,
            },
            None => rest,
        }
    }
}

#[via_fn]
proof fn win32_drain_decreases(queue: Seq<Win32Msg>) {
    if queue.len() > 0 && queue[0].message != WM_QUIT && queue[0].message == WM_CLOSE {
        lemma_close_count_push(queue.skip(1), quit_message());
    }
}

/// A virtual-key code that resolves to the given key: the witness for
/// the parity law [`lemma_win32_key_event_producible`].
pub open spec fn virtual_key_for_key(keycode: Key) -> u16 {
    match keycode {
        Key::Escape => 0x1bu16,
        Key::F1 => 0x70u16,
        Key::F2 => 0x71u16,
        Key::F3 => 0x72u16,
        Key::F4 => 0x73u16,
        Key::F5 => 0x74u16,
        Key::F6 => 0x75u16,
        Key::F7 => 0x76u16,
        Key::F8 => 0x77u16,
        Key::F9 => 0x78u16,
        Key::F10 => 0x79u16,
        Key::F11 => 0x7au16,
        Key::F12 => 0x7bu16,
        Key::GraveAccent => 0xc0u16,
        Key::One => 0x31u16,
        Key::Two => 0x32u16,
        Key::Three => 0x33u16,
        Key::Four => 0x34u16,
        Key::Five => 0x35u16,
        Key::Six => 0x36u16,
        Key::Seven => 0x37u16,
        Key::Eight => 0x38u16,
        Key::Nine => 0x39u16,
        Key::Zero => 0x30u16,
        Key::Hyphen => 0xbdu16,
        Key::EqualSign => 0xbbu16,
        Key::Backspace => 0x08u16,
        Key::Tab => 0x09u16,
        Key::Q => 0x51u16,
        Key::W => 0x57u16,
        Key::E => 0x45u16,
        Key::R => 0x52u16,
        Key::T => 0x54u16,
        Key::Y => 0x59u16,
        Key::U => 0x55u16,
        Key::I => 0x49u16,
        Key::O => 0x4fu16,
        Key::P => 0x50u16,
        Key::LeftSquareBracket => 0xdbu16,
        Key::RightSquareBracket => 0xddu16,
        Key::BackSlash => 0xdcu16,
        Key::CapsLock => 0x14u16,
        Key::A => 0x41u16,
        Key::S => 0x53u16,
        Key::D => 0x44u16,
        Key::F => 0x46u16,
        Key::G => 0x47u16,
        Key::H => 0x48u16,
        Key::J => 0x4au16,
        Key::K => 0x4bu16,
        Key::L => 0x4cu16,
        Key::Semicolon => 0xbau16,
        Key::Quote => 0xdeu16,
        Key::Enter => 0x0du16,
        Key::LeftShift => 0xa0u16,
        Key::Z => 0x5au16,
        Key::X => 0x58u16,
        Key::C => 0x43u16,
        Key::V => 0x56u16,
        Key::B => 0x42u16,
        Key::N => 0x4eu16,
        Key::M => 0x4du16,
        Key::Comma => 0xbcu16,
        Key::Period => 0xbeu16,
        Key::ForwardSlash => 0xbfu16,
        Key::RightShift => 0xa1u16,
        Key::LeftControl => 0xa2u16,
        Key::LeftSuper => 0x5bu16,
        Key::LeftAlt => 0xa4u16,
        Key::Spacebar => 0x20u16,
        Key::RightAlt => 0xa5u16,
        Key::RightSuper => 0x5cu16,
        Key::Menu => 0x5du16,
        Key::RightControl => 0xa3u16,
    }
}

/// Law: the virtual-key table is a left inverse of its witness, so every
/// symbolic key is reachable from some virtual-key code on this backend
/// too.
pub proof fn lemma_virtual_key_table_covers_keys(keycode: Key)
    ensures
        key_for_virtual_key(virtual_key_for_key(keycode)) == Some(keycode),
{
}

/// Law: this backend reaches parity with the XCB backend on keys: every
/// symbolic key event, press or release, is producible by a key message
/// carrying the witness virtual-key code.
pub proof fn lemma_win32_key_event_producible(keycode: Key, is_press: bool)
    ensures
        exists|msg: Win32Msg|
            win32_translated_event(msg) == Some(Event::Key { keycode, is_press }),
{
    let code = virtual_key_for_key(keycode);
    lemma_virtual_key_table_covers_keys(keycode);
    let message = if is_press {
        WM_KEYDOWN
    } else {
        WM_KEYUP
    };
    let msg = Win32Msg { message, w_param: code as u64, l_param: 0u64 };
    assert(low_word_of(code as u64) == code) by (bit_vector);
    assert(win32_translated_event(msg) == Some(Event::Key { keycode, is_press }));
}

/// Law: this backend reaches parity with the XCB backend on scroll
/// direction: both single-click scroll events are producible by a wheel
/// message whose delta carries the matching sign.
pub proof fn lemma_win32_scroll_event_producible(y: i32)
    requires
        y == 1 || y == -1,
    ensures
        exists|msg: Win32Msg|
            win32_translated_event(msg) == Some(Event::MouseScroll { x: 0i32, y }),
{
    if y == 1 {
        let msg = Win32Msg { message: WM_MOUSEWHEEL, w_param: 0x780000u64, l_param: 0u64 };
        assert(signed_word_of(high_word_of(0x780000u64)) == 120i32) by (bit_vector);
        assert(win32_translated_event(msg) == Some(Event::MouseScroll { x: 0i32, y }));
    } else {
        let msg = Win32Msg { message: WM_MOUSEWHEEL, w_param: 0xff880000u64, l_param: 0u64 };
        assert(signed_word_of(high_word_of(0xff880000u64)) == -120i32) by (bit_vector);
        assert(win32_translated_event(msg) == Some(Event::MouseScroll { x: 0i32, y }));
    }
}

/// Law: this backend reaches parity with the XCB backend on pointer
/// motion: every window-relative position the sixteen-bit words can
/// carry is producible by a motion message packing the two coordinates.
pub proof fn lemma_win32_mouse_move_event_producible(x: i16, y: i16)
    ensures
        exists|msg: Win32Msg|
            win32_translated_event(msg) == Some(Event::MouseMove { x: x as i32, y: y as i32 }),
{
    let packed = (((y as u16) as u64) << 16u64) | ((x as u16) as u64);
    let msg = Win32Msg { message: WM_MOUSEMOVE, w_param: 0u64, l_param: packed };
    assert(signed_word_of(low_word_of((((y as u16) as u64) << 16u64) | ((x as u16) as u64)))
        == x as i32) by (bit_vector);
    assert(signed_word_of(high_word_of((((y as u16) as u64) << 16u64) | ((x as u16) as u64)))
        == y as i32) by (bit_vector);
    assert(win32_translated_event(msg) == Some(Event::MouseMove { x: x as i32, y: y as i32 }));
}

/// The Win32 window state machine. The real window handle, the
/// process-wide window class and the message procedure registration are
/// owned by the driver; this value holds everything the lifecycle and
/// translation decisions depend on, and a ghost log of every event
/// handed to the registered sink.
pub struct Window<S: EventSink> {
    /// Requested width in pixels; advisory when fullscreen.
    pub width: u32,
    /// Requested height in pixels; advisory when fullscreen.
    pub height: u32,
    /// The window's caption.
    pub title: String,
    /// Whether the fullscreen state was requested at creation.
    pub fullscreen: bool,
    /// The lifecycle flag: starts true, flips to false exactly once.
    pub is_open: bool,
    /// Whether the window has been shown.
    pub visible: bool,
    /// The registered event sink, if any.
    pub event_callback: Option<S>,
    /// Messages waiting to be drained, oldest first.
    pub pending: Vec<Win32Msg>,
    /// Every event handed to a registered sink so far, in order.
    pub delivered: Ghost<Seq<Event>>,
}

impl<S: EventSink> Window<S> {
    /// A fresh window: open, hidden, with no sink and nothing queued.
    /// The driver registers the process-wide window class once, creates
    /// the real window with the same dimensions and caption, and
    /// installs the message procedure.
    pub fn new(width: u32, height: u32, title: &str, fullscreen: bool) -> (window: Window<S>)
        ensures
            window.width == width,
            window.height == height,
            window.title@ == title@,
            window.fullscreen == fullscreen,
            window.is_open,
            !window.visible,
            window.event_callback is None,
            window.pending@ == Seq::<Win32Msg>::empty(),
            window.delivered@ == Seq::<Event>::empty(),
    {
        Window {
            width,
            height,
            title: title.to_owned(),
            fullscreen,
            is_open: true,
            visible: false,
            event_callback: None,
            pending: Vec::new(),
            delivered: Ghost(Seq::empty()),
        }
    }

    /// Appends one queued message. The driver calls this with what the
    /// non-blocking peek removed from the native queue; a test
    /// synthesizes messages the same way. A close request arrives here
    /// like any other message: the message-procedure decision runs
    /// during the drain.
    pub fn queue_native_event(&mut self, msg: Win32Msg)
        ensures
            final(self).pending@ == old(self).pending@.push(msg),
            final(self).width == old(self).width,
            final(self).height == old(self).height,
            final(self).title@ == old(self).title@,
            final(self).fullscreen == old(self).fullscreen,
            final(self).is_open == old(self).is_open,
            final(self).visible == old(self).visible,
            final(self).event_callback == old(self).event_callback,
            final(self).delivered@ == old(self).delivered@,
    {
        self.pending.push(msg);
    }
}

impl<S: EventSink> CrossPlatformWindow<S> for Window<S> {
    open spec fn spec_is_open(&self) -> bool {
        self.is_open
    }

    open spec fn spec_visible(&self) -> bool {
        self.visible
    }

    open spec fn spec_pending(&self) -> nat {
        self.pending@.len()
    }

    open spec fn spec_has_callback(&self) -> bool {
        self.event_callback is Some
    }

    open spec fn spec_delivered(&self) -> Seq<Event> {
        self.delivered@
    }

    fn new(width: u32, height: u32, title: &str, fullscreen: bool) -> (window: Window<S>) {
        Window::new(width, height, title, fullscreen)
    }

    fn set_event_callback(&mut self, callback: S)
        ensures
            final(self).event_callback is Some,
            final(self).width == old(self).width,
            final(self).height == old(self).height,
            final(self).title@ == old(self).title@,
            final(self).fullscreen == old(self).fullscreen,
            final(self).pending@ == old(self).pending@,
    {
        self.event_callback = Some(callback);
    }

    fn show(&mut self)
        ensures
            final(self).visible,
            final(self).width == old(self).width,
            final(self).height == old(self).height,
            final(self).title@ == old(self).title@,
            final(self).fullscreen == old(self).fullscreen,
            final(self).event_callback == old(self).event_callback,
            final(self).pending@ == old(self).pending@,
    {
        self.visible = true;
    }

    fn is_open(&self) -> (open: bool) {
        self.is_open
    }

    fn poll_events(&mut self)
        ensures
            (
                {
                    let outcome = win32_drain(old(self).pending@);
                    &&& final(self).pending@ == outcome.remaining
                    &&& final(self).is_open == (old(self).is_open && !outcome.closed)
                    &&& final(self).delivered@ == old(self).delivered@ + (
                        if old(self).event_callback is Some {
                            outcome.events
                        } else {
                            Seq::<Event>::empty()
                        }
                    )
                }
            ),
            final(self).width == old(self).width,
            final(self).height == old(self).height,
            final(self).title@ == old(self).title@,
            final(self).fullscreen == old(self).fullscreen,
            final(self).visible == old(self).visible,
            (final(self).event_callback is Some) == (old(self).event_callback is Some),
    {
        let ghost start = *self;
        let ghost has_callback = self.event_callback is Some;
        let ghost mut emitted: Seq<Event> = Seq::empty();
        let mut closed_now: bool = false;
        while self.pending.len() > 0 && !closed_now
            invariant
                self.width == start.width,
                self.height == start.height,
                self.title@ == start.title@,
                self.fullscreen == start.fullscreen,
                self.visible == start.visible,
                has_callback == (start.event_callback is Some),
                (self.event_callback is Some) == has_callback,
                has_callback ==> self.delivered@ == start.delivered@ + emitted,
                !has_callback ==> self.delivered@ == start.delivered@,
                !closed_now ==> self.is_open == start.is_open,
                !closed_now ==> win32_drain(start.pending@).events == emitted + win32_drain(
                    self.pending@,
                ).events,
                !closed_now ==> win32_drain(start.pending@).remaining == win32_drain(
                    self.pending@,
                ).remaining,
                !closed_now ==> win32_drain(start.pending@).closed == win32_drain(
                    self.pending@,
                ).closed,
                closed_now ==> win32_drain(start.pending@).events == emitted,
                closed_now ==> win32_drain(start.pending@).remaining == self.pending@,
                closed_now ==> win32_drain(start.pending@).closed,
                closed_now ==> !self.is_open,
            decreases drain_measure(self.pending@),
        {
            let ghost before = self.pending@;
            let msg = self.pending.remove(0);
            proof {
                assert(self.pending@ =~= before.skip(1));
            }
            if msg.message == WM_QUIT {
                self.is_open = false;
                closed_now = true;
                proof {
                    assert(emitted + Seq::<Event>::empty() =~= emitted);
                }
            } else if msg.message == WM_CLOSE {
                match window_proc(msg.message) {
                    MessageAction::PostQuit => {
                        self.pending.push(Win32Msg { message: WM_QUIT, w_param: 0, l_param: 0 });
                    },
                    MessageAction::RunDefault => {},
                }
                proof {
                    lemma_close_count_push(before.skip(1), quit_message());
                    assert(self.pending@ == before.skip(1).push(quit_message()));
                }
            } else {
                match translate_win32_message(msg) {
                    Some(event) => {
                        match &mut self.event_callback {
                            Some(callback) => {
                                callback.handle(event);
                            },
                            None => {},
                        }
                        if self.event_callback.is_some() {
                            self.delivered = Ghost(self.delivered@.push(event));
                        }
                        proof {
                            assert(emitted + (seq![event] + win32_drain(self.pending@).events)
                                =~= emitted.push(event) + win32_drain(self.pending@).events);
                            assert(start.delivered@ + emitted.push(event) =~= (start.delivered@
                                + emitted).push(event));
                            emitted = emitted.push(event);
                        }
                    },
                    None => {},
                }
            }
        }
        proof {
            if !closed_now {
                assert(self.pending@.len() == 0);
                assert(win32_drain(self.pending@).events == Seq::<Event>::empty());
                assert(win32_drain(self.pending@).remaining == self.pending@);
                assert(emitted + Seq::<Event>::empty() =~= emitted);
            }
            assert(start.delivered@ + Seq::<Event>::empty() =~= start.delivered@);
        }
    }
}

} // verus!
