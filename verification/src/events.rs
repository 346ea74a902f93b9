//! The closed, platform-independent vocabulary of input events.
//!
//! These are pure value types: every backend translates its native records
//! into this one representation, so that a host loop written against it
//! never sees a platform detail.

use vstd::prelude::*;

verus! {

/// A symbolic keyboard identifier, resolved from the platform's native
/// scan code or virtual-key code. No numeric value is guaranteed; the
/// set is incomplete by design (no national-layout or extended-key
/// coverage).
#[derive(Clone, Copy, Debug, PartialEq, Eq, Structural)]
pub enum Key {
    Escape,
    F1,
    F2,
    F3,
    F4,
    F5,
    F6,
    F7,
    F8,
    F9,
    F10,
    F11,
    F12,
    GraveAccent,
    One,
    Two,
    Three,
    Four,
    Five,
    Six,
    Seven,
    Eight,
    Nine,
    Zero,
    Hyphen,
    EqualSign,
    Backspace,
    Tab,
    Q,
    W,
    E,
    R,
    T,
    Y,
    U,
    I,
    O,
    P,
    LeftSquareBracket,
    RightSquareBracket,
    BackSlash,
    CapsLock,
    A,
    S,
    D,
    F,
    G,
    H,
    J,
    K,
    L,
    Semicolon,
    Quote,
    Enter,
    LeftShift,
    Z,
    X,
    C,
    V,
    B,
    N,
    M,
    Comma,
    Period,
    ForwardSlash,
    RightShift,
    LeftControl,
    LeftSuper,
    LeftAlt,
    Spacebar,
    RightAlt,
    RightSuper,
    Menu,
    RightControl,
}

/// A mouse button identifier: the three conventional buttons plus numbered
/// buttons for extended pointing devices. The native codes that carry
/// scroll-wheel motion are never reported through this type; they become
/// [`Event::MouseScroll`] instead.
#[derive(Clone, Copy, Debug, PartialEq, Eq, Structural)]
pub enum MouseButton {
    Left,
    Right,
    Middle,
    One,
    Two,
    Three,
    Four,
    Five,
    Six,
    Seven,
    Eight,
    Nine,
    Ten,
}

/// A library-independent input event.
///
/// Scroll deltas and cursor positions are carried as integers: the native
/// protocols deliver whole numbers (a scroll click per wheel notch,
/// pixel-grained window-relative coordinates), and integers keep the
/// values exact in every contract.
#[derive(Clone, Copy, Debug, PartialEq, Eq, Structural)]
pub enum Event {
    Key { keycode: Key, is_press: bool },
    MouseButton { button: MouseButton, is_press: bool },
    MouseScroll { x: i32, y: i32 },
    MouseMove { x: i32, y: i32 },
}

} // verus!
