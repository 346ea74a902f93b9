//! The engine shell that a host binary drives.
//!
//! The engine itself carries no state yet; it answers the host loop's
//! "keep running?" question and classifies the input events it is handed.
//! All informational printing around these calls belongs to the host
//! binary, not to the library.

use vstd::prelude::*;

use crate::events::Event;
use crate::events::Key;

verus! {

/// The engine. It owns no components yet, so the struct is empty; the
/// host loop still constructs exactly one and drives it every frame.
pub struct Nengine {}

impl Nengine {
    /// First phase of engine initialization. The later phase is done by
    /// [`Nengine::init`].
    pub fn new() -> (engine: Nengine) {
        Nengine {}
    }

    /// Second phase of engine initialization. Nothing to set up yet.
    pub fn init(&mut self) {
    }

    /// Reports whether the engine is still running. The engine has no
    /// stop condition of its own yet, so this always holds.
    pub fn is_running(&self) -> (running: bool)
        ensures
            running,
    {
        true
    }

    /// Reports whether the engine reacts to the given input event: it
    /// takes notice exactly of a press of the W key. The host prints the
    /// notice when this returns true.
    pub fn on_event(&self, event: &Event) -> (noticed: bool)
        ensures
            noticed == (event matches Event::Key { keycode: Key::W, is_press: true }),
    {
        if let Event::Key { keycode, is_press } = event {
            if let Key::W = keycode {
                return *is_press;
            }
        }
        false
    }

    /// Per-frame work. There are no engine components to advance yet.
    pub fn update(&mut self) {
    }
}

} // verus!
