//! A cross-platform windowing and input-event core.
//!
//! The library models the observable behaviour of a native window: its
//! open/close lifecycle, its visibility, the single registered event sink,
//! and the translation of platform-native event records into one shared
//! [`Event`](events::Event) vocabulary. Two backend state machines are
//! provided, one speaking the XCB protocol and one speaking the Win32
//! message protocol; both implement the same
//! [`CrossPlatformWindow`](platform::CrossPlatformWindow) contract.
//!
//! All native resource handling (connections, raw handles, the actual
//! message pumps) lives outside this crate; the backends here decide, for
//! every drained native record, what the window state becomes and which
//! event, if any, reaches the registered sink.

pub mod engine;
pub mod events;
pub mod platform;
pub mod vulkan;

pub use engine::Nengine;
pub use events::Event;
pub use events::Key;
pub use events::MouseButton;
