//! The cross-platform window contract and the pieces both backends share.
//!
//! Exactly one backend is meant to drive a real window on a given target
//! operating system; a host loop is written once against
//! [`CrossPlatformWindow`] and never branches on the platform.

use vstd::prelude::*;

use crate::events::Event;

pub mod linux;
pub mod windows;

// The backend selected for the build; a host that names
// `platform::Window` gets the one for its target operating system.
pub use linux::Window;

verus! {

/// The single event sink a window can carry. Registering a sink replaces
/// any previous registration; there is no multi-subscriber fan-out. The
/// sink is invoked synchronously, on the caller's stack, once per
/// translated event, while the window drains its native records.
///
/// A sink must not re-enter the window it is registered on.
pub trait EventSink {
    fn handle(&mut self, event: Event);
}

/// An [`EventSink`] that appends every event it is handed to a vector, in
/// delivery order.
pub struct RecordingSink {
    pub events: Vec<Event>,
}

impl RecordingSink {
    /// A sink that has recorded nothing yet.
    pub fn new() -> (sink: RecordingSink)
        ensures
            sink.events@ == Seq::<Event>::empty(),
    {
        RecordingSink { events: Vec::new() }
    }
}

impl EventSink for RecordingSink {
    fn handle(&mut self, event: Event)
        ensures
            final(self).events@ == old(self).events@.push(event),
    {
        self.events.push(event);
    }
}

/// What one call to `poll_events` amounts to, stated over a backend's
/// queue of pending native records: the translated events in delivery
/// order, the records left for a later poll, and whether the close
/// request was honoured during the drain.
pub struct DrainOutcome<R> {
    /// The translated events, oldest first.
    pub events: Seq<Event>,
    /// The native records still pending after the call.
    pub remaining: Seq<R>,
    /// Whether a close request was drained; the drain stops there.
    pub closed: bool,
}

/// The error vocabulary for the unrecoverable environment failures a
/// backend driver can meet while it builds a real window. The state
/// machines in this crate never fail; the driver that performs the native
/// calls reports one of these to its caller instead of aborting.
#[derive(Clone, Copy, Debug, PartialEq, Eq, Structural)]
pub enum WindowError {
    /// No connection to the display server could be established.
    ConnectionFailed,
    /// The process-wide window class could not be registered.
    ClassRegistrationFailed,
    /// A close-protocol atom lookup returned no reply.
    AtomLookupFailed,
}

/// The one interface both backends implement. A host loop constructs a
/// window, registers a sink, shows the window, then polls it until
/// [`CrossPlatformWindow::is_open`] reports false.
///
/// The contract here is the shared lifecycle law: a window starts open,
/// hidden and with nothing pending; showing it only changes visibility;
/// polling never reopens a closed window; and polling with nothing
/// pending changes nothing at all. What each backend translates its
/// pending records into is stated on the backend itself.
pub trait CrossPlatformWindow<S: EventSink>: Sized {
    /// Whether the window's lifecycle flag still reports open.
    spec fn spec_is_open(&self) -> bool;

    /// Whether the window has been made visible.
    spec fn spec_visible(&self) -> bool;

    /// How many native records wait to be drained.
    spec fn spec_pending(&self) -> nat;

    /// Whether an event sink is registered.
    spec fn spec_has_callback(&self) -> bool;

    /// Every event handed to a registered sink so far, in delivery order.
    spec fn spec_delivered(&self) -> Seq<Event>;

    /// Builds a window of the requested pixel dimensions, still hidden,
    /// open, with no sink and nothing pending. When `fullscreen` is
    /// requested, width and height are advisory only.
    fn new(width: u32, height: u32, title: &str, fullscreen: bool) -> (window: Self)
        ensures
            window.spec_is_open(),
            !window.spec_visible(),
            window.spec_pending() == 0,
            !window.spec_has_callback(),
            window.spec_delivered() == Seq::<Event>::empty(),
    ;

    /// Registers the single event sink, replacing and discarding any
    /// previous registration.
    fn set_event_callback(&mut self, callback: S)
        ensures
            final(self).spec_has_callback(),
            final(self).spec_is_open() == old(self).spec_is_open(),
            final(self).spec_visible() == old(self).spec_visible(),
            final(self).spec_pending() == old(self).spec_pending(),
            final(self).spec_delivered() == old(self).spec_delivered(),
    ;

    /// Makes the window visible. Idempotent, and touches nothing else.
    fn show(&mut self)
        ensures
            final(self).spec_visible(),
            final(self).spec_is_open() == old(self).spec_is_open(),
            final(self).spec_pending() == old(self).spec_pending(),
            final(self).spec_has_callback() == old(self).spec_has_callback(),
            final(self).spec_delivered() == old(self).spec_delivered(),
    ;

    /// Reflects the lifecycle flag.
    fn is_open(&self) -> (open: bool)
        ensures
            open == self.spec_is_open(),
    ;

    /// Drains pending native records, translating each and handing the
    /// translation, if any, to the registered sink, until nothing is
    /// pending or a close request was just honoured. A closed window
    /// never reopens, and polling with nothing pending changes nothing.
    fn poll_events(&mut self)
        ensures
            !old(self).spec_is_open() ==> !final(self).spec_is_open(),
            final(self).spec_visible() == old(self).spec_visible(),
            final(self).spec_has_callback() == old(self).spec_has_callback(),
            old(self).spec_pending() == 0 ==> {
                &&& final(self).spec_is_open() == old(self).spec_is_open()
                &&& final(self).spec_pending() == 0
                &&& final(self).spec_delivered() == old(self).spec_delivered()
            },
            !old(self).spec_has_callback() ==> final(self).spec_delivered()
                == old(self).spec_delivered(),
    ;
}

} // verus!
