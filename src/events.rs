//! The windowing system's event loop, owned by the library.
use vstd::prelude::*;
use winit::event_loop::EventLoop;

verus! {

#[verifier::external_type_specification]
#[verifier::external_body]
#[verifier::reject_recursive_types(T)]
pub struct ExEventLoop<T: 'static>(EventLoop<T>);

/// The event loop that a window is built on and that the loop runs. It is
/// made where the program starts, on the main thread, by winit's
/// `EventLoop::new`.
pub struct Events {
    pub events_loop: EventLoop<()>,
}

impl Events {
    /// The event loop itself.
    pub fn ele(self) -> EventLoop<()> {
        self.events_loop
    }
}

} // verus!
