//! A window and event-loop bridge: window settings, the request they make of
//! the windowing system, the native surface handle of the window, and the
//! state machine that turns events and callback codes into loop decisions.
pub mod codes;
pub mod config;
pub mod request;
pub mod surface;
pub mod dispatch;
pub mod events;
pub mod win;
