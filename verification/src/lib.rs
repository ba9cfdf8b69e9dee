//! The decision core of a tiny Wayland client that shows one window filled
//! with a single colour.
//!
//! The crate owns no connection. A driver feeds it the events the compositor
//! sends, one [`Event`] at a time, and performs the [`Request`]s it gets back,
//! in order. Everything the client decides - which globals to bind, when the
//! window can be created, how a configure is answered, when to stop - is
//! decided here, and stated in contracts that Verus proves.

pub mod capability;
pub mod request;
pub mod session;
pub mod history;

pub use capability::{recognize_interface, Capability};
pub use request::{window_title, Color, Request, Viewport};
pub use session::{Event, State};
