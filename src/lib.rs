//! The decision logic of a WebSocket echo server: what to do with each
//! inbound frame, the per-connection session state machine that turns
//! transport events into the next action, and the listener's policy on
//! accept failures.
pub mod acceptor;
pub mod frame;
pub mod laws;
pub mod session;

pub use acceptor::{after_accept, AcceptStep};
pub use frame::{react, CloseInfo, Frame, Reaction};
pub use session::{respond_all, Action, Event, Phase, Session, Termination};
