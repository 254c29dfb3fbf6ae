//! Session types: the protocol spoken over a bi-directional channel is a
//! type, each operation consumes the channel and yields it in the
//! successor state, and the two endpoints stand in dual states.

pub mod io;
pub mod peano;
pub mod protocol;
mod resume;
pub mod session_types;

pub use crate::io::{Transfers, IO};
pub use crate::protocol::{channel, channel_dual, Channel, Defer, Handler, Protocol};
