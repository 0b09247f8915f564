//! SOCKS5 (RFC 1928) wire codec and connection logic, verified with Verus.
//!
//! The crate does no I/O. The codec works on byte slices: a decoder takes
//! the bytes read so far and says what they hold, that they break the
//! protocol, or how many more have to be read. `connection` and `relay` hold
//! the decisions of a proxy as state machines that a driver feeds with what
//! its reads, writes and connection attempts came to.

pub mod address;
pub mod auth;
pub mod buf;
pub mod command;
pub mod connection;
pub mod error;
pub mod header;
pub mod method;
pub mod relay;
pub mod reply;
pub mod text;

pub use crate::address::{Address, AddressType, SocketAddr};
pub use crate::auth::{AuthenticationRequest, AuthenticationResponse};
pub use crate::command::Command;
pub use crate::connection::{Action, Connection, Event, Families, Pending, Protocol, State};
pub use crate::error::{DecodeError, Error};
pub use crate::header::{TcpRequestHeader, TcpResponseHeader};
pub use crate::method::Method;
pub use crate::relay::{Relay, RelayAction, RelayEnd, RelayEvent, Side};
pub use crate::reply::{ConnectError, Replies};
