//! The SOCKS5 wire protocol: codecs for its messages and the acceptor that
//! negotiates one client connection.

pub mod acceptor;
pub mod address;
pub mod buffer;
pub mod error;
pub mod greeting;
pub mod request;
pub mod status;

pub use self::acceptor::{Acceptor, Pending, Step};
pub use self::address::{Address, IpAddr};
pub use self::error::{ParseError, ProtocolError};
pub use self::greeting::{AuthMethods, Greeting};
pub use self::request::{Command, Request};
pub use self::status::{ConnectError, FailStatus};
