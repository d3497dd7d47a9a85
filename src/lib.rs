//! Routing of TLS connections by the server name that the client presents in
//! its ClientHello, without terminating TLS.

pub mod connection;
pub mod routing;
pub mod sni;

pub use connection::{Action, Connection, Direction, Phase};
pub use routing::RoutingTable;
pub use sni::{extract_sni, parse_sni, sni_from_extensions, SniError};
