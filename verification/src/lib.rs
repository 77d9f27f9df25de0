//! ECHONET Lite packets and their wire format.
//!
//! The crate models an ECHONET Lite frame ([`ElPacket`]) and converts it to
//! and from its big-endian byte layout. Every conversion carries a contract
//! over a mathematical description of the layout.

pub mod codec;
pub mod de;
pub mod el_packet;
pub mod endian;
pub mod error;
pub mod io;
pub mod laws;
pub mod names;
pub mod object;
pub mod prelude;
pub mod ser;
pub mod text;

pub use de::deserialize;
pub use el_packet::{
    bulk_read, prop, Edt, ElPacket, ElPacketBuilder, Properties, Property, ServiceCode,
};
pub use error::{Error, ErrorKind, Primitive, Result};
pub use object::{EchonetObject, ElClass};
pub use ser::serialize;
