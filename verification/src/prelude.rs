//! The items that most users of the crate need, in one place.

pub use crate::de::deserialize;
pub use crate::el_packet::{
    bulk_read, prop, Edt, ElPacket, ElPacketBuilder, Properties, Property, ServiceCode,
};
pub use crate::error::{Error, ErrorKind, Result};
pub use crate::object::packet::ClassPacket;
pub use crate::object::{EchonetObject, ElClass};
pub use crate::ser::serialize;
