//! Master side of the Modbus RTU protocol: request framing, CRC-16,
//! reply validation and the register / coil value codecs.
pub mod buffer;
pub mod client;
pub mod codec;
pub mod config;
pub mod crc;
pub mod error;
pub mod frame;
pub mod rtu;
pub mod stream;

pub use codec::{pack_bits, pack_bytes, unpack_bits, unpack_bytes, Coil};
pub use config::Config;
pub use crc::calc_crc;
pub use error::{Error, ExceptionCode, Reason};
pub use frame::Function;
pub use rtu::Client;
pub use stream::Stream;
