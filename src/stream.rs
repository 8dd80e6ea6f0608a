//! The byte transport that a client talks through.
use vstd::prelude::*;
use bytes::BytesMut;
use std::time::Duration;

verus! {

/// A duplex byte channel with a settable timeout: a serial port, a socket,
/// or an in-memory double.
pub trait Stream {
    /// Writes every byte of `buf`.
    fn write_all(&mut self, buf: &[u8]) -> Result<(), std::io::Error>;

    /// Pushes out whatever is buffered.
    fn flush(&mut self) -> Result<(), std::io::Error>;

    /// Fills `buf` from the channel, failing on a short read.
    fn read(&mut self, buf: &mut BytesMut) -> Result<(), std::io::Error>;

    /// Sets how long a read or a write may block.
    fn set_timeout(&mut self, timeout: Duration) -> Result<(), std::io::Error>;
}

} // verus!
