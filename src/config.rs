//! Connection settings.
use vstd::prelude::*;
use std::time::Duration;

verus! {

/// Timeouts and the unit id that a connection starts with.
#[derive(Clone, Copy)]
pub struct Config {
    /// Timeout when connecting (default: the system's).
    pub connect_timeout: Option<Duration>,
    /// Timeout when reading (default: none).
    pub read_timeout: Option<Duration>,
    /// Timeout when writing (default: none).
    pub write_timeout: Option<Duration>,
    /// The Modbus unit id used in requests (default: 1).
    pub modbus_uid: u8,
}

impl Default for Config {
    fn default() -> (r: Config)
        ensures
            r.connect_timeout is None,
            r.read_timeout is None,
            r.write_timeout is None,
            r.modbus_uid == 1,
    {
        Config { connect_timeout: None, read_timeout: None, write_timeout: None, modbus_uid: 1 }
    }
}

} // verus!
