//! The operations that a Modbus client offers its users, for a slave chosen
//! beforehand with `set_uid`.
use vstd::prelude::*;
use crate::codec::Coil;
use crate::error::Error;

verus! {

/// A Modbus client bound to one slave.
pub trait Client {
    fn read_discrete_inputs(&mut self, address: u16, quantity: u16) -> Result<Vec<Coil>, Error>;

    fn read_coils(&mut self, address: u16, quantity: u16) -> Result<Vec<Coil>, Error>;

    fn write_single_coil(&mut self, address: u16, value: Coil) -> Result<(), Error>;

    fn write_multiple_coils(&mut self, address: u16, coils: &[Coil]) -> Result<(), Error>;

    fn read_input_registers(&mut self, address: u16, quantity: u16) -> Result<Vec<u16>, Error>;

    fn read_holding_registers(&mut self, address: u16, quantity: u16) -> Result<Vec<u16>, Error>;

    fn write_single_register(&mut self, address: u16, value: u16) -> Result<(), Error>;

    fn write_multiple_registers(&mut self, address: u16, values: &[u16]) -> Result<(), Error>;

    fn set_uid(&mut self, uid: u8);
}

} // verus!
