//! Errors of an exchange, and the Modbus exception codes.
use vstd::prelude::*;

verus! {

/// The error that a transport hands back.
#[verifier::external_type_specification]
#[verifier::external_body]
pub struct ExIoError(std::io::Error);

/// Why a frame or a reply was refused.
#[derive(Debug)]
pub enum Reason {
    UnexpectedReplySize,
    BytecountNotEven,
    SendBufferEmpty,
    RecvBufferEmpty,
    SendBufferTooBig,
    DecodingError,
    EncodingError,
    InvalidByteorder,
    ChecksumMismatch,
    Custom(String),
}

/// Modbus exception codes returned from the server.
#[derive(Debug, PartialEq, Eq, Structural, Clone, Copy)]
pub enum ExceptionCode {
    IllegalFunction,
    IllegalDataAddress,
    IllegalDataValue,
    SlaveOrServerFailure,
    Acknowledge,
    SlaveOrServerBusy,
    NegativeAcknowledge,
    MemoryParity,
    NotDefined,
    GatewayPath,
    GatewayTarget,
}

/// The numeric code of each exception on the wire.
pub open spec fn exception_code_value(e: ExceptionCode) -> u8 {
    match e {
        ExceptionCode::IllegalFunction => 0x01,
        ExceptionCode::IllegalDataAddress => 0x02,
        ExceptionCode::IllegalDataValue => 0x03,
        ExceptionCode::SlaveOrServerFailure => 0x04,
        ExceptionCode::Acknowledge => 0x05,
        ExceptionCode::SlaveOrServerBusy => 0x06,
        ExceptionCode::NegativeAcknowledge => 0x07,
        ExceptionCode::MemoryParity => 0x08,
        ExceptionCode::NotDefined => 0x09,
        ExceptionCode::GatewayPath => 0x0a,
        ExceptionCode::GatewayTarget => 0x0b,
    }
}

impl ExceptionCode {
    /// The code that a server sends for this exception.
    pub fn code(&self) -> (r: u8)
        ensures
            r == exception_code_value(*self),
    {
        match self {
            ExceptionCode::IllegalFunction => 0x01,
            ExceptionCode::IllegalDataAddress => 0x02,
            ExceptionCode::IllegalDataValue => 0x03,
            ExceptionCode::SlaveOrServerFailure => 0x04,
            ExceptionCode::Acknowledge => 0x05,
            ExceptionCode::SlaveOrServerBusy => 0x06,
            ExceptionCode::NegativeAcknowledge => 0x07,
            ExceptionCode::MemoryParity => 0x08,
            ExceptionCode::NotDefined => 0x09,
            ExceptionCode::GatewayPath => 0x0a,
            ExceptionCode::GatewayTarget => 0x0b,
        }
    }

    /// The exception that a server's code stands for, if any.
    pub fn from_code(code: u8) -> (r: Option<ExceptionCode>)
        ensures
            r matches Some(e) ==> exception_code_value(e) == code,
            r is None <==> (code == 0 || code > 0x0b),
    {
        match code {
            0x01 => Some(ExceptionCode::IllegalFunction),
            0x02 => Some(ExceptionCode::IllegalDataAddress),
            0x03 => Some(ExceptionCode::IllegalDataValue),
            0x04 => Some(ExceptionCode::SlaveOrServerFailure),
            0x05 => Some(ExceptionCode::Acknowledge),
            0x06 => Some(ExceptionCode::SlaveOrServerBusy),
            0x07 => Some(ExceptionCode::NegativeAcknowledge),
            0x08 => Some(ExceptionCode::MemoryParity),
            0x09 => Some(ExceptionCode::NotDefined),
            0x0a => Some(ExceptionCode::GatewayPath),
            0x0b => Some(ExceptionCode::GatewayTarget),
            _ => None,
        }
    }
}

/// Combination of Modbus, transport and data corruption errors.
#[derive(Debug)]
pub enum Error {
    /// A Modbus exception reply.
    Exception(ExceptionCode),
    /// The transport failed to write, flush, read or set its timeout.
    Io(std::io::Error),
    /// The reply does not echo the request's unit id or function code.
    InvalidResponse,
    /// A reply, or data handed to a codec, is malformed.
    InvalidData(Reason),
    /// The request would be empty or longer than a Modbus RTU packet.
    InvalidFrame(Reason),
    InvalidFunction,
    ParseCoilError,
    ParseInfoError,
}

impl Error {
    /// A short description of the kind of error.
    pub fn description(&self) -> (r: &'static str)
        ensures
            r@ == error_description(*self),
    {
        match self {
            Error::Exception(_) => "modbus exception",
            Error::Io(_) => "I/O error",
            Error::InvalidResponse => "invalid response",
            Error::InvalidData(_) => "invalid data",
            Error::InvalidFrame(_) => "invalid frame",
            Error::InvalidFunction => "invalid modbus function",
            Error::ParseCoilError => "parse coil could not be parsed",
            Error::ParseInfoError => "failed parsing device info as utf8",
        }
    }
}

impl Error {
    /// The transport error underneath, if this is one.
    pub fn cause(&self) -> (r: Option<&std::io::Error>)
        ensures
            r is Some <==> self is Io,
            r matches Some(e) ==> self == &Error::Io(*e),
    {
        match self {
            Error::Io(e) => Some(e),
            _ => None,
        }
    }
}

/// The description of each kind of error.
pub open spec fn error_description(e: Error) -> Seq<char> {
    match e {
        Error::Exception(_) => "modbus exception"@,
        Error::Io(_) => "I/O error"@,
        Error::InvalidResponse => "invalid response"@,
        Error::InvalidData(_) => "invalid data"@,
        Error::InvalidFrame(_) => "invalid frame"@,
        Error::InvalidFunction => "invalid modbus function"@,
        Error::ParseCoilError => "parse coil could not be parsed"@,
        Error::ParseInfoError => "failed parsing device info as utf8"@,
    }
}

impl From<ExceptionCode> for Error {
    fn from(err: ExceptionCode) -> (r: Error)
        ensures
            r == Error::Exception(err),
    {
        Error::Exception(err)
    }
}

impl vstd::std_specs::convert::FromSpecImpl<ExceptionCode> for Error {
    open spec fn obeys_from_spec() -> bool {
        true
    }

    open spec fn from_spec(err: ExceptionCode) -> Error {
        Error::Exception(err)
    }
}

impl From<std::io::Error> for Error {
    fn from(err: std::io::Error) -> (r: Error)
        ensures
            r == Error::Io(err),
    {
        Error::Io(err)
    }
}

impl vstd::std_specs::convert::FromSpecImpl<std::io::Error> for Error {
    open spec fn obeys_from_spec() -> bool {
        true
    }

    open spec fn from_spec(err: std::io::Error) -> Error {
        Error::Io(err)
    }
}

} // verus!
