use bytes::Bytes;
use simple_modbus::{calc_crc, pack_bits, pack_bytes, unpack_bits, unpack_bytes, Coil, Error, Reason};
use simple_modbus::error::ExceptionCode;
use std::str::FromStr;
use Coil::{Off, On};

#[test]
fn crc_reference_vector() {
    // slave 2, function 0x07: register 0x1241, sent low byte first
    assert_eq!(calc_crc(&[0x02, 0x07]), 0x4112);
}

#[test]
fn crc_of_empty_is_seed() {
    assert_eq!(calc_crc(&[]), 0xFFFF);
}

#[test]
fn crc_of_read_reply() {
    assert_eq!(calc_crc(&[0x01, 0x03, 0x04, 0x00, 0x01, 0x00, 0x02]), 0x2A32);
}

#[test]
fn unpack_bytes_high_byte_first() {
    assert_eq!(unpack_bytes(&[0x1234, 0xABCD]), vec![0x12, 0x34, 0xAB, 0xCD]);
    assert_eq!(unpack_bytes(&[]), Vec::<u8>::new());
}

#[test]
fn pack_bytes_big_endian() {
    let w = pack_bytes(Bytes::from(vec![0x00, 0x01, 0x00, 0x02, 0xFF, 0xFE])).unwrap();
    assert_eq!(w, vec![1, 2, 0xFFFE]);
    assert_eq!(pack_bytes(Bytes::new()).unwrap(), Vec::<u16>::new());
}

#[test]
fn words_round_trip() {
    let words = vec![0u16, 1, 0x1234, 0xFFFF, 0x8000];
    let bytes = unpack_bytes(&words);
    assert_eq!(pack_bytes(Bytes::from(bytes)).unwrap(), words);
}

#[test]
fn pack_bytes_refuses_odd_length() {
    for n in [1usize, 3, 5, 9] {
        let r = pack_bytes(Bytes::from(vec![0u8; n]));
        assert!(matches!(r, Err(Error::InvalidData(Reason::BytecountNotEven))));
    }
}

#[test]
fn pack_bits_lsb_first() {
    let coils = [On, Off, On, On, Off, Off, Off, Off, On];
    assert_eq!(pack_bits(&coils), vec![0b0000_1101, 0b0000_0001]);
    assert_eq!(pack_bits(&[]), Vec::<u8>::new());
    assert_eq!(pack_bits(&[On; 8]), vec![0xFF]);
}

#[test]
fn coils_round_trip() {
    for n in 0..20usize {
        let coils: Vec<Coil> = (0..n).map(|i| if i % 3 == 0 { On } else { Off }).collect();
        let packed = pack_bits(&coils);
        assert_eq!(packed.len(), (n + 7) / 8);
        assert_eq!(unpack_bits(&packed, n as u16).unwrap(), coils);
    }
}

#[test]
fn unpack_bits_reads_count_bits() {
    assert_eq!(unpack_bits(&[0b0000_0101], 3).unwrap(), vec![On, Off, On]);
}

#[test]
fn unpack_bits_refuses_short_input() {
    let r = unpack_bits(&[0xFF], 9);
    assert!(matches!(r, Err(Error::InvalidData(Reason::UnexpectedReplySize))));
    assert!(unpack_bits(&[], 1).is_err());
    assert_eq!(unpack_bits(&[], 0).unwrap(), Vec::<Coil>::new());
}

#[test]
fn coil_conversions() {
    assert_eq!(Coil::from(true), Coil::On);
    assert_eq!(Coil::from(false), Coil::Off);
    assert_eq!(!Coil::On, Coil::Off);
    assert_eq!(!!Coil::Off, Coil::Off);
    assert_eq!(Coil::On.code(), 0xff00);
    assert_eq!(Coil::Off.code(), 0x0000);
    assert_eq!(Coil::from_str("On").unwrap(), Coil::On);
    assert_eq!(Coil::from_str("Off").unwrap(), Coil::Off);
    assert!(matches!(Coil::from_str("on"), Err(Error::ParseCoilError)));
}

#[test]
fn exception_codes() {
    assert_eq!(ExceptionCode::IllegalFunction.code(), 0x01);
    assert_eq!(ExceptionCode::GatewayTarget.code(), 0x0b);
    assert_eq!(ExceptionCode::from_code(0x02), Some(ExceptionCode::IllegalDataAddress));
    assert_eq!(ExceptionCode::from_code(0x00), None);
    assert_eq!(ExceptionCode::from_code(0x0c), None);
    assert!(matches!(Error::from(ExceptionCode::Acknowledge), Error::Exception(ExceptionCode::Acknowledge)));
}

#[test]
fn error_descriptions() {
    assert_eq!(Error::InvalidResponse.description(), "invalid response");
    assert_eq!(Error::InvalidFrame(Reason::SendBufferEmpty).description(), "invalid frame");
    assert_eq!(Error::InvalidData(Reason::ChecksumMismatch).description(), "invalid data");
}
