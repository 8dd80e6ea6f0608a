use bytes::{Bytes, BytesMut};
use simple_modbus::frame::{build_buffer, get_reply_data, validate_reply};
use simple_modbus::{calc_crc, Config, Error, Function, Reason};

fn with_crc(mut body: Vec<u8>) -> Vec<u8> {
    let c = calc_crc(&body);
    body.push((c >> 8) as u8);
    body.push(c as u8);
    body
}

#[test]
fn read_holding_registers_frame() {
    let (req, reply) = build_buffer(Function::ReadHoldingRegisters(1, 0x1122, 2)).unwrap();
    assert_eq!(&req[..], &[0x01, 0x03, 0x11, 0x22, 0x00, 0x02, 0x61, 0x3D]);
    assert_eq!(calc_crc(&req[..6]), u16::from_be_bytes([req[6], req[7]]));
    assert_eq!(reply.len(), 9);
    assert!(reply.iter().all(|b| *b == 0));
}

#[test]
fn write_single_register_frame() {
    let (req, reply) = build_buffer(Function::WriteSingleRegister(15, 0x0000, 0x0001)).unwrap();
    assert_eq!(&req[..], &[0x0F, 0x06, 0x00, 0x00, 0x00, 0x01, 0x49, 0x24]);
    assert_eq!(&reply[..], &[0u8; 8]);
}

#[test]
fn write_multiple_registers_frame() {
    let (req, reply) =
        build_buffer(Function::WriteMultipleRegisters(1, 0x0016, vec![0, 0])).unwrap();
    assert_eq!(
        &req[..],
        &[0x01, 0x10, 0x00, 0x16, 0x00, 0x02, 0x04, 0x00, 0x00, 0x00, 0x00, 0x72, 0x89]
    );
    assert_eq!(reply.len(), 8);
}

#[test]
fn empty_multiple_write_is_invalid_frame() {
    for (id, addr) in [(1u8, 0u16), (0, 0xFFFF), (255, 0x16)] {
        let r = build_buffer(Function::WriteMultipleRegisters(id, addr, vec![]));
        assert!(matches!(r, Err(Error::InvalidFrame(Reason::SendBufferEmpty))));
    }
}

#[test]
fn largest_multiple_write_fits() {
    let (req, _) = build_buffer(Function::WriteMultipleRegisters(1, 0, vec![7; 125])).unwrap();
    assert_eq!(req.len(), 259);
    assert_eq!(req[6], 250);
    let r = build_buffer(Function::WriteMultipleRegisters(1, 0, vec![7; 126]));
    assert!(matches!(r, Err(Error::InvalidFrame(Reason::SendBufferTooBig))));
}

#[test]
fn custom_frame_is_taken_as_given() {
    let (req, reply) =
        build_buffer(Function::Custom(vec![15, 0x7A, 0, 0, 2], vec![0; 5])).unwrap();
    assert_eq!(&req[..], &[15, 0x7A, 0, 0, 2]);
    assert_eq!(&reply[..], &[0u8; 5]);
    let r = build_buffer(Function::Custom(vec![], vec![0; 5]));
    assert!(matches!(r, Err(Error::InvalidFrame(Reason::SendBufferEmpty))));
    let r = build_buffer(Function::Custom(vec![1; 261], vec![]));
    assert!(matches!(r, Err(Error::InvalidFrame(Reason::SendBufferTooBig))));
    assert!(build_buffer(Function::Custom(vec![1; 260], vec![])).is_ok());
}

#[test]
fn echo_of_request_is_accepted() {
    let (req, _) = build_buffer(Function::WriteSingleRegister(15, 0, 1)).unwrap();
    let reply = BytesMut::from(&req[..]);
    assert!(validate_reply(&req, &reply).is_ok());
}

#[test]
fn flipped_crc_bit_is_refused() {
    let (req, _) = build_buffer(Function::WriteSingleRegister(15, 0, 1)).unwrap();
    for pos in [6usize, 7] {
        for k in 0..8 {
            let mut bad = req.to_vec();
            bad[pos] ^= 1 << k;
            let r = validate_reply(&req, &BytesMut::from(&bad[..]));
            assert!(matches!(r, Err(Error::InvalidData(Reason::ChecksumMismatch))));
        }
    }
}

#[test]
fn foreign_unit_id_is_refused() {
    let req = Bytes::from(with_crc(vec![1, 3, 0, 0x16, 0, 2]));
    let good_crc = BytesMut::from(&with_crc(vec![2, 3, 4, 0, 1, 0, 2])[..]);
    let r = validate_reply(&req, &good_crc);
    assert!(matches!(r, Err(Error::InvalidResponse)));
    let bad_crc = BytesMut::from(&[2u8, 3, 4, 0, 1, 0, 2, 0, 0][..]);
    assert!(matches!(validate_reply(&req, &bad_crc), Err(Error::InvalidResponse)));
}

#[test]
fn foreign_function_code_is_refused() {
    let req = Bytes::from(with_crc(vec![1, 3, 0, 0x16, 0, 2]));
    let reply = BytesMut::from(&with_crc(vec![1, 4, 4, 0, 1, 0, 2])[..]);
    assert!(matches!(validate_reply(&req, &reply), Err(Error::InvalidResponse)));
}

#[test]
fn short_frames_are_refused() {
    let req = Bytes::from(with_crc(vec![1, 3, 0, 0x16, 0, 2]));
    let reply = BytesMut::from(&[1u8, 3][..]);
    let r = validate_reply(&req, &reply);
    assert!(matches!(r, Err(Error::InvalidData(Reason::UnexpectedReplySize))));
    let r = validate_reply(&Bytes::from(vec![1u8, 3]), &BytesMut::from(&req[..]));
    assert!(matches!(r, Err(Error::InvalidData(Reason::UnexpectedReplySize))));
}

#[test]
fn reply_payload_is_extracted() {
    let reply = Bytes::from(vec![0x01, 0x03, 0x04, 0x00, 0x01, 0x00, 0x02, 0x2A, 0x32]);
    let p = get_reply_data(reply).unwrap();
    assert_eq!(&p[..], &[0x00, 0x01, 0x00, 0x02]);
}

#[test]
fn reply_with_wrong_byte_count_is_refused() {
    let reply = Bytes::from(vec![0x01, 0x03, 0x05, 0x00, 0x01, 0x00, 0x02, 0x2A, 0x32]);
    let r = get_reply_data(reply);
    assert!(matches!(r, Err(Error::InvalidData(Reason::UnexpectedReplySize))));
    let r = get_reply_data(Bytes::from(vec![1, 3, 0, 0, 0]));
    assert!(matches!(r, Err(Error::InvalidData(Reason::UnexpectedReplySize))));
}

#[test]
fn config_defaults() {
    let c = Config::default();
    assert_eq!(c.modbus_uid, 1);
    assert!(c.connect_timeout.is_none() && c.read_timeout.is_none() && c.write_timeout.is_none());
}
