//! Request frames, reply buffers, reply validation and payload extraction.
use vstd::prelude::*;
use bytes::{Bytes, BytesMut};
use crate::buffer::{
    be_bytes, be_word, buffer_from, empty_buffer, freeze, frozen_contents, frozen_slice,
    mut_contents, mut_slice, put_u16, put_u8, split_to,
};
use crate::codec::words_to_bytes;
use crate::crc::{calc_crc, crc16};
use crate::error::{Error, Reason};

verus! {

/// Address of a register on a Modbus slave.
pub type Address = u16;

/// Id of a Modbus slave.
pub type Id = u8;

/// A 16-bit Modbus data item.
pub type Word = u16;

/// How many items to read or write.
pub type Quantity = u16;

/// The longest request that a Modbus RTU link carries.
pub const MODBUS_MAX_PACKET_SIZE: usize = 260;

/// One request to a slave.
pub enum Function {
    /// Read `quantity` holding registers from `address` on slave `id`.
    ReadHoldingRegisters(Id, Address, Quantity),
    /// Write one word to the register at `address` on slave `id`.
    WriteSingleRegister(Id, Address, Word),
    /// Write the words to the registers from `address` on slave `id`.
    WriteMultipleRegisters(Id, Address, Vec<Word>),
    /// A request given byte for byte, with the reply buffer it expects.
    Custom(Vec<u8>, Vec<u8>),
}

/// `body` followed by its checksum, low register byte first.
pub open spec fn with_crc(body: Seq<u8>) -> Seq<u8> {
    body + be_bytes(crc16(body))
}

/// The bytes of a request that precede its checksum.
pub open spec fn request_body(f: Function) -> Seq<u8> {
    match f {
        Function::ReadHoldingRegisters(id, addr, quantity) => seq![id, 0x03u8] + be_bytes(addr)
            + be_bytes(quantity),
        Function::WriteSingleRegister(id, addr, value) => seq![id, 0x06u8] + be_bytes(addr)
            + be_bytes(value),
        Function::WriteMultipleRegisters(id, addr, values) => seq![id, 0x10u8] + be_bytes(addr)
            + be_bytes(values@.len() as u16) + seq![(2 * values@.len()) as u8] + words_to_bytes(
            values@,
        ),
        Function::Custom(req, _) => req@,
    }
}

/// The request frame sent for a function.
pub open spec fn request_frame(f: Function) -> Seq<u8> {
    match f {
        Function::Custom(req, _) => req@,
        _ => with_crc(request_body(f)),
    }
}

/// `n` zero bytes.
pub open spec fn zeros(n: nat) -> Seq<u8> {
    Seq::new(n, |i: int| 0u8)
}

/// The buffer that the reply to a function is read into.
pub open spec fn reply_template(f: Function) -> Seq<u8> {
    match f {
        Function::ReadHoldingRegisters(_, _, quantity) => zeros((5 + 2 * quantity) as nat),
        Function::WriteSingleRegister(..) => zeros(8),
        Function::WriteMultipleRegisters(..) => zeros(8),
        Function::Custom(_, res) => res@,
    }
}

/// Why a function cannot be framed, if it cannot: a multi-register write
/// needs at least one value, and no request may be empty or longer than
/// `MODBUS_MAX_PACKET_SIZE`.
pub open spec fn frame_error(f: Function) -> Option<Reason> {
    match f {
        Function::WriteMultipleRegisters(_, _, values) => if values@.len() == 0 {
            Some(Reason::SendBufferEmpty)
        } else if 9 + 2 * values@.len() > MODBUS_MAX_PACKET_SIZE {
            Some(Reason::SendBufferTooBig)
        } else {
            None
        },
        Function::Custom(req, _) => if req@.len() == 0 {
            Some(Reason::SendBufferEmpty)
        } else if req@.len() > MODBUS_MAX_PACKET_SIZE {
            Some(Reason::SendBufferTooBig)
        } else {
            None
        },
        _ => None,
    }
}

/// Appends the checksum of what `req` holds.
fn append_crc(req: &mut BytesMut)
    requires
        mut_contents(*old(req)).len() + 2 <= MODBUS_MAX_PACKET_SIZE,
    ensures
        mut_contents(*final(req)) == with_crc(mut_contents(*old(req))),
{
    let crc = calc_crc(mut_slice(req));
    put_u16(req, crc);
}

/// A buffer of `n` zero bytes.
fn zeroed_buffer(n: usize) -> (r: BytesMut)
    ensures
        mut_contents(r) == zeros(n as nat),
{
    let v: Vec<u8> = vec![0u8; n];
    let r = buffer_from(v.as_slice());
    assert(mut_contents(r) =~= zeros(n as nat));
    r
}

/// Builds the request frame of a function and the zeroed buffer that its
/// reply is read into.
pub fn build_buffer(fun: Function) -> (r: Result<(Bytes, BytesMut), Error>)
    ensures
        r is Ok <==> frame_error(fun) is None,
        r matches Ok((req, reply)) ==> frozen_contents(req) == request_frame(fun)
            && mut_contents(reply) == reply_template(fun),
        r matches Err(e) ==> e == Error::InvalidFrame(frame_error(fun)->Some_0),
{
    match fun {
        Function::WriteSingleRegister(id, addr, data) => {
            let mut req = empty_buffer(6 + 2);
            put_u8(&mut req, id);
            put_u8(&mut req, 0x06);
            put_u16(&mut req, addr);
            put_u16(&mut req, data);
            assert(mut_contents(req) =~= request_body(fun));
            append_crc(&mut req);
            Ok((freeze(req), zeroed_buffer(8)))
        },
        Function::WriteMultipleRegisters(id, addr, data) => {
            if data.len() == 0 {
                return Err(Error::InvalidFrame(Reason::SendBufferEmpty));
            }
            if data.len() > (MODBUS_MAX_PACKET_SIZE - 9) / 2 {
                return Err(Error::InvalidFrame(Reason::SendBufferTooBig));
            }
            let word_cnt = data.len() as u16;
            let byte_cnt = 2 * word_cnt as u8;
            let mut req = empty_buffer(6 + 2 + 1 + byte_cnt as usize);
            put_u8(&mut req, id);
            put_u8(&mut req, 0x10);
            put_u16(&mut req, addr);
            put_u16(&mut req, word_cnt);
            put_u8(&mut req, byte_cnt);
            let ghost header = mut_contents(req);
            let mut i: usize = 0;
            assert(data@.skip(0) =~= data@);
            assert(header + words_to_bytes(data@) =~= mut_contents(req) + words_to_bytes(
                data@.skip(0),
            ));
            while i < data.len()
                invariant
                    i <= data@.len(),
                    data@.len() <= 125,
                    header.len() == 7,
                    mut_contents(req).len() == 7 + 2 * i,
                    mut_contents(req) + words_to_bytes(data@.skip(i as int)) == header
                        + words_to_bytes(data@),
                decreases data@.len() - i,
            {
                let ghost before = mut_contents(req);
                let ghost rest = data@.skip(i as int);
                assert(rest.skip(1) =~= data@.skip(i + 1));
                put_u16(&mut req, data[i]);
                assert(mut_contents(req) + words_to_bytes(data@.skip(i + 1)) =~= before
                    + words_to_bytes(rest));
                i = i + 1;
            }
            assert(data@.skip(i as int) =~= Seq::<u16>::empty());
            assert(mut_contents(req) =~= request_body(fun));
            append_crc(&mut req);
            Ok((freeze(req), zeroed_buffer(8)))
        },
        Function::ReadHoldingRegisters(id, addr, quantity) => {
            let mut req = empty_buffer(6 + 2);
            put_u8(&mut req, id);
            put_u8(&mut req, 0x03);
            put_u16(&mut req, addr);
            put_u16(&mut req, quantity);
            assert(mut_contents(req) =~= request_body(fun));
            append_crc(&mut req);
            Ok((freeze(req), zeroed_buffer(5 + quantity as usize * 2)))
        },
        Function::Custom(req, res) => {
            if req.len() == 0 {
                return Err(Error::InvalidFrame(Reason::SendBufferEmpty));
            }
            if req.len() > MODBUS_MAX_PACKET_SIZE {
                return Err(Error::InvalidFrame(Reason::SendBufferTooBig));
            }
            Ok((freeze(buffer_from(req.as_slice())), buffer_from(res.as_slice())))
        },
    }
}

/// The word that a reply carries in its last two bytes.
pub open spec fn trailing_word(reply: Seq<u8>) -> u16 {
    be_word(reply[reply.len() - 2], reply[reply.len() - 1])
}

/// The outcome of checking a reply against its request: both at least three
/// bytes long, unit id and function code echoed, and the trailing checksum
/// right for the bytes before it.
pub open spec fn reply_check(req: Seq<u8>, reply: Seq<u8>) -> Result<(), Error> {
    if req.len() < 3 || reply.len() < 3 {
        Err(Error::InvalidData(Reason::UnexpectedReplySize))
    } else if reply[0] != req[0] {
        Err(Error::InvalidResponse)
    } else if reply[1] != req[1] {
        Err(Error::InvalidResponse)
    } else if trailing_word(reply) != crc16(reply.take(reply.len() - 2)) {
        Err(Error::InvalidData(Reason::ChecksumMismatch))
    } else {
        Ok(())
    }
}

/// Checks that a reply answers its request and arrived intact.
pub fn validate_reply(req: &Bytes, reply: &BytesMut) -> (r: Result<(), Error>)
    ensures
        r == reply_check(frozen_contents(*req), mut_contents(*reply)),
{
    let req = frozen_slice(req);
    let reply = mut_slice(reply);
    let req_len = req.len();
    let reply_len = reply.len();
    if req_len < 3 || reply_len < 3 {
        return Err(Error::InvalidData(Reason::UnexpectedReplySize));
    }
    if req[0] != reply[0] {
        return Err(Error::InvalidResponse);
    }
    if req[1] != reply[1] {
        return Err(Error::InvalidResponse);
    }
    let crc = (reply[reply_len - 2] as u16) * 256 + (reply[reply_len - 1] as u16);
    let (data, _) = reply.split_at(reply_len - 2);
    assert(data@ =~= reply@.take(reply_len - 2));
    if crc != calc_crc(data) {
        return Err(Error::InvalidData(Reason::ChecksumMismatch));
    }
    Ok(())
}

/// The payload of a register-read reply: the bytes after unit id, function
/// code and byte count, when the byte count accounts for the whole reply.
pub open spec fn reply_payload(reply: Seq<u8>) -> Option<Seq<u8>> {
    if reply.len() > 5 && 5 + reply[2] == reply.len() {
        Some(reply.subrange(3, 3 + reply[2]))
    } else {
        None
    }
}

/// Strips the envelope of a register-read reply.
pub fn get_reply_data(reply: Bytes) -> (r: Result<Bytes, Error>)
    ensures
        r is Ok <==> reply_payload(frozen_contents(reply)) is Some,
        r matches Ok(p) ==> frozen_contents(p) == reply_payload(frozen_contents(reply))->Some_0,
        r matches Err(e) ==> e == Error::InvalidData(Reason::UnexpectedReplySize),
{
    let mut reply = reply;
    let ghost orig = frozen_contents(reply);
    let reply_len = frozen_slice(&reply).len();
    if reply_len <= 5 {
        return Err(Error::InvalidData(Reason::UnexpectedReplySize));
    }
    let len = frozen_slice(&reply)[2];
    if 5 + len as usize != reply_len {
        return Err(Error::InvalidData(Reason::UnexpectedReplySize));
    }
    let _ = split_to(&mut reply, 3);
    let p = split_to(&mut reply, len as usize);
    assert(frozen_contents(p) =~= orig.subrange(3, 3 + len));
    Ok(p)
}

/// A multi-register write with no values is refused as an invalid frame,
/// whatever its unit id and address.
pub proof fn lemma_empty_write_refused(id: Id, addr: Address, values: Vec<Word>)
    requires
        values@.len() == 0,
    ensures
        frame_error(Function::WriteMultipleRegisters(id, addr, values)) == Some(
            Reason::SendBufferEmpty,
        ),
{
}

/// A reply whose unit id differs from the request's is refused as an
/// invalid response, whatever its checksum.
pub proof fn lemma_foreign_unit_refused(req: Seq<u8>, reply: Seq<u8>)
    requires
        req.len() >= 3,
        reply.len() >= 3,
        reply[0] != req[0],
    ensures
        reply_check(req, reply) == Err::<(), Error>(Error::InvalidResponse),
{
}

proof fn lemma_be_word_of_bytes(w: u16)
    ensures
        be_word(be_bytes(w)[0], be_bytes(w)[1]) == w,
{
}

/// A reply that echoes a checksummed request byte for byte is accepted.
pub proof fn lemma_echo_accepted(body: Seq<u8>)
    requires
        body.len() >= 1,
    ensures
        reply_check(with_crc(body), with_crc(body)) == Ok::<(), Error>(()),
{
    let f = with_crc(body);
    assert(f.take(f.len() - 2) =~= body);
    lemma_be_word_of_bytes(crc16(body));
}

/// Flipping one bit of the checksum field of an echoed checksummed request
/// makes the echo refused.
pub proof fn lemma_flipped_crc_refused(body: Seq<u8>, pos: int, k: u8)
    requires
        body.len() >= 1,
        pos == body.len() || pos == body.len() + 1,
        k < 8,
    ensures
        reply_check(
            with_crc(body),
            with_crc(body).update(pos, with_crc(body)[pos] ^ (1u8 << k)),
        ) is Err,
{
    let f = with_crc(body);
    let x = f[pos];
    let y = x ^ (1u8 << k);
    assert(y != x) by (bit_vector)
        requires
            y == x ^ (1u8 << k),
            k < 8,
    ;
    let g = f.update(pos, y);
    assert(g.take(g.len() - 2) =~= body);
    lemma_be_word_of_bytes(crc16(body));
    if g[0] == f[0] && g[1] == f[1] {
        assert(trailing_word(g) != trailing_word(f));
    }
}

} // verus!
