//! The transfer engine: one request / reply exchange at a time over a
//! transport.
use vstd::prelude::*;
use bytes::{Bytes, BytesMut};
use std::time::Duration;
use crate::buffer::{freeze, frozen_contents, frozen_slice, mut_contents};
use crate::codec::{bytes_to_words, pack_bytes};
use crate::error::{Error, Reason};
use crate::frame::{
    build_buffer, frame_error, get_reply_data, reply_check, reply_payload, request_frame,
    validate_reply, Address, Function, Id, Quantity, Word, MODBUS_MAX_PACKET_SIZE,
};
use crate::stream::Stream;

verus! {

/// What a read exchange yields once `reply` has arrived for `req`: the
/// reply's checks, then its payload.
pub open spec fn read_outcome(req: Seq<u8>, reply: Seq<u8>) -> Result<Seq<u8>, Error> {
    match reply_check(req, reply) {
        Err(e) => Err(e),
        Ok(_) => match reply_payload(reply) {
            Some(p) => Ok(p),
            None => Err(Error::InvalidData(Reason::UnexpectedReplySize)),
        },
    }
}

/// What a register read yields once `reply` has arrived for `req`: the
/// payload read as big-endian words.
pub open spec fn registers_outcome(req: Seq<u8>, reply: Seq<u8>) -> Result<Seq<u16>, Error> {
    match read_outcome(req, reply) {
        Err(e) => Err(e),
        Ok(p) => if p.len() % 2 == 0 {
            Ok(bytes_to_words(p))
        } else {
            Err(Error::InvalidData(Reason::BytecountNotEven))
        },
    }
}

/// What a custom exchange yields once `reply` has arrived for `req`: the
/// whole reply, once it passes the checks.
pub open spec fn raw_outcome(req: Seq<u8>, reply: Seq<u8>) -> Result<Seq<u8>, Error> {
    match reply_check(req, reply) {
        Err(e) => Err(e),
        Ok(_) => Ok(reply),
    }
}

/// The results that a custom exchange of `req` may end in, whatever the
/// transport does.
pub open spec fn raw_exchange(req: Seq<u8>, r: Result<Seq<u8>, Error>) -> bool {
    ||| r matches Err(Error::Io(_))
    ||| exists|rep: Seq<u8>| #[trigger] raw_outcome(req, rep) == r
}

/// The bytes of a payload result.
pub open spec fn payload_view(r: Result<Bytes, Error>) -> Result<Seq<u8>, Error> {
    match r {
        Ok(b) => Ok(frozen_contents(b)),
        Err(e) => Err(e),
    }
}

/// The words of a register result.
pub open spec fn words_view(r: Result<Vec<u16>, Error>) -> Result<Seq<u16>, Error> {
    match r {
        Ok(w) => Ok(w@),
        Err(e) => Err(e),
    }
}

/// The results that a write exchange of `req` may end in, whatever the
/// transport does: a transport error; success without a reply when none is
/// awaited; otherwise the outcome of checking some reply.
pub open spec fn write_exchange(req: Seq<u8>, need_reply: bool, r: Result<(), Error>) -> bool {
    ||| r matches Err(Error::Io(_))
    ||| !need_reply && r is Ok
    ||| need_reply && exists|rep: Seq<u8>| #[trigger] reply_check(req, rep) == r
}

/// The results that a read exchange of `req` may end in, whatever the
/// transport does: a transport error, or the outcome of some reply.
pub open spec fn read_exchange(req: Seq<u8>, r: Result<Seq<u8>, Error>) -> bool {
    ||| r matches Err(Error::Io(_))
    ||| exists|rep: Seq<u8>| #[trigger] read_outcome(req, rep) == r
}

/// The results that a register read of `req` may end in, whatever the
/// transport does.
pub open spec fn registers_exchange(req: Seq<u8>, r: Result<Seq<u16>, Error>) -> bool {
    ||| r matches Err(Error::Io(_))
    ||| exists|rep: Seq<u8>| #[trigger] registers_outcome(req, rep) == r
}

/// A Modbus RTU master over a transport.
pub struct Client<S: Stream> {
    stream: S,
    need_reply: bool,
}

impl<S: Stream> Client<S> {
    /// Whether a write waits for the slave's acknowledgment.
    pub closed spec fn needs_reply(&self) -> bool {
        self.need_reply
    }

    /// A client that awaits a reply to every request.
    pub fn new(stream: S) -> (r: Result<Self, Error>)
        ensures
            r matches Ok(c) && c.needs_reply(),
    {
        Ok(Self { stream, need_reply: true })
    }

    /// Sets the transport's timeout.
    pub fn set_timeout(&mut self, timeout: Duration) -> (r: Result<(), Error>)
        ensures
            final(self).needs_reply() == old(self).needs_reply(),
            r matches Err(e) ==> e is Io,
    {
        match self.stream.set_timeout(timeout) {
            Ok(()) => Ok(()),
            Err(e) => Err(Error::Io(e)),
        }
    }

    /// Reads `quantity` holding registers from `address` on slave `id`.
    pub fn read_holding_registers(&mut self, id: Id, address: Address, quantity: Quantity) -> (r:
        Result<Vec<Word>, Error>)
        ensures
            final(self).needs_reply() == old(self).needs_reply(),
            registers_exchange(
                request_frame(Function::ReadHoldingRegisters(id, address, quantity)),
                words_view(r),
            ),
    {
        let ghost req = request_frame(Function::ReadHoldingRegisters(id, address, quantity));
        let bytes = match self.read(Function::ReadHoldingRegisters(id, address, quantity)) {
            Ok(b) => b,
            Err(e) => {
                proof {
                    if !(e is Io) {
                        let rep = choose|rep: Seq<u8>|
                            #[trigger] read_outcome(req, rep) == Err::<Seq<u8>, Error>(e);
                        assert(registers_outcome(req, rep) == Err::<Seq<u16>, Error>(e));
                    }
                }
                return Err(e);
            },
        };
        let ghost p = frozen_contents(bytes);
        let ghost rep = choose|rep: Seq<u8>| #[trigger] read_outcome(req, rep) == Ok::<Seq<u8>, Error>(p);
        let r = pack_bytes(bytes);
        assert(registers_outcome(req, rep) == words_view(r));
        r
    }

    /// Writes `value` to the register at `address` on slave `id`.
    pub fn write_single_register(&mut self, id: Id, address: Address, value: Word) -> (r: Result<
        (),
        Error,
    >)
        ensures
            final(self).needs_reply() == old(self).needs_reply(),
            write_exchange(
                request_frame(Function::WriteSingleRegister(id, address, value)),
                old(self).needs_reply(),
                r,
            ),
    {
        self.write(Function::WriteSingleRegister(id, address, value))
    }

    /// Writes `values` to the registers from `address` on slave `id`; at
    /// least one value and at most as many as a packet holds.
    pub fn write_multiple_registers(&mut self, id: Id, address: Address, values: Vec<Word>) -> (r:
        Result<(), Error>)
        ensures
            final(self).needs_reply() == old(self).needs_reply(),
            values@.len() == 0 ==> r == Err::<(), Error>(
                Error::InvalidFrame(Reason::SendBufferEmpty),
            ),
            9 + 2 * values@.len() > MODBUS_MAX_PACKET_SIZE ==> r == Err::<(), Error>(
                Error::InvalidFrame(Reason::SendBufferTooBig),
            ),
            values@.len() > 0 && 9 + 2 * values@.len() <= MODBUS_MAX_PACKET_SIZE
                ==> write_exchange(
                request_frame(Function::WriteMultipleRegisters(id, address, values)),
                old(self).needs_reply(),
                r,
            ),
    {
        self.write(Function::WriteMultipleRegisters(id, address, values))
    }

    /// Sends a request given byte for byte and hands back the whole checked
    /// reply, read into a buffer shaped like `res`.
    pub fn custom(&mut self, req: Vec<u8>, res: Vec<u8>) -> (r: Result<Bytes, Error>)
        ensures
            final(self).needs_reply() == old(self).needs_reply(),
            req@.len() == 0 ==> r == Err::<Bytes, Error>(
                Error::InvalidFrame(Reason::SendBufferEmpty),
            ),
            req@.len() > MODBUS_MAX_PACKET_SIZE ==> r == Err::<Bytes, Error>(
                Error::InvalidFrame(Reason::SendBufferTooBig),
            ),
            req@.len() > 0 && req@.len() <= MODBUS_MAX_PACKET_SIZE ==> raw_exchange(
                req@,
                payload_view(r),
            ),
    {
        let ghost req_bytes = req@;
        let (frame, mut reply) = match build_buffer(Function::Custom(req, res)) {
            Ok(frames) => frames,
            Err(e) => return Err(e),
        };
        let sent = self.transfer(&frame, &mut reply, false);
        if let Err(e) = sent {
            assert(!(e is Io) ==> raw_outcome(req_bytes, mut_contents(reply)) == Err::<
                Seq<u8>,
                Error,
            >(e));
            return Err(e);
        }
        let ghost rep = mut_contents(reply);
        let r = freeze(reply);
        assert(raw_outcome(req_bytes, rep) == payload_view(Ok::<Bytes, Error>(r)));
        Ok(r)
    }

    /// Chooses whether writes wait for the slave's acknowledgment.
    pub fn set_need_reply(&mut self, need_reply: bool)
        ensures
            final(self).needs_reply() == need_reply,
    {
        self.need_reply = need_reply;
    }

    /// Sends `req`, and unless this is a write with no reply awaited, reads
    /// `reply` and checks it.
    fn transfer(&mut self, req: &Bytes, reply: &mut BytesMut, write: bool) -> (r: Result<
        (),
        Error,
    >)
        ensures
            final(self).needs_reply() == old(self).needs_reply(),
            write && !old(self).needs_reply() ==> (r is Ok || r matches Err(Error::Io(_))),
            !(write && !old(self).needs_reply()) ==> (r matches Err(Error::Io(_)) || r
                == reply_check(frozen_contents(*req), mut_contents(*final(reply)))),
    {
        if let Err(e) = self.stream.write_all(frozen_slice(req)) {
            return Err(Error::Io(e));
        }
        if let Err(e) = self.stream.flush() {
            return Err(Error::Io(e));
        }
        if write && !self.need_reply {
            return Ok(());
        }
        if let Err(e) = self.stream.read(reply) {
            return Err(Error::Io(e));
        }
        validate_reply(req, reply)
    }

    /// One exchange whose reply carries a payload.
    fn read(&mut self, fun: Function) -> (r: Result<Bytes, Error>)
        ensures
            final(self).needs_reply() == old(self).needs_reply(),
            frame_error(fun) is Some ==> r == Err::<Bytes, Error>(
                Error::InvalidFrame(frame_error(fun)->Some_0),
            ),
            frame_error(fun) is None ==> read_exchange(request_frame(fun), payload_view(r)),
    {
        let (req, mut reply) = match build_buffer(fun) {
            Ok(frames) => frames,
            Err(e) => return Err(e),
        };
        let sent = self.transfer(&req, &mut reply, false);
        if let Err(e) = sent {
            assert(!(e is Io) ==> read_outcome(frozen_contents(req), mut_contents(reply)) == Err::<
                Seq<u8>,
                Error,
            >(e));
            return Err(e);
        }
        let ghost rep = mut_contents(reply);
        let r = get_reply_data(freeze(reply));
        assert(read_outcome(frozen_contents(req), rep) == payload_view(r));
        r
    }

    /// One exchange whose reply only acknowledges.
    fn write(&mut self, fun: Function) -> (r: Result<(), Error>)
        ensures
            final(self).needs_reply() == old(self).needs_reply(),
            frame_error(fun) is Some ==> r == Err::<(), Error>(
                Error::InvalidFrame(frame_error(fun)->Some_0),
            ),
            frame_error(fun) is None ==> write_exchange(request_frame(fun), old(self).needs_reply(), r),
    {
        let (req, mut reply) = match build_buffer(fun) {
            Ok(frames) => frames,
            Err(e) => return Err(e),
        };
        self.transfer(&req, &mut reply, true)
    }
}

} // verus!
