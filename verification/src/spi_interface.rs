//! The transaction interface: single-opcode commands, register reads and
//! writes, and bulk buffer transfers.
//!
//! The bus is modelled as plain data. Every operation the driver issues is
//! appended, in order, to `log` as the exact command frame the wire would
//! carry. Responses come from `replies`, a scripted queue consumed front to
//! back: one entry per read-type transaction, holding the full frame the
//! device answers with. A missing or wrongly-sized reply is a bus fault
//! (`Spi`), and a busy line that never clears within the iteration cap is
//! modelled by the `busy` flag (`BusyTimeout`). The physical byte exchange
//! that realises each logged operation lives outside this crate.

use vstd::prelude::*;

use crate::shared::{be16, spec_be16, split_addr, OpCode, RadioError, Register};

verus! {

/// Frame of a single-opcode command carrying one data byte.
pub open spec fn op_word_frame(code: OpCode, word: u8, r8x: bool) -> Seq<u8> {
    seq![code.spec_val(r8x), word]
}

/// Frame of a single-opcode read: the opcode followed by a status slot and
/// three response slots.
pub open spec fn op_read_frame(code: OpCode, r8x: bool) -> Seq<u8> {
    seq![code.spec_val(r8x), 0, 0, 0, 0]
}

/// Frame of a one-byte register write.
pub open spec fn reg_write_frame(reg: Register, word: u8, r8x: bool) -> Seq<u8> {
    seq![
        OpCode::WriteRegister.spec_val(r8x),
        (reg.spec_addr() / 256) as u8,
        (reg.spec_addr() % 256) as u8,
        word,
    ]
}

/// Frame of a register read: opcode, address, then three response slots.
pub open spec fn reg_read_frame(reg: Register, r8x: bool) -> Seq<u8> {
    seq![
        OpCode::ReadRegister.spec_val(r8x),
        (reg.spec_addr() / 256) as u8,
        (reg.spec_addr() % 256) as u8,
        0,
        0,
        0,
    ]
}

/// Size of the driver-side staging buffers, matching the device's internal
/// data buffer.
pub const RADIO_BUF_SIZE: usize = 256;

/// How a logged bus operation drives the wire.
#[derive(Clone, Copy, PartialEq, Eq, Structural, Debug)]
pub enum BusOpKind {
    /// Pulse of the hardware reset line; no bytes are exchanged.
    Reset,
    /// A frame written to the device; the response bytes are discarded.
    Command,
    /// A full-duplex transfer: the frame is written while the device's
    /// response of the same length is captured.
    Exchange,
}

/// One bus operation: its kind and the exact frame put on the wire.
#[derive(Clone, PartialEq, Eq, Debug)]
pub struct BusOp {
    pub kind: BusOpKind,
    pub frame: Vec<u8>,
}

impl View for BusOp {
    type V = (BusOpKind, Seq<u8>);

    open spec fn view(&self) -> (BusOpKind, Seq<u8>) {
        (self.kind, self.frame@)
    }
}

/// Owns the bus model and the two fixed-size transfer buffers.
#[derive(Debug)]
pub struct Interface {
    /// Active chip family: true for SX128x, false for SX126x. Always agrees
    /// with the configuration tag of the radio that owns this interface.
    pub r8x: bool,
    /// Models a busy line that never clears within the polling cap.
    pub busy: bool,
    /// Staging buffer for outgoing bulk transfers.
    pub write_buf: Vec<u8>,
    /// Received payload bytes land here.
    pub read_buf: Vec<u8>,
    /// Length of the last received payload.
    pub rx_payload_len: u8,
    /// Offset of the last received payload inside the device buffer.
    pub rx_payload_start: u8,
    /// Ordered record of every bus operation issued so far.
    pub log: Vec<BusOp>,
    /// Scripted device replies, consumed front to back.
    pub replies: Vec<Vec<u8>>,
}

impl Interface {
    /// The issued operations, as (kind, frame) pairs in order.
    pub open spec fn ops(self) -> Seq<(BusOpKind, Seq<u8>)> {
        self.log@.map_values(|op: BusOp| op@)
    }

    /// The replies not yet consumed, in order.
    pub open spec fn pending(self) -> Seq<Seq<u8>> {
        self.replies@.map_values(|r: Vec<u8>| r@)
    }

    /// Both staging buffers have their fixed size.
    pub open spec fn wf(self) -> bool {
        &&& self.write_buf@.len() == RADIO_BUF_SIZE
        &&& self.read_buf@.len() == RADIO_BUF_SIZE
    }

    /// Chip tag and busy line unchanged between two states.
    pub open spec fn same_env(pre: Interface, post: Interface) -> bool {
        &&& post.r8x == pre.r8x
        &&& post.busy == pre.busy
    }

    /// Buffers and receive bookkeeping unchanged between two states.
    pub open spec fn same_bufs(pre: Interface, post: Interface) -> bool {
        &&& post.write_buf@ == pre.write_buf@
        &&& post.read_buf@ == pre.read_buf@
        &&& post.rx_payload_len == pre.rx_payload_len
        &&& post.rx_payload_start == pre.rx_payload_start
    }

    /// The next reply exists and has exactly the frame length `n`.
    pub open spec fn reply_fits(pending: Seq<Seq<u8>>, n: int) -> bool {
        &&& pending.len() > 0
        &&& pending[0].len() == n
    }

    pub fn new(r8x: bool, replies: Vec<Vec<u8>>) -> (r: Interface)
        ensures
            r.wf(),
            r.r8x == r8x,
            !r.busy,
            r.rx_payload_len == 0,
            r.rx_payload_start == 0,
            r.ops() == Seq::<(BusOpKind, Seq<u8>)>::empty(),
            r.pending() == replies@.map_values(|v: Vec<u8>| v@),
            r.read_buf@ == Seq::new(RADIO_BUF_SIZE as nat, |i: int| 0u8),
            r.write_buf@ == Seq::new(RADIO_BUF_SIZE as nat, |i: int| 0u8),
    {
        let mut write_buf: Vec<u8> = Vec::new();
        let mut read_buf: Vec<u8> = Vec::new();
        let mut i: usize = 0;
        while i < RADIO_BUF_SIZE
            invariant
                i <= RADIO_BUF_SIZE,
                write_buf@ == Seq::new(i as nat, |j: int| 0u8),
                read_buf@ == Seq::new(i as nat, |j: int| 0u8),
            decreases RADIO_BUF_SIZE - i,
        {
            write_buf.push(0);
            read_buf.push(0);
            proof {
                assert(write_buf@ =~= Seq::new((i + 1) as nat, |j: int| 0u8));
                assert(read_buf@ =~= Seq::new((i + 1) as nat, |j: int| 0u8));
            }
            i = i + 1;
        }
        let r = Interface {
            r8x,
            busy: false,
            write_buf,
            read_buf,
            rx_payload_len: 0,
            rx_payload_start: 0,
            log: Vec::new(),
            replies,
        };
        proof {
            assert(r.ops() =~= Seq::<(BusOpKind, Seq<u8>)>::empty());
        }
        r
    }

    /// Pulse the hardware reset line.
    pub fn reset(&mut self)
        ensures
            Interface::same_env(*old(self), *final(self)),
            Interface::same_bufs(*old(self), *final(self)),
            final(self).ops() == old(self).ops().push((BusOpKind::Reset, Seq::<u8>::empty())),
            final(self).pending() == old(self).pending(),
    {
        let op = BusOp { kind: BusOpKind::Reset, frame: Vec::new() };
        self.log.push(op);
        proof {
            assert(self.ops() =~= old(self).ops().push((BusOpKind::Reset, Seq::<u8>::empty())));
        }
    }

    /// Wait for the device to release its busy line, for at most the polling
    /// cap. In this model the line either clears or never does; a line that
    /// never clears is the one hang converted to a hard error.
    pub fn wait_on_busy(&mut self) -> (r: Result<(), RadioError>)
        ensures
            *final(self) == *old(self),
            r is Ok <==> !old(self).busy,
            !old(self).busy || r == Err::<(), RadioError>(RadioError::BusyTimeout),
    {
        if self.busy {
            Err(RadioError::BusyTimeout)
        } else {
            Ok(())
        }
    }

    /// Issue a command frame; the device's simultaneous response bytes are
    /// not captured.
    pub fn write(&mut self, frame: Vec<u8>) -> (r: Result<(), RadioError>)
        ensures
            Interface::same_env(*old(self), *final(self)),
            Interface::same_bufs(*old(self), *final(self)),
            old(self).busy ==> r == Err::<(), RadioError>(RadioError::BusyTimeout) && *final(self)
                == *old(self),
            !old(self).busy ==> r is Ok && final(self).ops() == old(self).ops().push(
                (BusOpKind::Command, frame@),
            ) && final(self).pending() == old(self).pending(),
    {
        match self.wait_on_busy() {
            Err(e) => {
                return Err(e);
            },
            Ok(()) => {},
        }
        let ghost framev = frame@;
        let op = BusOp { kind: BusOpKind::Command, frame };
        self.log.push(op);
        proof {
            assert(self.ops() =~= old(self).ops().push((BusOpKind::Command, framev)));
        }
        Ok(())
    }

    /// Issue a full-duplex exchange: send `cmd` and hand back the bytes the
    /// device answers with. The scripted reply must exist and match the
    /// frame length, else the transfer is a bus fault.
    pub fn read(&mut self, cmd: Vec<u8>) -> (r: Result<Vec<u8>, RadioError>)
        ensures
            Interface::same_env(*old(self), *final(self)),
            Interface::same_bufs(*old(self), *final(self)),
            old(self).busy ==> r == Err::<Vec<u8>, RadioError>(RadioError::BusyTimeout)
                && *final(self) == *old(self),
            !old(self).busy && Interface::reply_fits(old(self).pending(), cmd@.len() as int) ==> {
                &&& r matches Ok(rep) && rep@ == old(self).pending()[0]
                &&& final(self).ops() == old(self).ops().push((BusOpKind::Exchange, cmd@))
                &&& final(self).pending() == old(self).pending().drop_first()
            },
            !old(self).busy && !Interface::reply_fits(old(self).pending(), cmd@.len() as int)
                ==> r == Err::<Vec<u8>, RadioError>(RadioError::Spi) && *final(self) == *old(self),
    {
        match self.wait_on_busy() {
            Err(e) => {
                return Err(e);
            },
            Ok(()) => {},
        }
        if self.replies.len() == 0 {
            return Err(RadioError::Spi);
        }
        if self.replies[0].len() != cmd.len() {
            return Err(RadioError::Spi);
        }
        let reply = self.replies.remove(0);
        let ghost cmdv = cmd@;
        let op = BusOp { kind: BusOpKind::Exchange, frame: cmd };
        self.log.push(op);
        proof {
            assert(self.ops() =~= old(self).ops().push((BusOpKind::Exchange, cmdv)));
            assert(self.pending() =~= old(self).pending().drop_first());
        }
        Ok(reply)
    }

    /// Perform a write to an opcode, with one byte of data.
    pub fn write_op_word(&mut self, code: OpCode, word: u8) -> (r: Result<(), RadioError>)
        ensures
            Interface::same_env(*old(self), *final(self)),
            Interface::same_bufs(*old(self), *final(self)),
            old(self).busy ==> r == Err::<(), RadioError>(RadioError::BusyTimeout) && *final(self)
                == *old(self),
            !old(self).busy ==> r is Ok && final(self).ops() == old(self).ops().push(
                (BusOpKind::Command, op_word_frame(code, word, old(self).r8x)),
            ) && final(self).pending() == old(self).pending(),
    {
        let c = code.val(self.r8x);
        let mut frame: Vec<u8> = Vec::new();
        frame.push(c);
        frame.push(word);
        proof {
            assert(frame@ =~= op_word_frame(code, word, self.r8x));
        }
        self.write(frame)
    }

    /// Perform a read of an opcode, with one byte of data at the third
    /// response slot.
    pub fn read_op_word(&mut self, code: OpCode) -> (r: Result<u8, RadioError>)
        ensures
            Interface::same_env(*old(self), *final(self)),
            Interface::same_bufs(*old(self), *final(self)),
            old(self).busy ==> r == Err::<u8, RadioError>(RadioError::BusyTimeout) && *final(self)
                == *old(self),
            !old(self).busy && Interface::reply_fits(old(self).pending(), 5) ==> {
                &&& r == Ok::<u8, RadioError>(old(self).pending()[0][2])
                &&& final(self).ops() == old(self).ops().push(
                    (BusOpKind::Exchange, op_read_frame(code, old(self).r8x)),
                )
                &&& final(self).pending() == old(self).pending().drop_first()
            },
            !old(self).busy && !Interface::reply_fits(old(self).pending(), 5) ==> r == Err::<
                u8,
                RadioError,
            >(RadioError::Spi) && *final(self) == *old(self),
    {
        let c = code.val(self.r8x);
        let mut frame: Vec<u8> = Vec::new();
        frame.push(c);
        frame.push(0);
        frame.push(0);
        frame.push(0);
        frame.push(0);
        proof {
            assert(frame@ =~= op_read_frame(code, self.r8x));
        }
        match self.read(frame) {
            Ok(reply) => Ok(reply[2]),
            Err(e) => Err(e),
        }
    }

    /// Write a single byte to a register.
    pub fn write_reg_word(&mut self, reg: Register, word: u8) -> (r: Result<(), RadioError>)
        ensures
            Interface::same_env(*old(self), *final(self)),
            Interface::same_bufs(*old(self), *final(self)),
            old(self).busy ==> r == Err::<(), RadioError>(RadioError::BusyTimeout) && *final(self)
                == *old(self),
            !old(self).busy ==> r is Ok && final(self).ops() == old(self).ops().push(
                (BusOpKind::Command, reg_write_frame(reg, word, old(self).r8x)),
            ) && final(self).pending() == old(self).pending(),
    {
        let c = OpCode::WriteRegister.val(self.r8x);
        let addr_split = split_addr(reg.addr());
        let mut frame: Vec<u8> = Vec::new();
        frame.push(c);
        frame.push(addr_split.0);
        frame.push(addr_split.1);
        frame.push(word);
        proof {
            assert(frame@ =~= reg_write_frame(reg, word, self.r8x));
        }
        self.write(frame)
    }

    /// Exchange common to the 8-bit and 16-bit register reads: the data
    /// starts at the fifth response slot.
    fn read_reg_common(&mut self, reg: Register) -> (r: Result<Vec<u8>, RadioError>)
        ensures
            Interface::same_env(*old(self), *final(self)),
            Interface::same_bufs(*old(self), *final(self)),
            old(self).busy ==> r == Err::<Vec<u8>, RadioError>(RadioError::BusyTimeout)
                && *final(self) == *old(self),
            !old(self).busy && Interface::reply_fits(old(self).pending(), 6) ==> {
                &&& r matches Ok(rep) && rep@ == old(self).pending()[0]
                &&& final(self).ops() == old(self).ops().push(
                    (BusOpKind::Exchange, reg_read_frame(reg, old(self).r8x)),
                )
                &&& final(self).pending() == old(self).pending().drop_first()
            },
            !old(self).busy && !Interface::reply_fits(old(self).pending(), 6) ==> r == Err::<
                Vec<u8>,
                RadioError,
            >(RadioError::Spi) && *final(self) == *old(self),
    {
        let c = OpCode::ReadRegister.val(self.r8x);
        let addr_split = split_addr(reg.addr());
        let mut frame: Vec<u8> = Vec::new();
        frame.push(c);
        frame.push(addr_split.0);
        frame.push(addr_split.1);
        frame.push(0);
        frame.push(0);
        frame.push(0);
        proof {
            assert(frame@ =~= reg_read_frame(reg, self.r8x));
        }
        self.read(frame)
    }

    /// Read a single 8-bit word from a register.
    pub fn read_reg_word(&mut self, reg: Register) -> (r: Result<u8, RadioError>)
        ensures
            Interface::same_env(*old(self), *final(self)),
            Interface::same_bufs(*old(self), *final(self)),
            old(self).busy ==> r == Err::<u8, RadioError>(RadioError::BusyTimeout) && *final(self)
                == *old(self),
            !old(self).busy && Interface::reply_fits(old(self).pending(), 6) ==> {
                &&& r == Ok::<u8, RadioError>(old(self).pending()[0][4])
                &&& final(self).ops() == old(self).ops().push(
                    (BusOpKind::Exchange, reg_read_frame(reg, old(self).r8x)),
                )
                &&& final(self).pending() == old(self).pending().drop_first()
            },
            !old(self).busy && !Interface::reply_fits(old(self).pending(), 6) ==> r == Err::<
                u8,
                RadioError,
            >(RadioError::Spi) && *final(self) == *old(self),
    {
        match self.read_reg_common(reg) {
            Ok(reply) => Ok(reply[4]),
            Err(e) => Err(e),
        }
    }

    /// Read a single 16-bit word from a register.
    pub fn read_reg_word_16(&mut self, reg: Register) -> (r: Result<u16, RadioError>)
        ensures
            Interface::same_env(*old(self), *final(self)),
            Interface::same_bufs(*old(self), *final(self)),
            old(self).busy ==> r == Err::<u16, RadioError>(RadioError::BusyTimeout) && *final(self)
                == *old(self),
            !old(self).busy && Interface::reply_fits(old(self).pending(), 6) ==> {
                &&& r == Ok::<u16, RadioError>(
                    spec_be16(old(self).pending()[0][4], old(self).pending()[0][5]),
                )
                &&& final(self).ops() == old(self).ops().push(
                    (BusOpKind::Exchange, reg_read_frame(reg, old(self).r8x)),
                )
                &&& final(self).pending() == old(self).pending().drop_first()
            },
            !old(self).busy && !Interface::reply_fits(old(self).pending(), 6) ==> r == Err::<
                u16,
                RadioError,
            >(RadioError::Spi) && *final(self) == *old(self),
    {
        match self.read_reg_common(reg) {
            Ok(reply) => Ok(be16(reply[4], reply[5])),
            Err(e) => Err(e),
        }
    }

    /// Stage a payload behind the write-buffer opcode and issue it as one
    /// bulk command. The staging buffer keeps a copy, as the asynchronous
    /// transfer path would send from it.
    pub fn write_with_payload(&mut self, payload: &[u8], offset: u8) -> (r: Result<
        (),
        RadioError,
    >)
        requires
            old(self).wf(),
            payload@.len() + 2 <= RADIO_BUF_SIZE,
        ensures
            final(self).wf(),
            Interface::same_env(*old(self), *final(self)),
            final(self).read_buf@ == old(self).read_buf@,
            final(self).rx_payload_len == old(self).rx_payload_len,
            final(self).rx_payload_start == old(self).rx_payload_start,
            final(self).write_buf@ == seq![
                OpCode::WriteBuffer.spec_val(old(self).r8x),
                offset,
            ] + payload@ + old(self).write_buf@.skip(payload@.len() as int + 2),
            old(self).busy ==> r == Err::<(), RadioError>(RadioError::BusyTimeout)
                && final(self).ops() == old(self).ops() && final(self).pending() == old(
                self,
            ).pending(),
            !old(self).busy ==> r is Ok && final(self).ops() == old(self).ops().push(
                (
                    BusOpKind::Command,
                    seq![OpCode::WriteBuffer.spec_val(old(self).r8x), offset] + payload@,
                ),
            ) && final(self).pending() == old(self).pending(),
    {
        let ghost orig = *self;
        let c = OpCode::WriteBuffer.val(self.r8x);
        self.write_buf.set(0, c);
        self.write_buf.set(1, offset);
        proof {
            assert(self.write_buf@ =~= seq![OpCode::WriteBuffer.spec_val(orig.r8x), offset]
                + payload@.take(0) + orig.write_buf@.skip(2));
        }
        let mut i: usize = 0;
        while i < payload.len()
            invariant
                self.wf(),
                orig.wf(),
                i <= payload@.len(),
                payload@.len() + 2 <= RADIO_BUF_SIZE,
                self.r8x == orig.r8x,
                self.busy == orig.busy,
                self.read_buf@ == orig.read_buf@,
                self.rx_payload_len == orig.rx_payload_len,
                self.rx_payload_start == orig.rx_payload_start,
                self.log@ == orig.log@,
                self.replies@ == orig.replies@,
                self.write_buf@ == seq![OpCode::WriteBuffer.spec_val(orig.r8x), offset]
                    + payload@.take(i as int) + orig.write_buf@.skip(i as int + 2),
            decreases payload@.len() - i,
        {
            let b = payload[i];
            self.write_buf.set(i + 2, b);
            proof {
                assert(self.write_buf@ =~= seq![OpCode::WriteBuffer.spec_val(orig.r8x), offset]
                    + payload@.take(i + 1) + orig.write_buf@.skip(i + 3));
            }
            i = i + 1;
        }
        let mut frame: Vec<u8> = Vec::new();
        let mut j: usize = 0;
        let frame_len = payload.len() + 2;
        while j < frame_len
            invariant
                self.wf(),
                frame_len == payload@.len() + 2,
                frame_len <= RADIO_BUF_SIZE,
                j <= frame_len,
                frame@ == self.write_buf@.take(j as int),
            decreases frame_len - j,
        {
            let b = self.write_buf[j];
            frame.push(b);
            proof {
                assert(frame@ =~= self.write_buf@.take(j + 1));
            }
            j = j + 1;
        }
        proof {
            assert(frame@ =~= seq![OpCode::WriteBuffer.spec_val(orig.r8x), offset] + payload@);
            assert(self.write_buf@ =~= seq![OpCode::WriteBuffer.spec_val(orig.r8x), offset]
                + payload@ + orig.write_buf@.skip(payload@.len() as int + 2));
        }
        self.write(frame)
    }

    /// Request a bulk payload read: the read-buffer opcode, the offset, one
    /// response slot, then one slot per payload byte. On success the whole
    /// answered frame lands at the front of the read buffer.
    pub fn read_with_payload(&mut self, payload_len: u8, offset: u8) -> (r: Result<
        (),
        RadioError,
    >)
        requires
            old(self).wf(),
            payload_len as int + 3 <= RADIO_BUF_SIZE,
        ensures
            final(self).wf(),
            Interface::same_env(*old(self), *final(self)),
            final(self).write_buf@ == old(self).write_buf@,
            final(self).rx_payload_len == old(self).rx_payload_len,
            final(self).rx_payload_start == old(self).rx_payload_start,
            old(self).busy ==> r == Err::<(), RadioError>(RadioError::BusyTimeout) && *final(self)
                == *old(self),
            !old(self).busy && Interface::reply_fits(old(self).pending(), payload_len as int + 3)
                ==> {
                &&& r is Ok
                &&& final(self).ops() == old(self).ops().push(
                    (
                        BusOpKind::Exchange,
                        seq![OpCode::ReadBuffer.spec_val(old(self).r8x), offset, 0] + Seq::new(
                            payload_len as nat,
                            |k: int| 0u8,
                        ),
                    ),
                )
                &&& final(self).pending() == old(self).pending().drop_first()
                &&& final(self).read_buf@ == old(self).pending()[0] + old(self).read_buf@.skip(
                    payload_len as int + 3,
                )
            },
            !old(self).busy && !Interface::reply_fits(old(self).pending(), payload_len as int + 3)
                ==> r == Err::<(), RadioError>(RadioError::Spi) && *final(self) == *old(self),
    {
        let c = OpCode::ReadBuffer.val(self.r8x);
        let mut frame: Vec<u8> = Vec::new();
        frame.push(c);
        frame.push(offset);
        frame.push(0);
        let mut i: usize = 0;
        while i < payload_len as usize
            invariant
                i <= payload_len as int,
                frame@ == seq![OpCode::ReadBuffer.spec_val(old(self).r8x), offset, 0] + Seq::new(
                    i as nat,
                    |k: int| 0u8,
                ),
                self == old(self),
            decreases payload_len as int - i,
        {
            frame.push(0);
            proof {
                assert(frame@ =~= seq![OpCode::ReadBuffer.spec_val(old(self).r8x), offset, 0]
                    + Seq::new((i + 1) as nat, |k: int| 0u8));
            }
            i = i + 1;
        }
        proof {
            assert(frame@.len() == payload_len as int + 3);
        }
        let reply = match self.read(frame) {
            Ok(rep) => rep,
            Err(e) => {
                return Err(e);
            },
        };
        let buf_end = payload_len as usize + 3;
        let ghost mid = *self;
        let mut j: usize = 0;
        while j < buf_end
            invariant
                self.wf(),
                j <= buf_end,
                buf_end == reply@.len(),
                buf_end <= RADIO_BUF_SIZE,
                mid.wf(),
                self.r8x == mid.r8x,
                self.busy == mid.busy,
                self.write_buf@ == mid.write_buf@,
                self.rx_payload_len == mid.rx_payload_len,
                self.rx_payload_start == mid.rx_payload_start,
                self.log@ == mid.log@,
                self.replies@ == mid.replies@,
                self.read_buf@ == reply@.take(j as int) + mid.read_buf@.skip(j as int),
            decreases buf_end - j,
        {
            self.read_buf.set(j, reply[j]);
            proof {
                assert(self.read_buf@ =~= reply@.take(j + 1) + mid.read_buf@.skip(j + 1));
            }
            j = j + 1;
        }
        proof {
            assert(self.read_buf@ =~= old(self).pending()[0] + old(self).read_buf@.skip(
                payload_len as int + 3,
            ));
        }
        Ok(())
    }

    /// Copy of the received payload, as reported by the last buffer-status
    /// read.
    pub fn rx_payload_from_buf(&self) -> (r: Vec<u8>)
        requires
            self.wf(),
        ensures
            r@ == self.read_buf@.take(self.rx_payload_len as int),
    {
        let n = self.rx_payload_len as usize;
        let mut out: Vec<u8> = Vec::new();
        let mut i: usize = 0;
        while i < n
            invariant
                i <= n,
                n <= self.read_buf@.len(),
                out@ == self.read_buf@.take(i as int),
            decreases n - i,
        {
            out.push(self.read_buf[i]);
            proof {
                assert(out@ =~= self.read_buf@.take(i + 1));
            }
            i = i + 1;
        }
        out
    }
}

} // verus!
