//! The R502 driver: packet framing, reply reception and reply dispatch.
//!
//! The driver holds the device address, the serial port's two halves, a 128-byte
//! transmit-assembly buffer, a 1024-byte receive buffer and the one command in flight.
//! It performs no I/O itself: a caller frames a command with `prepare_cmd`, writes
//! `cmd_bytes` to the port, hands every byte read back to `receive_byte` while
//! `reply_pending` holds, and then decodes the reply with `parse_reply`.
use vstd::prelude::*;
use vstd::arithmetic::div_mod::{lemma_add_mod_noop, lemma_small_mod};
use crate::buffer::{
    rx_as_slice, rx_bytes, rx_clear, rx_new, rx_push, tx_as_slice, tx_bytes, tx_clear, tx_new,
};
use crate::commands::Command;
use crate::responses::Reply;
use crate::utils::{CommandWriter, Error, ToPayload};
use crate::wire::{be16_at, be16_bytes, be16_encode, be32_bytes, be32_encode, byte_sum, checksum};

verus! {

/// Capacity of the transmit-assembly buffer, in bytes.
pub const CMD_CAPACITY: usize = 128;

/// Capacity of the receive buffer, in bytes.
pub const RECEIVE_CAPACITY: usize = 1024;

/// Length of a reply's fixed header: magic, address, packet type and length field.
pub const REPLY_HEADER_LENGTH: usize = 9;

/// The packet-type byte of a command packet.
pub const PACKET_COMMAND: u8 = 0x01;

/// The packet-type byte of a reply packet.
pub const PACKET_REPLY: u8 = 0x07;

/// The part of a command packet that its checksum covers: packet type, length field and
/// payload. The length counts the payload and the two checksum bytes.
pub open spec fn checked_body(cmd: Command) -> Seq<u8> {
    seq![PACKET_COMMAND] + be16_bytes((cmd.payload().len() + 2) as u16) + cmd.payload()
}

/// The whole packet that sends `cmd` to the device at `address`.
pub open spec fn command_packet(address: u32, cmd: Command) -> Seq<u8> {
    seq![0xEFu8, 0x01u8] + be32_bytes(address) + checked_body(cmd) + be16_bytes(
        checksum(checked_body(cmd)),
    )
}

/// How many bytes the reply whose first bytes are `received` has in all: the 9-byte header,
/// then as many bytes as the header's length field declares.
pub open spec fn reply_len(received: Seq<u8>) -> int {
    if received.len() < REPLY_HEADER_LENGTH {
        REPLY_HEADER_LENGTH as int
    } else {
        REPLY_HEADER_LENGTH + be16_at(received, 7)
    }
}

/// What decoding the packet `received` gives when `inflight` is the command in flight.
pub open spec fn reply_outcome<TXE, RXE>(inflight: Option<Command>, received: Seq<u8>) -> Result<
    Reply,
    Error<TXE, RXE>,
> {
    if received.len() < 7 {
        Err(Error::RecvPacketTooShort)
    } else {
        match inflight {
            None => Err(Error::RecvUnsolicitedReply),
            Some(cmd) => if received[6] != PACKET_REPLY {
                Err(Error::RecvWrongReplyType)
            } else {
                match Reply::decoded_for(cmd, received) {
                    Ok(r) => Ok(r),
                    Err(e) => Err(Error::of_payload_error(e)),
                }
            },
        }
    }
}

/// Represents a R502 device connected to a U(S)ART.
///
/// A R502 has an address, so that one line may in principle serve several sensors; this
/// driver only carries the address.
#[derive(Debug)]
pub struct R502<TX, RX> {
    address: u32,
    /// The transmit half of the serial port.
    pub tx: TX,
    /// The receive half of the serial port.
    pub rx: RX,
    received: arrayvec::ArrayVec<u8, 1024>,
    cmd_buffer: arrayvec::ArrayVec<u8, 128>,
    inflight_request: Option<Command>,
}

impl<TX, RX> CommandWriter for R502<TX, RX> {
    closed spec fn written(&self) -> Seq<u8> {
        tx_bytes(self.cmd_buffer)
    }

    open spec fn capacity(&self) -> nat {
        CMD_CAPACITY as nat
    }

    fn write_cmd_bytes(&mut self, bytes: &[u8])
        ensures
            final(self).address() == old(self).address(),
            final(self).received() == old(self).received(),
            final(self).inflight() == old(self).inflight(),
    {
        self.cmd_buffer.write_cmd_bytes(bytes);
    }
}

impl<TX, RX> R502<TX, RX> {
    /// The device address that packets are framed with.
    pub closed spec fn address(&self) -> u32 {
        self.address
    }

    /// The bytes held by the receive buffer.
    pub closed spec fn received(&self) -> Seq<u8> {
        rx_bytes(self.received)
    }

    /// The command whose reply is expected next.
    pub closed spec fn inflight(&self) -> Option<Command> {
        self.inflight_request
    }

    /// Creates an instance of the R502. `tx` and `rx` are the transmit and receive halves
    /// of a USART, and `address` is the R502 address (by default `0xffffffff`).
    pub fn new(tx: TX, rx: RX, address: u32) -> (r: Self)
        ensures
            r.address() == address,
            r.written() == Seq::<u8>::empty(),
            r.received() == Seq::<u8>::empty(),
            r.inflight() == None::<Command>,
    {
        R502 {
            address,
            tx,
            rx,
            received: rx_new(),
            cmd_buffer: tx_new(),
            inflight_request: None,
        }
    }

    /// Empties both buffers; the command in flight stays as it is.
    pub fn clear_buffers(&mut self)
        ensures
            final(self).written() == Seq::<u8>::empty(),
            final(self).received() == Seq::<u8>::empty(),
            final(self).address() == old(self).address(),
            final(self).inflight() == old(self).inflight(),
    {
        tx_clear(&mut self.cmd_buffer);
        rx_clear(&mut self.received);
    }

    /// The bytes of the command packet assembled so far.
    pub fn cmd_bytes(&self) -> (r: &[u8])
        ensures
            r@ == self.written(),
    {
        tx_as_slice(&self.cmd_buffer)
    }

    /// The bytes of the reply received so far.
    pub fn received_bytes(&self) -> (r: &[u8])
        ensures
            r@ == self.received(),
    {
        rx_as_slice(&self.received)
    }

    /// Appends the packet header: the magic bytes `EF 01` and `address`, big-endian.
    fn write_header(&mut self, address: u32)
        requires
            old(self).written().len() + 6 <= CMD_CAPACITY,
        ensures
            final(self).written() == old(self).written() + seq![0xEFu8, 0x01u8] + be32_bytes(
                address,
            ),
            final(self).address() == old(self).address(),
            final(self).received() == old(self).received(),
            final(self).inflight() == old(self).inflight(),
    {
        self.write_cmd_bytes(&[0xEF, 0x01]);
        self.write_cmd_bytes(&be32_encode(address));
    }

    /// The checksum of the command packet assembled so far: the sum, modulo 2^16, of
    /// every byte after the header and address.
    pub fn compute_checksum(&self) -> (r: u16)
        requires
            self.written().len() >= 6,
        ensures
            r == checksum(self.written().subrange(6, self.written().len() as int)),
    {
        let bytes = tx_as_slice(&self.cmd_buffer);
        let mut sum: u16 = 0;
        let mut i: usize = 6;
        while i < bytes.len()
            invariant
                6 <= i <= bytes@.len(),
                sum == checksum(bytes@.subrange(6, i as int)),
            decreases bytes@.len() - i,
        {
            let ghost before = bytes@.subrange(6, i as int);
            let ghost after = bytes@.subrange(6, i + 1);
            assert(after.drop_last() =~= before);
            proof {
                lemma_small_mod(bytes@[i as int] as nat, 0x1_0000);
                lemma_add_mod_noop(byte_sum(before) as int, bytes@[i as int] as int, 0x1_0000);
            }
            sum = ((sum as u32 + bytes[i] as u32) % 0x1_0000) as u16;
            i += 1;
        }
        sum
    }

    /// Frames `cmd` for this device into the transmit-assembly buffer, replacing what it
    /// held, and records `cmd` as the command in flight.
    pub fn prepare_cmd(&mut self, cmd: Command)
        ensures
            final(self).written() == command_packet(old(self).address(), cmd),
            final(self).inflight() == Some(cmd),
            final(self).address() == old(self).address(),
            final(self).received() == old(self).received(),
    {
        tx_clear(&mut self.cmd_buffer);
        self.write_header(self.address);
        self.write_cmd_bytes(&[PACKET_COMMAND]);
        let len = cmd.payload_len() + 2;
        self.write_cmd_bytes(&be16_encode(len));
        cmd.to_payload(&mut self.cmd_buffer);
        let ghost framed = self.written();
        assert(framed.subrange(6, framed.len() as int) =~= checked_body(cmd));
        let chk = self.compute_checksum();
        self.write_cmd_bytes(&be16_encode(chk));
        self.inflight_request = Some(cmd);
        assert(self.written() =~= command_packet(self.address, cmd));
    }

    /// True while the reply is not complete: fewer than 9 bytes are in, or fewer than the
    /// header's length field announces after them.
    pub fn reply_pending(&self) -> (r: bool)
        ensures
            r == (self.received().len() < reply_len(self.received())),
    {
        let bytes = rx_as_slice(&self.received);
        if bytes.len() < REPLY_HEADER_LENGTH {
            true
        } else {
            let length = crate::wire::read_be16(bytes, 7) as usize;
            bytes.len() - REPLY_HEADER_LENGTH < length
        }
    }

    /// Appends a byte read from the serial port to the receive buffer.
    pub fn receive_byte(&mut self, byte: u8)
        requires
            old(self).received().len() < RECEIVE_CAPACITY,
        ensures
            final(self).received() == old(self).received().push(byte),
            final(self).written() == old(self).written(),
            final(self).address() == old(self).address(),
            final(self).inflight() == old(self).inflight(),
    {
        rx_push(&mut self.received, byte);
    }

    /// Decodes the received packet as the reply to the command in flight.
    ///
    /// The checks come in this order: fewer than 7 bytes is `RecvPacketTooShort`; no
    /// command in flight is `RecvUnsolicitedReply`; a packet-type byte other than `0x07` is
    /// `RecvWrongReplyType`. Otherwise the decoder of the command in flight decides.
    pub fn parse_reply<TXE, RXE>(&self) -> (r: Result<Reply, Error<TXE, RXE>>)
        ensures
            r == reply_outcome::<TXE, RXE>(self.inflight(), self.received()),
            self.received().len() < 7 ==> r == Err::<Reply, Error<TXE, RXE>>(
                Error::RecvPacketTooShort,
            ),
            self.received().len() >= 7 && self.inflight() is None ==> r == Err::<
                Reply,
                Error<TXE, RXE>,
            >(Error::RecvUnsolicitedReply),
            self.received().len() >= 7 && self.inflight() is Some && self.received()[6]
                != PACKET_REPLY ==> r == Err::<Reply, Error<TXE, RXE>>(Error::RecvWrongReplyType),
            r matches Ok(reply) ==> reply.answers(self.inflight()->0),
    {
        let bytes = rx_as_slice(&self.received);
        if bytes.len() < 7 {
            return Err(Error::RecvPacketTooShort);
        }
        match &self.inflight_request {
            None => Err(Error::RecvUnsolicitedReply),
            Some(cmd) => {
                if bytes[6] != PACKET_REPLY {
                    return Err(Error::RecvWrongReplyType);
                }
                proof {
                    crate::responses::lemma_decoded_reply_answers_command(*cmd, bytes@);
                }
                match Reply::from_packet(cmd, bytes) {
                    Ok(reply) => Ok(reply),
                    Err(e) => Err(Error::from_payload_error(e)),
                }
            },
        }
    }
}

/// Dispatch correctness: with `cmd` in flight, a received packet that is a well-formed reply
/// to it (reply type, long enough for its kind, a confirmation code that its kind defines)
/// decodes, and whatever decodes is the kind of reply that `cmd` asks for.
pub proof fn lemma_reply_matches_command<TXE, RXE>(cmd: Command, received: Seq<u8>)
    ensures
        received.len() >= Reply::min_len(cmd) && received[6] == PACKET_REPLY
            && Reply::status_defined(cmd, received[9]) ==> reply_outcome::<TXE, RXE>(
            Some(cmd),
            received,
        ) is Ok,
        reply_outcome::<TXE, RXE>(Some(cmd), received) matches Ok(r) ==> r.answers(cmd),
{
    crate::responses::lemma_decoded_reply_answers_command(cmd, received);
}

/// A well-framed reply whose confirmation code its kind does not define is reported as
/// `RecvUnknownStatusCode` with that byte.
pub proof fn lemma_unknown_status_is_reported<TXE, RXE>(cmd: Command, received: Seq<u8>)
    requires
        received.len() >= Reply::min_len(cmd),
        received[6] == PACKET_REPLY,
        !Reply::status_defined(cmd, received[9]),
    ensures
        reply_outcome::<TXE, RXE>(Some(cmd), received) == Err::<Reply, Error<TXE, RXE>>(
            Error::RecvUnknownStatusCode(received[9]),
        ),
{
}

} // verus!
