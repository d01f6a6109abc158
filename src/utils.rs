//! The encoding and decoding traits and the error taxonomy of the driver.
use vstd::prelude::*;

verus! {

/// Decodes a value from a whole received packet.
pub trait FromPayload: Sized {
    /// What `payload` decodes to.
    spec fn decoded(payload: Seq<u8>) -> Result<Self, PayloadError>;

    fn from_payload(payload: &[u8]) -> (r: Result<Self, PayloadError>)
        ensures
            r == Self::decoded(payload@),
    ;
}

/// A sink that command encoders append bytes to (typically, a `R502`).
pub trait CommandWriter {
    /// The bytes appended so far.
    spec fn written(&self) -> Seq<u8>;

    /// How many bytes the sink can hold in all.
    spec fn capacity(&self) -> nat;

    fn write_cmd_bytes(&mut self, bytes: &[u8])
        requires
            old(self).written().len() + bytes@.len() <= old(self).capacity(),
        ensures
            final(self).written() == old(self).written() + bytes@,
            final(self).capacity() == old(self).capacity(),
    ;
}

/// Serialises a value into a `CommandWriter`, so that byte-level details stay out of
/// the driver itself.
pub trait ToPayload {
    /// The bytes that `to_payload` appends.
    spec fn payload(&self) -> Seq<u8>;

    fn to_payload<W: CommandWriter>(&self, writer: &mut W)
        requires
            old(writer).written().len() + self.payload().len() <= old(writer).capacity(),
        ensures
            final(writer).written() == old(writer).written() + self.payload(),
            final(writer).capacity() == old(writer).capacity(),
    ;
}

/// Why a received packet could not be decoded as the reply that was expected.
#[derive(Debug, Clone, Copy, PartialEq, Eq, Structural)]
pub enum PayloadError {
    /// The packet is too short to hold every field of the reply.
    MalformedReply,
    /// The status byte is none of those that this kind of reply defines.
    UnknownStatusCode(u8),
}

/// Error type for low-level R502 operations. Wraps transport-level errors as well.
///
/// `TXE` and `RXE` are the error types of the serial port's transmit and receive halves.
#[derive(Debug)]
pub enum Error<TXE, RXE> {
    /// Error writing data to the R502. The wrapped error says more.
    WriteError(TXE),
    /// Error reading data from the R502. The wrapped error says more.
    RecvReadError(RXE),
    /// _Something_ was received but it was too short to tell what it was.
    RecvPacketTooShort,
    /// There was no request in flight when a packet was received.
    RecvUnsolicitedReply,
    /// A packet of unexpected type was received instead of the reply.
    RecvWrongReplyType,
    /// The reply carried a status byte that its kind does not define.
    RecvUnknownStatusCode(u8),
    /// The reply was too short for the fields of its kind.
    RecvMalformedReply,
}

impl<TXE, RXE> Error<TXE, RXE> {
    /// The driver error that stands for a decoding failure.
    pub fn from_payload_error(e: PayloadError) -> (r: Self)
        ensures
            r == Self::of_payload_error(e),
    {
        match e {
            PayloadError::MalformedReply => Error::RecvMalformedReply,
            PayloadError::UnknownStatusCode(b) => Error::RecvUnknownStatusCode(b),
        }
    }

    pub open spec fn of_payload_error(e: PayloadError) -> Self {
        match e {
            PayloadError::MalformedReply => Error::RecvMalformedReply,
            PayloadError::UnknownStatusCode(b) => Error::RecvUnknownStatusCode(b),
        }
    }
}

} // verus!
