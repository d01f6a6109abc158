//! The driver's two fixed-capacity byte buffers, held in `arrayvec::ArrayVec`.
//!
//! The transmit-assembly buffer holds 128 bytes and the receive buffer 1024. What each
//! holds is named by `tx_bytes` and `rx_bytes`; the functions below are the only calls
//! into `arrayvec` and state what they do to those contents.
use vstd::prelude::*;
use crate::utils::CommandWriter;

verus! {

#[verifier::external_type_specification]
#[verifier::external_body]
#[verifier::reject_recursive_types(T)]
pub struct ExArrayVec<T, const CAP: usize>(arrayvec::ArrayVec<T, CAP>);

/// The bytes held by a transmit-assembly buffer, in order.
pub uninterp spec fn tx_bytes(v: arrayvec::ArrayVec<u8, 128>) -> Seq<u8>;

/// The bytes held by a receive buffer, in order.
pub uninterp spec fn rx_bytes(v: arrayvec::ArrayVec<u8, 1024>) -> Seq<u8>;

/// Relies on `ArrayVec::new`: the new vector is empty.
#[verifier::external_body]
pub(crate) fn tx_new() -> (r: arrayvec::ArrayVec<u8, 128>)
    ensures
        tx_bytes(r) == Seq::<u8>::empty(),
{
    arrayvec::ArrayVec::new()
}

/// Relies on `ArrayVec::clear`: every element is removed.
#[verifier::external_body]
pub(crate) fn tx_clear(v: &mut arrayvec::ArrayVec<u8, 128>)
    ensures
        tx_bytes(*final(v)) == Seq::<u8>::empty(),
{
    v.clear()
}

/// Relies on `ArrayVec::push`: the byte is appended; it panics only on a full vector.
#[verifier::external_body]
pub(crate) fn tx_push(v: &mut arrayvec::ArrayVec<u8, 128>, byte: u8)
    requires
        tx_bytes(*old(v)).len() < 128,
    ensures
        tx_bytes(*final(v)) == tx_bytes(*old(v)).push(byte),
{
    v.push(byte)
}

/// Relies on `ArrayVec::as_slice`: a slice of every element, in order.
#[verifier::external_body]
pub(crate) fn tx_as_slice(v: &arrayvec::ArrayVec<u8, 128>) -> (r: &[u8])
    ensures
        r@ == tx_bytes(*v),
{
    v.as_slice()
}

/// Relies on `ArrayVec::new`: the new vector is empty.
#[verifier::external_body]
pub(crate) fn rx_new() -> (r: arrayvec::ArrayVec<u8, 1024>)
    ensures
        rx_bytes(r) == Seq::<u8>::empty(),
{
    arrayvec::ArrayVec::new()
}

/// Relies on `ArrayVec::clear`: every element is removed.
#[verifier::external_body]
pub(crate) fn rx_clear(v: &mut arrayvec::ArrayVec<u8, 1024>)
    ensures
        rx_bytes(*final(v)) == Seq::<u8>::empty(),
{
    v.clear()
}

/// Relies on `ArrayVec::push`: the byte is appended; it panics only on a full vector.
#[verifier::external_body]
pub(crate) fn rx_push(v: &mut arrayvec::ArrayVec<u8, 1024>, byte: u8)
    requires
        rx_bytes(*old(v)).len() < 1024,
    ensures
        rx_bytes(*final(v)) == rx_bytes(*old(v)).push(byte),
{
    v.push(byte)
}

/// Relies on `ArrayVec::as_slice`: a slice of every element, in order.
#[verifier::external_body]
pub(crate) fn rx_as_slice(v: &arrayvec::ArrayVec<u8, 1024>) -> (r: &[u8])
    ensures
        r@ == rx_bytes(*v),
{
    v.as_slice()
}

/// A transmit-assembly buffer is itself a sink for command bytes.
impl CommandWriter for arrayvec::ArrayVec<u8, 128> {
    open spec fn written(&self) -> Seq<u8> {
        tx_bytes(*self)
    }

    open spec fn capacity(&self) -> nat {
        128
    }

    fn write_cmd_bytes(&mut self, bytes: &[u8]) {
        let ghost start = tx_bytes(*self);
        let mut i: usize = 0;
        while i < bytes.len()
            invariant
                0 <= i <= bytes@.len(),
                start.len() + bytes@.len() <= 128,
                tx_bytes(*self) == start + bytes@.subrange(0, i as int),
            decreases bytes@.len() - i,
        {
            tx_push(self, bytes[i]);
            assert(start + bytes@.subrange(0, i + 1) =~= (start + bytes@.subrange(0, i as int)).push(
                bytes@[i as int],
            ));
            i += 1;
        }
        assert(bytes@.subrange(0, bytes@.len() as int) =~= bytes@);
    }
}

} // verus!
