//! Byte buffers of the `bytes` crate, as the forwarding logic sees them.
//!
//! `BytesMut` is declared to Verus as an opaque type. What a buffer holds is
//! given the name [`buf_bytes`]; every method the library calls on a buffer
//! has a wrapper below whose contract says, over that name, what the
//! method does to the bytes and what it returns.
use vstd::prelude::*;
use bytes::BytesMut;

verus! {

#[verifier::external_type_specification]
#[verifier::external_body]
pub struct ExBytesMut(BytesMut);

/// The bytes that a `BytesMut` holds, first to last (its length is the
/// buffer's `len()`; spare capacity is not part of it).
pub uninterp spec fn buf_bytes(b: BytesMut) -> Seq<u8>;

/// After `resize(new_len, value)` a buffer holds exactly `new_len` bytes:
/// the old bytes up to that length, then copies of `value`.
pub proof fn lemma_resized_shape(old: Seq<u8>, new_len: nat, value: u8)
    ensures
        resized(old, new_len, value).len() == new_len,
        forall|i: int|
            0 <= i < new_len ==> #[trigger] resized(old, new_len, value)[i] == (if i < old.len() {
                old[i]
            } else {
                value
            }),
{
}

/// After `truncate(len)` a buffer holds its first `len` bytes, or all of
/// them when it held no more than `len`.
pub proof fn lemma_truncated_shape(old: Seq<u8>, len: nat)
    ensures
        truncated(old, len).len() == (if len <= old.len() { len } else { old.len() }),
        forall|i: int| 0 <= i < truncated(old, len).len() ==> #[trigger] truncated(old, len)[i] == old[i],
{
}

/// A sequence of `n` zero bytes.
pub open spec fn zeros(n: nat) -> Seq<u8> {
    Seq::new(n, |i: int| 0u8)
}

/// A sequence of `n` copies of `value`.
pub open spec fn filled(n: nat, value: u8) -> Seq<u8> {
    Seq::new(n, |i: int| value)
}

/// The bytes a buffer holds after `resize(new_len, value)`.
pub open spec fn resized(old: Seq<u8>, new_len: nat, value: u8) -> Seq<u8> {
    if new_len <= old.len() {
        old.take(new_len as int)
    } else {
        old + filled((new_len - old.len()) as nat, value)
    }
}

/// The bytes a buffer holds after `truncate(len)`.
pub open spec fn truncated(old: Seq<u8>, len: nat) -> Seq<u8> {
    if len <= old.len() {
        old.take(len as int)
    } else {
        old
    }
}

/// `BytesMut::zeroed`: a buffer of `len` zero bytes.
#[verifier::external_body]
pub(crate) fn buf_zeroed(len: usize) -> (b: BytesMut)
    requires
        len <= isize::MAX,
    ensures
        buf_bytes(b) == zeros(len as nat),
{
    BytesMut::zeroed(len)
}

/// `BytesMut::with_capacity`: an empty buffer (the capacity is not part of
/// what is stated).
#[verifier::external_body]
pub(crate) fn buf_with_capacity(capacity: usize) -> (b: BytesMut)
    requires
        capacity <= isize::MAX,
    ensures
        buf_bytes(b) == Seq::<u8>::empty(),
{
    BytesMut::with_capacity(capacity)
}

/// `BytesMut::from(&[u8])`: a buffer holding a copy of the slice.
#[verifier::external_body]
pub(crate) fn buf_from_slice(src: &[u8]) -> (b: BytesMut)
    ensures
        buf_bytes(b) == src@,
{
    BytesMut::from(src)
}

/// `BytesMut::len`: the number of bytes held. A `BytesMut` is backed by a
/// `Vec<u8>`, which never allocates more than `isize::MAX` bytes.
#[verifier::external_body]
pub(crate) fn buf_len(b: &BytesMut) -> (n: usize)
    ensures
        n == buf_bytes(*b).len(),
        n <= isize::MAX,
{
    b.len()
}

/// `<BytesMut as AsRef<[u8]>>::as_ref`: the held bytes as a slice.
#[verifier::external_body]
pub(crate) fn buf_as_slice(b: &BytesMut) -> (s: &[u8])
    ensures
        s@ == buf_bytes(*b),
{
    b.as_ref()
}

/// `BytesMut::clear`: the buffer holds no bytes afterwards.
#[verifier::external_body]
pub(crate) fn buf_clear(b: &mut BytesMut)
    ensures
        buf_bytes(*final(b)) == Seq::<u8>::empty(),
{
    b.clear()
}

/// `BytesMut::resize`: truncates to `new_len`, or pads with `value` up to it.
#[verifier::external_body]
pub(crate) fn buf_resize(b: &mut BytesMut, new_len: usize, value: u8)
    requires
        new_len <= isize::MAX,
    ensures
        buf_bytes(*final(b)) == resized(buf_bytes(*old(b)), new_len as nat, value),
{
    b.resize(new_len, value)
}

/// `BytesMut::extend_from_slice`: appends a copy of the slice.
#[verifier::external_body]
pub(crate) fn buf_extend_from_slice(b: &mut BytesMut, extend: &[u8])
    requires
        buf_bytes(*old(b)).len() + extend@.len() <= isize::MAX,
    ensures
        buf_bytes(*final(b)) == buf_bytes(*old(b)) + extend@,
{
    b.extend_from_slice(extend)
}

/// `BytesMut::truncate`: keeps the first `len` bytes (no effect when the
/// buffer is not longer than `len`).
#[verifier::external_body]
pub(crate) fn buf_truncate(b: &mut BytesMut, len: usize)
    ensures
        buf_bytes(*final(b)) == truncated(buf_bytes(*old(b)), len as nat),
{
    b.truncate(len)
}

} // verus!
