//! What the forwarder does to packet bytes between a device read and a
//! device write: taking the received bytes out of the receive buffers, and
//! putting the virtio header space in front of a packet for an offload
//! write.
use vstd::prelude::*;
use vstd::slice::slice_subrange;
use bytes::BytesMut;
use crate::buf::{
    buf_as_slice, buf_bytes, buf_clear, buf_extend_from_slice, buf_from_slice, buf_len, buf_resize,
    buf_truncate, buf_with_capacity, buf_zeroed, resized, truncated, zeros,
};
use crate::offload::{spec_virtio_net_hdr_len, virtio_net_hdr_len};

verus! {

/// A batched read returned no packet: the device reached its end.
#[derive(PartialEq, Eq, Structural, Debug, Clone, Copy)]
pub enum RecvError {
    Eof,
}

/// The bytes that a device write at `offset` hands to the device.
pub open spec fn payload(frame: Seq<u8>, offset: nat) -> Seq<u8> {
    frame.skip(offset as int)
}

/// A packet with zeroed virtio header space in front of it.
pub open spec fn framed(packet: Seq<u8>) -> Seq<u8> {
    zeros(spec_virtio_net_hdr_len() as nat) + packet
}

/// A batched read said that the `i`-th of the first `num` buffers holds
/// `sizes[i]` packet bytes after `offset` bytes of room: those all lie
/// inside the buffers.
pub open spec fn segments_fit(bufs: Seq<BytesMut>, sizes: Seq<usize>, num: nat, offset: nat) -> bool {
    &&& num <= bufs.len()
    &&& num <= sizes.len()
    &&& forall|i: int| 0 <= i < num ==> offset + #[trigger] sizes[i] <= buf_bytes(bufs[i]).len()
}

/// The `i`-th segment of a batched read, room in front included.
pub open spec fn segment(bufs: Seq<BytesMut>, sizes: Seq<usize>, offset: nat, i: int) -> Seq<u8> {
    buf_bytes(bufs[i]).take(offset + sizes[i])
}

/// The packet bytes of the `i`-th segment of a batched read.
pub open spec fn segment_data(bufs: Seq<BytesMut>, sizes: Seq<usize>, offset: nat, i: int) -> Seq<u8> {
    buf_bytes(bufs[i]).subrange(offset as int, offset + sizes[i])
}

/// A segment copied out of a batched read is the first `offset + sizes[i]`
/// bytes of its buffer, and its packet bytes are the `sizes[i]` bytes after
/// the first `offset`.
pub proof fn lemma_segment_shape(bufs: Seq<BytesMut>, sizes: Seq<usize>, num: nat, offset: nat, i: int)
    requires
        segments_fit(bufs, sizes, num, offset),
        0 <= i < num,
    ensures
        segment(bufs, sizes, offset, i).len() == offset + sizes[i],
        forall|j: int|
            0 <= j < offset + sizes[i] ==> #[trigger] segment(bufs, sizes, offset, i)[j] == buf_bytes(
                bufs[i],
            )[j],
        segment_data(bufs, sizes, offset, i).len() == sizes[i],
        forall|j: int|
            0 <= j < sizes[i] ==> #[trigger] segment_data(bufs, sizes, offset, i)[j] == buf_bytes(
                bufs[i],
            )[offset + j],
{
    assert(offset + sizes[i] <= buf_bytes(bufs[i]).len());
}

/// A framed packet is ten bytes longer than the packet, its first ten bytes
/// (the virtio header: no segmentation, no checksum offload) are all zero,
/// and the packet follows them unchanged.
pub proof fn lemma_framed_header_is_zero(packet: Seq<u8>)
    ensures
        framed(packet).len() == 10 + packet.len(),
        forall|i: int| 0 <= i < 10 ==> #[trigger] framed(packet)[i] == 0u8,
        framed(packet).skip(10) == packet,
{
    assert(framed(packet).skip(10) =~= packet);
}

/// A framed packet, written at the virtio header offset, hands the device
/// exactly the packet.
pub proof fn lemma_framed_payload(packet: Seq<u8>)
    ensures
        payload(framed(packet), spec_virtio_net_hdr_len() as nat) == packet,
{
    assert(payload(framed(packet), spec_virtio_net_hdr_len() as nat) =~= packet);
}

/// A segment copied out of a batched read (room in front included), written
/// at the same offset, hands the device exactly the packet bytes that the
/// read put into its buffer.
pub proof fn lemma_segment_payload(bufs: Seq<BytesMut>, sizes: Seq<usize>, num: nat, offset: nat, i: int)
    requires
        segments_fit(bufs, sizes, num, offset),
        0 <= i < num,
    ensures
        payload(segment(bufs, sizes, offset, i), offset) == segment_data(bufs, sizes, offset, i),
{
    assert(offset + sizes[i] <= buf_bytes(bufs[i]).len());
    assert(payload(segment(bufs, sizes, offset, i), offset) =~= segment_data(bufs, sizes, offset, i));
}

/// A segment read without room in front and then framed, written at the
/// virtio header offset, hands the device exactly the packet bytes that the
/// read put into its buffer.
pub proof fn lemma_reframed_segment_payload(bufs: Seq<BytesMut>, sizes: Seq<usize>, num: nat, i: int)
    requires
        segments_fit(bufs, sizes, num, 0),
        0 <= i < num,
    ensures
        payload(framed(segment(bufs, sizes, 0, i)), spec_virtio_net_hdr_len() as nat)
            == segment_data(bufs, sizes, 0, i),
{
    lemma_framed_payload(segment(bufs, sizes, 0, i));
    assert(sizes[i] <= buf_bytes(bufs[i]).len());
    assert(segment(bufs, sizes, 0, i) =~= segment_data(bufs, sizes, 0, i));
}

/// A buffer of a batched read cut down to its segment, written at the
/// read's offset, hands the device exactly the packet bytes that the read
/// put into it.
pub proof fn lemma_trimmed_payload(bufs: Seq<BytesMut>, sizes: Seq<usize>, num: nat, offset: nat, i: int)
    requires
        segments_fit(bufs, sizes, num, offset),
        0 <= i < num,
    ensures
        payload(truncated(buf_bytes(bufs[i]), (offset + sizes[i]) as nat), offset)
            == segment_data(bufs, sizes, offset, i),
{
    assert(offset + sizes[i] <= buf_bytes(bufs[i]).len());
    assert(payload(truncated(buf_bytes(bufs[i]), (offset + sizes[i]) as nat), offset)
        =~= segment_data(bufs, sizes, offset, i));
}

/// The bytes of a single read of `len` bytes into `buf`.
pub fn received(buf: &[u8], len: usize) -> (packet: &[u8])
    requires
        len <= buf@.len(),
    ensures
        packet@ == buf@.take(len as int),
{
    slice_subrange(buf, 0, len)
}

/// A buffer holding the bytes of a single read of `len` bytes into `buf`.
pub fn packet_from_received(buf: &[u8], len: usize) -> (packet: BytesMut)
    requires
        len <= buf@.len(),
    ensures
        buf_bytes(packet) == buf@.take(len as int),
{
    buf_from_slice(received(buf, len))
}

/// `count` buffers of `len` zero bytes each, for a batched read.
pub fn zeroed_buffers(count: usize, len: usize) -> (bufs: Vec<BytesMut>)
    requires
        len <= isize::MAX,
    ensures
        bufs@.len() == count,
        forall|i: int| 0 <= i < count ==> buf_bytes(#[trigger] bufs@[i]) == zeros(len as nat),
{
    let mut bufs: Vec<BytesMut> = Vec::new();
    let mut k: usize = 0;
    while k < count
        invariant
            k <= count,
            len <= isize::MAX,
            bufs@.len() == k,
            forall|i: int| 0 <= i < k ==> buf_bytes(#[trigger] bufs@[i]) == zeros(len as nat),
        decreases count - k,
    {
        bufs.push(buf_zeroed(len));
        k = k + 1;
    }
    bufs
}

/// `count` empty buffers with room for `capacity` bytes each.
pub fn empty_buffers(count: usize, capacity: usize) -> (bufs: Vec<BytesMut>)
    requires
        capacity <= isize::MAX,
    ensures
        bufs@.len() == count,
        forall|i: int| 0 <= i < count ==> buf_bytes(#[trigger] bufs@[i]) == Seq::<u8>::empty(),
{
    let mut bufs: Vec<BytesMut> = Vec::new();
    let mut k: usize = 0;
    while k < count
        invariant
            k <= count,
            capacity <= isize::MAX,
            bufs@.len() == k,
            forall|i: int| 0 <= i < k ==> buf_bytes(#[trigger] bufs@[i]) == Seq::<u8>::empty(),
        decreases count - k,
    {
        bufs.push(buf_with_capacity(capacity));
        k = k + 1;
    }
    bufs
}

/// The segments of a batched read that returned `num`, each copied into a
/// buffer of its own with room for `reserve` bytes: the first
/// `offset + sizes[i]` bytes of `bufs[i]`. A read that returned no segment
/// is the end of the device.
pub fn collect_segments(
    bufs: &Vec<BytesMut>,
    sizes: &Vec<usize>,
    num: usize,
    offset: usize,
    reserve: usize,
) -> (r: Result<Vec<BytesMut>, RecvError>)
    requires
        segments_fit(bufs@, sizes@, num as nat, offset as nat),
        reserve <= isize::MAX,
    ensures
        num == 0 <==> r is Err,
        r matches Ok(packets) ==> {
            &&& packets@.len() == num
            &&& forall|i: int|
                0 <= i < num ==> buf_bytes(#[trigger] packets@[i]) == segment(
                    bufs@,
                    sizes@,
                    offset as nat,
                    i,
                )
        },
{
    if num == 0 {
        return Err(RecvError::Eof);
    }
    let mut packets: Vec<BytesMut> = Vec::with_capacity(num);
    let mut k: usize = 0;
    while k < num
        invariant
            k <= num,
            reserve <= isize::MAX,
            segments_fit(bufs@, sizes@, num as nat, offset as nat),
            packets@.len() == k,
            forall|i: int|
                0 <= i < k ==> buf_bytes(#[trigger] packets@[i]) == segment(
                    bufs@,
                    sizes@,
                    offset as nat,
                    i,
                ),
        decreases num - k,
    {
        let src = &bufs[k];
        let size = sizes[k];
        let held_len = buf_len(src);
        assert(offset + size <= held_len);
        let end = offset + size;
        let bytes = slice_subrange(buf_as_slice(src), 0, end);
        let mut packet = buf_with_capacity(reserve);
        buf_extend_from_slice(&mut packet, bytes);
        assert(Seq::<u8>::empty() + bytes@ =~= bytes@);
        packets.push(packet);
        k = k + 1;
    }
    Ok(packets)
}

/// Makes `dst` hold `packet` after zeroed virtio header space.
pub fn frame_packet(dst: &mut BytesMut, packet: &BytesMut)
    requires
        buf_bytes(*packet).len() + spec_virtio_net_hdr_len() <= isize::MAX,
    ensures
        buf_bytes(*final(dst)) == framed(buf_bytes(*packet)),
        buf_bytes(*final(dst)).len() == 10 + buf_bytes(*packet).len(),
        forall|i: int| 0 <= i < 10 ==> #[trigger] buf_bytes(*final(dst))[i] == 0u8,
        buf_bytes(*final(dst)).skip(10) == buf_bytes(*packet),
{
    proof {
        lemma_framed_header_is_zero(buf_bytes(*packet));
    }
    let hdr = virtio_net_hdr_len();
    buf_clear(dst);
    buf_resize(dst, hdr, 0);
    assert(resized(Seq::<u8>::empty(), hdr as nat, 0) =~= zeros(hdr as nat));
    buf_extend_from_slice(dst, buf_as_slice(packet));
}

/// Makes the first `batch.len()` buffers of `send_bufs` hold the packets
/// of `batch`, each after zeroed virtio header space, and returns how many
/// buffers now hold a packet. The other buffers are left as they were.
pub fn frame_batch(send_bufs: &mut Vec<BytesMut>, batch: &Vec<BytesMut>) -> (n: usize)
    requires
        batch@.len() <= old(send_bufs)@.len(),
        forall|i: int|
            0 <= i < batch@.len() ==> buf_bytes(#[trigger] batch@[i]).len()
                + spec_virtio_net_hdr_len() <= isize::MAX,
    ensures
        n == batch@.len(),
        final(send_bufs)@.len() == old(send_bufs)@.len(),
        forall|i: int| 0 <= i < n ==> buf_bytes(#[trigger] final(send_bufs)@[i]) == framed(buf_bytes(batch@[i])),
        forall|i: int| n <= i < final(send_bufs)@.len() ==> #[trigger] final(send_bufs)@[i] == old(send_bufs)@[i],
{
    let mut k: usize = 0;
    while k < batch.len()
        invariant
            k <= batch@.len(),
            batch@.len() <= send_bufs@.len(),
            send_bufs@.len() == old(send_bufs)@.len(),
            forall|i: int|
                0 <= i < batch@.len() ==> buf_bytes(#[trigger] batch@[i]).len()
                    + spec_virtio_net_hdr_len() <= isize::MAX,
            forall|i: int| 0 <= i < k ==> buf_bytes(#[trigger] send_bufs@[i]) == framed(buf_bytes(batch@[i])),
            forall|i: int| k <= i < send_bufs@.len() ==> #[trigger] send_bufs@[i] == old(send_bufs)@[i],
        decreases batch@.len() - k,
    {
        frame_packet(&mut send_bufs[k], &batch[k]);
        k = k + 1;
    }
    k
}

/// Sets every buffer of a batched read back to `len` bytes, padding with
/// zeros or cutting off the end.
pub fn reset_buffers(bufs: &mut Vec<BytesMut>, len: usize)
    requires
        len <= isize::MAX,
    ensures
        final(bufs)@.len() == old(bufs)@.len(),
        forall|i: int|
            0 <= i < final(bufs)@.len() ==> buf_bytes(#[trigger] final(bufs)@[i]) == resized(
                buf_bytes(old(bufs)@[i]),
                len as nat,
                0,
            ),
{
    let mut k: usize = 0;
    while k < bufs.len()
        invariant
            k <= bufs@.len(),
            len <= isize::MAX,
            bufs@.len() == old(bufs)@.len(),
            forall|i: int|
                0 <= i < k ==> buf_bytes(#[trigger] bufs@[i]) == resized(
                    buf_bytes(old(bufs)@[i]),
                    len as nat,
                    0,
                ),
            forall|i: int| k <= i < bufs@.len() ==> #[trigger] bufs@[i] == old(bufs)@[i],
        decreases bufs@.len() - k,
    {
        buf_resize(&mut bufs[k], len, 0);
        k = k + 1;
    }
}

/// After a batched read that returned `num`, cuts each of the first `num`
/// buffers down to its segment: `offset + sizes[i]` bytes. A read that
/// returned no segment is the end of the device, and changes nothing.
pub fn trim_segments(bufs: &mut Vec<BytesMut>, sizes: &Vec<usize>, num: usize, offset: usize) -> (r: Result<usize, RecvError>)
    requires
        num <= old(bufs)@.len(),
        num <= sizes@.len(),
        forall|i: int| 0 <= i < num ==> offset + #[trigger] sizes@[i] <= usize::MAX,
    ensures
        num == 0 <==> r is Err,
        r matches Ok(n) ==> n == num,
        final(bufs)@.len() == old(bufs)@.len(),
        forall|i: int|
            0 <= i < num ==> buf_bytes(#[trigger] final(bufs)@[i]) == truncated(
                buf_bytes(old(bufs)@[i]),
                (offset + sizes@[i]) as nat,
            ),
        forall|i: int| num <= i < final(bufs)@.len() ==> #[trigger] final(bufs)@[i] == old(bufs)@[i],
{
    if num == 0 {
        return Err(RecvError::Eof);
    }
    let mut k: usize = 0;
    while k < num
        invariant
            k <= num,
            num <= bufs@.len(),
            num <= sizes@.len(),
            bufs@.len() == old(bufs)@.len(),
            forall|i: int| 0 <= i < num ==> offset + #[trigger] sizes@[i] <= usize::MAX,
            forall|i: int|
                0 <= i < k ==> buf_bytes(#[trigger] bufs@[i]) == truncated(
                    buf_bytes(old(bufs)@[i]),
                    (offset + sizes@[i]) as nat,
                ),
            forall|i: int| k <= i < bufs@.len() ==> #[trigger] bufs@[i] == old(bufs)@[i],
        decreases num - k,
    {
        let end = offset + sizes[k];
        buf_truncate(&mut bufs[k], end);
        k = k + 1;
    }
    Ok(num)
}

} // verus!
