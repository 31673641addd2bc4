//! Sizes that the TUN offload interface of `tun_rs` fixes.
use vstd::prelude::*;

verus! {

/// The number of packets handed to one `recv_multiple` / `send_multiple`
/// call, as `tun_rs` recommends it.
pub open spec fn spec_ideal_batch_size() -> usize {
    128
}

/// The length in bytes of the virtio network header that precedes every
/// packet on a TUN device with offload enabled.
pub open spec fn spec_virtio_net_hdr_len() -> usize {
    10
}

/// `tun_rs::IDEAL_BATCH_SIZE`, which its source defines as `128`.
#[verifier::external_body]
pub(crate) fn ideal_batch_size() -> (n: usize)
    ensures
        n == spec_ideal_batch_size(),
{
    tun_rs::IDEAL_BATCH_SIZE
}

/// `tun_rs::VIRTIO_NET_HDR_LEN`, which its source defines as the size of
/// the `#[repr(C)]` struct `VirtioNetHdr` (two `u8` and four `u16` fields):
/// `10`.
#[verifier::external_body]
pub(crate) fn virtio_net_hdr_len() -> (n: usize)
    ensures
        n == spec_virtio_net_hdr_len(),
{
    tun_rs::VIRTIO_NET_HDR_LEN
}

} // verus!
