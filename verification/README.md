# tun_bench

A TUN-device packet forwarder used to benchmark `tun-rs` in several modes
(async or threads, with or without channels, with or without offload).

- `src/` is the verified library (Verus):
  - `buf.rs`: the `bytes::BytesMut` operations used, with their contracts;
  - `offload.rs`: the batch size and virtio header length of `tun_rs`;
  - `batch.rs`: the batcher that decides when packets gathered from a
    channel are written to a device, with its laws (no packet lost,
    duplicated or reordered; batches of 1 to `limit` packets);
  - `packet.rs`: taking received packets out of read buffers and framing
    them for offload writes, with laws on what reaches the device;
  - `config.rs`: the modes, device settings, worker routes and runtime choice.
- `app/` is the program: argument parsing, device creation, the read/write
  loops, threads, tasks and channels.
- `tests/` runs the library on concrete values.
