use bytes::BytesMut;
use tun_bench::packet::{
    collect_segments, empty_buffers, frame_batch, frame_packet, packet_from_received, received,
    reset_buffers, trim_segments, zeroed_buffers, RecvError,
};

const HDR: usize = 10;

#[test]
fn virtio_header_is_ten_bytes() {
    assert_eq!(tun_rs::VIRTIO_NET_HDR_LEN, HDR);
    assert_eq!(tun_rs::IDEAL_BATCH_SIZE, 128);
}

#[test]
fn received_is_prefix() {
    let buf = [1u8, 2, 3, 4, 5];
    assert_eq!(received(&buf, 3), &[1u8, 2, 3][..]);
    assert_eq!(received(&buf, 0), &[] as &[u8]);
    assert_eq!(received(&buf, 5), &buf[..]);
}

#[test]
fn packet_from_received_copies_prefix() {
    let buf = [9u8, 8, 7, 6];
    let p = packet_from_received(&buf, 2);
    assert_eq!(&p[..], &[9u8, 8]);
}

#[test]
fn zeroed_buffers_hold_zeros() {
    let bufs = zeroed_buffers(4, 6);
    assert_eq!(bufs.len(), 4);
    for b in &bufs {
        assert_eq!(&b[..], &[0u8; 6]);
    }
}

#[test]
fn empty_buffers_are_empty_with_room() {
    let bufs = empty_buffers(3, 100);
    assert_eq!(bufs.len(), 3);
    for b in &bufs {
        assert!(b.is_empty());
        assert!(b.capacity() >= 100);
    }
}

#[test]
fn frame_packet_prepends_zeroed_header() {
    let mut dst = BytesMut::from(&[0xffu8; 40][..]);
    let packet = BytesMut::from(&[1u8, 2, 3][..]);
    frame_packet(&mut dst, &packet);
    assert_eq!(dst.len(), HDR + 3);
    assert_eq!(&dst[..HDR], &[0u8; HDR]);
    assert_eq!(&dst[HDR..], &[1u8, 2, 3]);
}

#[test]
fn frame_batch_fills_front_buffers_only() {
    let mut send = vec![BytesMut::from(&[5u8][..]); 4];
    let batch = vec![BytesMut::from(&[1u8, 1][..]), BytesMut::from(&[2u8][..])];
    let n = frame_batch(&mut send, &batch);
    assert_eq!(n, 2);
    let mut want0 = vec![0u8; HDR];
    want0.extend_from_slice(&[1, 1]);
    let mut want1 = vec![0u8; HDR];
    want1.push(2);
    assert_eq!(&send[0][..], &want0[..]);
    assert_eq!(&send[1][..], &want1[..]);
    assert_eq!(&send[2][..], &[5u8]);
    assert_eq!(&send[3][..], &[5u8]);
}

#[test]
fn collect_segments_end_of_device() {
    let bufs = vec![BytesMut::from(&[1u8, 2][..])];
    let sizes = vec![0usize];
    assert_eq!(collect_segments(&bufs, &sizes, 0, 0, 0).unwrap_err(), RecvError::Eof);
}

#[test]
fn collect_segments_keeps_room_and_data() {
    let bufs = vec![
        BytesMut::from(&[0u8, 0, 10, 11, 12, 99][..]),
        BytesMut::from(&[0u8, 0, 20, 99, 99, 99][..]),
        BytesMut::from(&[0u8, 0, 30, 31, 99, 99][..]),
    ];
    let sizes = vec![3usize, 1, 2];
    let packets = collect_segments(&bufs, &sizes, 2, 2, 64).unwrap();
    assert_eq!(packets.len(), 2);
    assert_eq!(&packets[0][..], &[0u8, 0, 10, 11, 12]);
    assert_eq!(&packets[1][..], &[0u8, 0, 20]);
    assert!(packets[0].capacity() >= 64);
}

#[test]
fn collect_segments_without_room() {
    let bufs = vec![BytesMut::from(&[7u8, 8, 9][..]), BytesMut::from(&[4u8, 5][..])];
    let sizes = vec![2usize, 2];
    let packets = collect_segments(&bufs, &sizes, 2, 0, 0).unwrap();
    assert_eq!(&packets[0][..], &[7u8, 8]);
    assert_eq!(&packets[1][..], &[4u8, 5]);
}

#[test]
fn reset_buffers_pads_and_cuts() {
    let mut bufs = vec![BytesMut::from(&[1u8, 2, 3, 4][..]), BytesMut::from(&[9u8][..])];
    reset_buffers(&mut bufs, 3);
    assert_eq!(&bufs[0][..], &[1u8, 2, 3]);
    assert_eq!(&bufs[1][..], &[9u8, 0, 0]);
}

#[test]
fn trim_segments_cuts_to_room_plus_size() {
    let mut bufs = vec![
        BytesMut::from(&[0u8, 1, 2, 3, 4][..]),
        BytesMut::from(&[0u8, 5, 6, 7, 8][..]),
        BytesMut::from(&[0u8, 9, 9, 9, 9][..]),
    ];
    let sizes = vec![2usize, 10, 1];
    assert_eq!(trim_segments(&mut bufs, &sizes, 2, 1), Ok(2));
    assert_eq!(&bufs[0][..], &[0u8, 1, 2]);
    // Longer than the buffer: left as it was.
    assert_eq!(&bufs[1][..], &[0u8, 5, 6, 7, 8]);
    // Beyond the read's count: untouched.
    assert_eq!(&bufs[2][..], &[0u8, 9, 9, 9, 9]);
}

#[test]
fn trim_segments_end_of_device() {
    let mut bufs = vec![BytesMut::from(&[1u8, 2][..])];
    let sizes = vec![1usize];
    assert_eq!(trim_segments(&mut bufs, &sizes, 0, 0), Err(RecvError::Eof));
    assert_eq!(&bufs[0][..], &[1u8, 2]);
}

#[test]
fn reframed_segment_payload_is_received_data() {
    // A segment read without room, framed, and written at the header offset.
    let bufs = vec![BytesMut::from(&[3u8, 4, 5, 6][..])];
    let sizes = vec![3usize];
    let packets = collect_segments(&bufs, &sizes, 1, 0, 0).unwrap();
    let mut send = vec![BytesMut::new()];
    frame_batch(&mut send, &packets);
    assert_eq!(&send[0][HDR..], &[3u8, 4, 5]);
}
