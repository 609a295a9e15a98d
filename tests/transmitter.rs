use canadensis_can::{
    calculate_frame_stats, make_can_id, make_pseudo_id, make_tail_byte, make_transfer_stream,
    segment, CanId, Frame, FrameQueue, FrameSink, Header, MessageHeader, Mtu, OutOfMemoryError,
    Priority, ServiceHeader, Transfer, TransferCrc, Transmitter,
};

fn message(
    transfer_id: u8,
    priority: Priority,
    subject: u16,
    source: Option<u8>,
    payload: Vec<u8>,
) -> Transfer<u64> {
    Transfer {
        header: Header::Message(MessageHeader {
            timestamp: 1000,
            transfer_id,
            priority,
            subject,
            source,
        }),
        payload,
    }
}

fn service(
    request: bool,
    transfer_id: u8,
    priority: Priority,
    service: u16,
    source: u8,
    destination: u8,
    payload: Vec<u8>,
) -> Transfer<u64> {
    let header = ServiceHeader {
        timestamp: 2000,
        transfer_id,
        priority,
        service,
        source,
        destination,
    };
    Transfer {
        header: if request {
            Header::Request(header)
        } else {
            Header::Response(header)
        },
        payload,
    }
}

fn drain(tx: &mut Transmitter<FrameQueue<u64>>) -> Vec<Frame<u64>> {
    let mut frames = Vec::new();
    while let Some(frame) = tx.frame_queue_mut().pop_frame() {
        frames.push(frame);
    }
    frames
}

fn crc_of(bytes: &[u8]) -> u16 {
    let mut crc = TransferCrc::new();
    crc.add_bytes(bytes);
    crc.get()
}

#[test]
fn single_frame_message_classic_can() {
    let mut tx = Transmitter::new(Mtu::Can8, FrameQueue::new(8));
    let transfer = message(7, Priority::Nominal, 1234, Some(42), vec![0xDE, 0xAD, 0xBE, 0xEF]);
    assert_eq!(tx.push(transfer), Ok(()));
    let frames = drain(&mut tx);
    assert_eq!(frames.len(), 1);
    assert_eq!(frames[0].data(), &[0xDE, 0xAD, 0xBE, 0xEF, 0xE7]);
    assert_eq!(*frames[0].timestamp(), 1000);
    let id = frames[0].id().value();
    assert_eq!((id >> 26) & 0x7, 0b100);
    assert_eq!((id >> 25) & 1, 0);
    assert_eq!((id >> 24) & 1, 0);
    assert_eq!((id >> 8) & 0x1fff, 1234);
    assert_eq!((id >> 21) & 0x3, 0x3);
    assert_eq!(id & 0x7f, 42);
    assert_eq!(id, 0x1064_d22a);
    assert_eq!(tx.transfer_count(), 1);
    assert_eq!(tx.error_count(), 0);
}

#[test]
fn anonymous_single_frame_message() {
    let mut tx = Transmitter::new(Mtu::Can8, FrameQueue::new(8));
    let transfer = message(0, Priority::Nominal, 100, None, vec![0x00, 0x00, 0x00]);
    assert_eq!(tx.push(transfer), Ok(()));
    let frames = drain(&mut tx);
    assert_eq!(frames.len(), 1);
    let id = frames[0].id().value();
    assert_eq!(id & 0x7f, 0x55);
    assert_eq!((id >> 24) & 1, 1);
    assert_eq!((id >> 8) & 0x1fff, 100);
    assert_eq!(frames[0].data(), &[0x00, 0x00, 0x00, 0xE0]);
}

#[test]
fn two_frame_message() {
    let mut tx = Transmitter::new(Mtu::Can8, FrameQueue::new(8));
    let payload: Vec<u8> = (0u8..10).collect();
    let transfer = message(0, Priority::Nominal, 1, Some(1), payload);
    assert_eq!(tx.push(transfer), Ok(()));
    let frames = drain(&mut tx);
    assert_eq!(frames.len(), 2);
    assert_eq!(frames[0].data(), &[0x00, 0x01, 0x02, 0x03, 0x04, 0x05, 0x06, 0xA0]);
    let crc = crc_of(&[0, 1, 2, 3, 4, 5, 6, 7, 8, 9, 0, 0]);
    assert_eq!(crc, 0x28d3);
    assert_eq!(
        frames[1].data(),
        &[0x07, 0x08, 0x09, 0x00, 0x00, (crc >> 8) as u8, crc as u8, 0x40]
    );
    assert_eq!(frames[0].id(), frames[1].id());
}

#[test]
fn service_request() {
    let mut tx = Transmitter::new(Mtu::Can8, FrameQueue::new(8));
    let transfer = service(true, 3, Priority::High, 511, 10, 20, vec![0x01]);
    assert_eq!(tx.push(transfer), Ok(()));
    let frames = drain(&mut tx);
    assert_eq!(frames.len(), 1);
    let id = frames[0].id().value();
    assert_eq!((id >> 25) & 1, 1);
    assert_eq!((id >> 24) & 1, 1);
    assert_eq!((id >> 14) & 0x1ff, 511);
    assert_eq!((id >> 7) & 0x7f, 20);
    assert_eq!(id & 0x7f, 10);
    assert_eq!((id >> 26) & 0x7, 3);
    assert_eq!(frames[0].data(), &[0x01, 0xE3]);
    assert_eq!(*frames[0].timestamp(), 2000);
}

#[test]
fn service_response_clears_request_bit() {
    let mut tx = Transmitter::new(Mtu::Can8, FrameQueue::new(8));
    let transfer = service(false, 3, Priority::Fast, 430, 10, 20, vec![]);
    assert_eq!(tx.push(transfer), Ok(()));
    let frames = drain(&mut tx);
    let id = frames[0].id().value();
    assert_eq!(id, (2 << 26) | (1 << 25) | (430 << 14) | (20 << 7) | 10);
    assert_eq!(frames[0].data(), &[0xE3]);
}

#[test]
fn queue_full_rejection() {
    let mut tx = Transmitter::new(Mtu::Can8, FrameQueue::new(1));
    let payload: Vec<u8> = (0u8..10).collect();
    let transfer = message(0, Priority::Nominal, 1, Some(1), payload);
    assert_eq!(tx.push(transfer), Err(OutOfMemoryError));
    assert_eq!(tx.frame_queue().len(), 0);
    assert_eq!(tx.error_count(), 1);
    assert_eq!(tx.transfer_count(), 0);
}

#[test]
fn back_to_back_pushes() {
    let mut tx = Transmitter::new(Mtu::Can8, FrameQueue::new(8));
    assert_eq!(tx.push(message(30, Priority::Nominal, 5, Some(3), vec![1])), Ok(()));
    assert_eq!(tx.push(message(31, Priority::Nominal, 5, Some(3), vec![2])), Ok(()));
    let frames = drain(&mut tx);
    assert_eq!(frames.len(), 2);
    assert_eq!(frames[0].data(), &[1, 0xE0 | 30]);
    assert_eq!(frames[1].data(), &[2, 0xE0 | 31]);
    assert_eq!(tx.transfer_count(), 2);
}

#[test]
fn failed_push_leaves_queue_unchanged() {
    let mut tx = Transmitter::new(Mtu::Can8, FrameQueue::new(2));
    assert_eq!(tx.push(message(1, Priority::Low, 5, Some(3), vec![9])), Ok(()));
    let long: Vec<u8> = (0u8..20).collect();
    assert_eq!(tx.push(message(2, Priority::Low, 5, Some(3), long.clone())), Err(OutOfMemoryError));
    assert_eq!(tx.frame_queue().len(), 1);
    assert_eq!(tx.transfer_count(), 1);
    assert_eq!(tx.error_count(), 1);
    let frames = drain(&mut tx);
    assert_eq!(frames[0].data(), &[9, 0xE1]);
    // With the queue emptied there is still no room for four frames
    assert_eq!(tx.push(message(2, Priority::Low, 5, Some(3), long)), Err(OutOfMemoryError));
    assert_eq!(tx.error_count(), 2);
}

#[test]
fn transfer_id_keeps_low_five_bits() {
    let mut tx = Transmitter::new(Mtu::Can8, FrameQueue::new(8));
    assert_eq!(tx.push(message(33, Priority::Nominal, 5, Some(3), vec![])), Ok(()));
    let frames = drain(&mut tx);
    assert_eq!(frames[0].data(), &[0xE1]);
}

#[test]
fn empty_payload_is_tail_only() {
    let mut tx = Transmitter::new(Mtu::CanFd64, FrameQueue::new(8));
    assert_eq!(tx.push(message(4, Priority::Nominal, 5, Some(3), vec![])), Ok(()));
    let frames = drain(&mut tx);
    assert_eq!(frames.len(), 1);
    assert_eq!(frames[0].data(), &[0xE4]);
}

#[test]
fn payload_filling_one_frame_exactly() {
    let mut tx = Transmitter::new(Mtu::Can8, FrameQueue::new(8));
    let payload: Vec<u8> = (10u8..17).collect();
    assert_eq!(tx.push(message(5, Priority::Nominal, 5, Some(3), payload)), Ok(()));
    let frames = drain(&mut tx);
    assert_eq!(frames.len(), 1);
    assert_eq!(frames[0].data(), &[10, 11, 12, 13, 14, 15, 16, 0xE5]);
}

#[test]
fn payload_one_byte_over_a_frame() {
    let mut tx = Transmitter::new(Mtu::Can8, FrameQueue::new(8));
    let payload: Vec<u8> = (10u8..18).collect();
    assert_eq!(tx.push(message(5, Priority::Nominal, 5, Some(3), payload)), Ok(()));
    let frames = drain(&mut tx);
    assert_eq!(frames.len(), 2);
    assert_eq!(frames[0].data(), &[10, 11, 12, 13, 14, 15, 16, 0xA5]);
    let crc = crc_of(&[10, 11, 12, 13, 14, 15, 16, 17, 0, 0, 0, 0]);
    assert_eq!(
        frames[1].data(),
        &[17, 0, 0, 0, 0, (crc >> 8) as u8, crc as u8, 0x45]
    );
}

#[test]
fn can_fd_multi_frame() {
    let mut tx = Transmitter::new(Mtu::CanFd64, FrameQueue::new(8));
    let payload: Vec<u8> = (0u8..100).collect();
    assert_eq!(tx.push(message(9, Priority::Nominal, 5, Some(3), payload.clone())), Ok(()));
    let frames = drain(&mut tx);
    assert_eq!(frames.len(), 2);
    assert_eq!(frames[0].data().len(), 64);
    assert_eq!(frames[1].data().len(), 64);
    assert_eq!(&frames[0].data()[..63], &payload[..63]);
    assert_eq!(frames[0].data()[63], 0xA9);
    assert_eq!(&frames[1].data()[..37], &payload[63..]);
    assert!(frames[1].data()[37..61].iter().all(|&b| b == 0));
    let mut padded = payload.clone();
    padded.extend(std::iter::repeat(0).take(24));
    let crc = crc_of(&padded);
    assert_eq!(frames[1].data()[61], (crc >> 8) as u8);
    assert_eq!(frames[1].data()[62], crc as u8);
    assert_eq!(frames[1].data()[63], 0x49);
}

#[test]
fn three_frames_toggle_alternates() {
    let mut tx = Transmitter::new(Mtu::Can8, FrameQueue::new(8));
    let payload: Vec<u8> = (0u8..15).collect();
    assert_eq!(tx.push(message(2, Priority::Nominal, 5, Some(3), payload)), Ok(()));
    let frames = drain(&mut tx);
    assert_eq!(frames.len(), 3);
    let tails: Vec<u8> = frames.iter().map(|f| *f.data().last().unwrap()).collect();
    assert_eq!(tails, vec![0xA2, 0x02, 0x62]);
}

#[test]
fn frame_count_matches_formula() {
    for mtu in [Mtu::Can8, Mtu::CanFd12, Mtu::CanFd20, Mtu::CanFd64] {
        let u = mtu.bytes() - 1;
        for len in 0usize..200 {
            let mut tx = Transmitter::new(mtu, FrameQueue::new(64));
            let payload: Vec<u8> = (0..len).map(|i| (i * 7 + 3) as u8).collect();
            assert_eq!(tx.push(message(17, Priority::Slow, 77, None, payload.clone())), Ok(()));
            let frames = drain(&mut tx);
            let expected = if len <= u { 1 } else { (len + 2 + u - 1) / u };
            assert_eq!(frames.len(), expected);
            // Tail bytes
            for (k, frame) in frames.iter().enumerate() {
                let tail = *frame.data().last().unwrap();
                assert_eq!(tail & 0x80 != 0, k == 0);
                assert_eq!(tail & 0x40 != 0, k == frames.len() - 1);
                assert_eq!(tail & 0x20 != 0, k % 2 == 0);
                assert_eq!(tail & 0x1f, 17);
                assert_eq!(frame.id(), frames[0].id());
            }
            // Payload, padding and CRC
            let data: Vec<u8> = frames
                .iter()
                .flat_map(|f| f.data()[..f.data().len() - 1].to_vec())
                .collect();
            if len <= u {
                assert_eq!(data, payload);
            } else {
                let crc_at = data.len() - 2;
                assert_eq!(&data[..len], &payload[..]);
                assert!(data[len..crc_at].iter().all(|&b| b == 0));
                let crc = crc_of(&data[..crc_at]);
                assert_eq!(data[crc_at], (crc >> 8) as u8);
                assert_eq!(data[crc_at + 1], crc as u8);
                assert_eq!(data.len() % u, 0);
            }
        }
    }
}

#[test]
fn crc_check_value() {
    assert_eq!(crc_of(b"123456789"), 0x29B1);
    assert_eq!(crc_of(&[]), 0xFFFF);
}

#[test]
fn pseudo_id_values() {
    assert_eq!(make_pseudo_id(&[0x00, 0x00, 0x00]), 0x55);
    assert_eq!(make_pseudo_id(&[]), 0x55);
    assert_eq!(make_pseudo_id(&[0x12, 0x34, 0x56]), 0x25);
    // 0x55 ^ 0x2a = 0x7f is reserved, and so is 0x7e
    assert_eq!(make_pseudo_id(&[0x2a]), 125);
    assert_eq!(make_pseudo_id(&[0x2b]), 125);
    // 0x55 ^ 0xab = 0xfe, truncated to 0x7e
    assert_eq!(make_pseudo_id(&[0xab]), 125);
    // 0x55 ^ 0x28 = 0x7d is not reserved
    assert_eq!(make_pseudo_id(&[0x28]), 125);
    assert_eq!(make_pseudo_id(&[0x29]), 124);
    // 0x55 ^ 0xd5 = 0x80, truncated to 0
    assert_eq!(make_pseudo_id(&[0xd5]), 0);
}

#[test]
fn can_id_bounds() {
    assert_eq!(CanId::try_from_bits(0x1fff_ffff).map(|id| id.value()), Some(0x1fff_ffff));
    assert!(CanId::try_from_bits(0x2000_0000).is_none());
    assert!(CanId::try_from_bits(u32::MAX).is_none());
}

#[test]
fn can_id_of_anonymous_message() {
    let transfer = message(0, Priority::Optional, 8191, None, vec![0x2a]);
    let id = make_can_id(&transfer.header, &transfer.payload).value();
    assert_eq!(id, (7 << 26) | (1 << 24) | (3 << 21) | (8191 << 8) | 125);
}

#[test]
fn tail_byte_values() {
    assert_eq!(make_tail_byte(true, true, true, 7), 0xE7);
    assert_eq!(make_tail_byte(true, false, true, 0), 0xA0);
    assert_eq!(make_tail_byte(false, true, false, 0), 0x40);
    assert_eq!(make_tail_byte(false, false, false, 31), 0x1F);
    assert_eq!(make_tail_byte(false, false, false, 255), 0x1F);
}

#[test]
fn frame_stats_values() {
    let s = calculate_frame_stats(10, 8);
    assert_eq!((s.frames, s.last_frame_padding), (2, 2));
    let s = calculate_frame_stats(7, 8);
    assert_eq!((s.frames, s.last_frame_padding), (1, 0));
    let s = calculate_frame_stats(12, 8);
    assert_eq!((s.frames, s.last_frame_padding), (2, 0));
    let s = calculate_frame_stats(100, 64);
    assert_eq!((s.frames, s.last_frame_padding), (2, 24));
    let s = calculate_frame_stats(0, 8);
    assert_eq!((s.frames, s.last_frame_padding), (1, 0));
}

#[test]
fn transfer_stream_and_segments() {
    let payload: Vec<u8> = (0u8..10).collect();
    let stream = make_transfer_stream(&payload, 8);
    assert_eq!(&stream[..12], &[0, 1, 2, 3, 4, 5, 6, 7, 8, 9, 0, 0]);
    assert_eq!(&stream[12..], &[0x28, 0xd3]);
    let frames = segment(&stream, 8, 0);
    assert_eq!(frames.len(), 2);
    assert_eq!(frames[0], vec![0, 1, 2, 3, 4, 5, 6, 0xA0]);
    assert_eq!(frames[1], vec![7, 8, 9, 0, 0, 0x28, 0xd3, 0x40]);
    assert_eq!(segment(&[], 8, 3), vec![vec![0xE3]]);
    assert_eq!(make_transfer_stream(&[1, 2], 8), vec![1, 2]);
}

#[test]
fn set_mtu_applies_to_next_push() {
    let mut tx = Transmitter::new(Mtu::Can8, FrameQueue::new(8));
    let payload: Vec<u8> = (0u8..10).collect();
    tx.set_mtu(Mtu::CanFd16);
    assert_eq!(tx.mtu(), Mtu::CanFd16);
    assert_eq!(tx.push(message(1, Priority::Nominal, 5, Some(3), payload.clone())), Ok(()));
    let frames = drain(&mut tx);
    assert_eq!(frames.len(), 1);
    let mut expected = payload;
    expected.push(0xE1);
    assert_eq!(frames[0].data(), &expected[..]);
}

#[test]
fn frame_queue_reservation() {
    let mut queue: FrameQueue<u64> = FrameQueue::new(2);
    assert_eq!(queue.capacity(), 2);
    assert!(queue.is_empty());
    assert_eq!(queue.try_reserve(2), Ok(()));
    assert_eq!(queue.try_reserve(3), Err(OutOfMemoryError));
    let id = CanId::try_from_bits(5).unwrap();
    assert_eq!(queue.push_frame(Frame::new(1, id, vec![0xE0])), Ok(()));
    assert_eq!(queue.try_reserve(2), Err(OutOfMemoryError));
    assert_eq!(queue.push_frame(Frame::new(2, id, vec![0xE1])), Ok(()));
    assert_eq!(queue.push_frame(Frame::new(3, id, vec![0xE2])), Err(OutOfMemoryError));
    assert_eq!(queue.len(), 2);
    assert_eq!(*queue.peek_frame().unwrap().timestamp(), 1);
    assert_eq!(*queue.pop_frame().unwrap().timestamp(), 1);
    assert_eq!(*queue.pop_frame().unwrap().timestamp(), 2);
    assert!(queue.pop_frame().is_none());
}
