use base64::Engine;
use zephyr_mcumgr::transport::serial::SerialTransport;
use zephyr_mcumgr::transport::{ReceiveError, SendError, SMP_TRANSFER_BUFFER_SIZE};

fn on_the_wire(lines: &[Vec<u8>]) -> Vec<u8> {
    lines.iter().flat_map(|l| l.iter().copied()).collect()
}

fn fill(len: usize, seed: u64) -> Vec<u8> {
    let mut state = seed;
    (0..len)
        .map(|_| {
            state = state.wrapping_mul(6364136223846793005).wrapping_add(1442695040888963407);
            (state >> 33) as u8
        })
        .collect()
}

#[test]
fn test_chunking_upper_limit() {
    let length = u16::MAX as usize - 8 /* SMP_HEADER_SIZE */ - size_of::<u16>() /* CRC16 */;

    let transport = SerialTransport::new(127);

    let mut header = [0u8; 8];
    header.copy_from_slice(&fill(8, rand::random()));
    let data = fill(length, rand::random());

    let lines = transport.send_raw_frame(&header, &data).unwrap();
    let stream = on_the_wire(&lines);

    let (data_received, consumed) = transport
        .recv_raw_frame(&stream, SMP_TRANSFER_BUFFER_SIZE)
        .unwrap()
        .unwrap();

    assert_eq!(consumed, stream.len());
    assert_eq!(
        header,
        &data_received[..8],
        "Received header did not match!"
    );
    assert_eq!(
        data,
        &data_received[8..],
        "Received data did not match! (len: {})",
        data.len()
    );
}

#[test]
fn test_chunking_reassembly() {
    let transport = SerialTransport::new(127);
    for round in 0..8u64 {
        let header_bytes = fill(8, round);
        let mut header = [0u8; 8];
        header.copy_from_slice(&header_bytes);
        let data = fill(10000, round + 100);
        let stream = on_the_wire(&transport.send_raw_frame(&header, &data).unwrap());
        let (frame, consumed) = transport
            .recv_raw_frame(&stream, SMP_TRANSFER_BUFFER_SIZE)
            .unwrap()
            .unwrap();
        assert_eq!(consumed, stream.len());
        assert_eq!(header, &frame[..8], "Received header did not match!");
        assert_eq!(data, &frame[8..], "Received data did not match! (len: {})", data.len());
    }
}

#[test]
fn one_byte_over_the_limit_is_too_big() {
    let transport = SerialTransport::new(127);
    let data = vec![0u8; 65535 - 8 - 2 + 1];
    assert_eq!(transport.send_raw_frame(&[0u8; 8], &data), Err(SendError::DataTooBig));
}

#[test]
fn empty_payload_is_one_line() {
    let transport = SerialTransport::new(127);
    let header = [1u8, 2, 3, 4, 5, 6, 7, 8];
    let lines = transport.send_raw_frame(&header, &[]).unwrap();
    assert_eq!(lines.len(), 1);

    let crc = crc::Crc::<u16>::new(&crc::CRC_16_XMODEM).checksum(&header);
    let mut raw = vec![0u8, 10];
    raw.extend_from_slice(&header);
    raw.extend_from_slice(&crc.to_be_bytes());
    let mut expected = vec![0x06u8, 0x09];
    expected.extend_from_slice(base64::prelude::BASE64_STANDARD.encode(&raw).as_bytes());
    expected.push(0x0A);
    assert_eq!(lines[0], expected);
}

#[test]
fn small_mtu_forces_chunking() {
    let transport = SerialTransport::new(64);
    let header = [0x42u8; 8];
    let payload = [0u8; 1024];
    let lines = transport.send_raw_frame(&header, &payload).unwrap();
    assert!(lines.len() >= 2);
    assert_eq!(&lines[0][..2], &[0x06, 0x09]);
    for line in &lines[1..] {
        assert_eq!(&line[..2], &[0x04, 0x14]);
    }
    for line in &lines {
        assert!(line.len() <= 64);
        assert_eq!(*line.last().unwrap(), 0x0A);
        assert_eq!((line.len() - 3) % 4, 0);
    }

    let stream = on_the_wire(&lines);
    let (frame, _) = transport
        .recv_raw_frame(&stream, SMP_TRANSFER_BUFFER_SIZE)
        .unwrap()
        .unwrap();
    assert_eq!(&frame[..8], &header);
    assert_eq!(&frame[8..], &payload);

    // the checksum that travels is that of header and payload
    let mut raw = Vec::new();
    for (i, line) in lines.iter().enumerate() {
        let body = &line[2..line.len() - 1];
        let piece = base64::prelude::BASE64_STANDARD.decode(body).unwrap();
        if i + 1 < lines.len() {
            assert_eq!(piece.len(), 45);
        }
        raw.extend_from_slice(&piece);
    }
    assert_eq!(raw.len(), 2 + 8 + 1024 + 2);
    assert_eq!(&raw[..2], &((8 + 1024 + 2) as u16).to_be_bytes());
    let mut content = header.to_vec();
    content.extend_from_slice(&payload);
    let crc = crc::Crc::<u16>::new(&crc::CRC_16_XMODEM).checksum(&content);
    assert_eq!(&raw[raw.len() - 2..], &crc.to_be_bytes());
}

#[test]
fn minimum_practical_mtu_reassembles() {
    let transport = SerialTransport::new(16);
    let header = [9u8, 8, 7, 6, 5, 4, 3, 2];
    let payload = fill(100, 7);
    let lines = transport.send_raw_frame(&header, &payload).unwrap();
    assert_eq!(lines.len(), (2 + 8 + 100 + 2 + 8) / 9);
    for line in &lines {
        assert!(line.len() <= 16);
    }
    let stream = on_the_wire(&lines);
    let (frame, consumed) = transport.recv_raw_frame(&stream, 65535).unwrap().unwrap();
    assert_eq!(consumed, stream.len());
    assert_eq!(&frame[..8], &header);
    assert_eq!(&frame[8..], &payload[..]);
}

#[test]
fn receiver_waits_for_the_rest() {
    let transport = SerialTransport::new(32);
    let stream = on_the_wire(&transport.send_raw_frame(&[0u8; 8], &fill(50, 1)).unwrap());
    for cut in 0..stream.len() {
        assert_eq!(transport.recv_raw_frame(&stream[..cut], 65535), Ok(None), "cut at {}", cut);
    }
    assert!(transport.recv_raw_frame(&stream, 65535).unwrap().is_some());
}

#[test]
fn receiver_skips_noise_and_stops_at_the_end_of_the_frame() {
    let transport = SerialTransport::new(32);
    let payload = fill(50, 2);
    let frame_bytes = on_the_wire(&transport.send_raw_frame(&[3u8; 8], &payload).unwrap());
    let mut stream = vec![0x00, 0x06, 0x41, 0x0A, 0x09];
    stream.extend_from_slice(&frame_bytes);
    let end = stream.len();
    stream.extend_from_slice(&[0x06, 0x09, 0xFF, 0xFF]);
    let (frame, consumed) = transport.recv_raw_frame(&stream, 65535).unwrap().unwrap();
    assert_eq!(consumed, end);
    assert_eq!(&frame[8..], &payload[..]);
}

#[test]
fn receiver_reports_a_wrong_checksum() {
    let transport = SerialTransport::new(127);
    let header = [1u8; 8];
    let mut raw = vec![0u8, 12];
    raw.extend_from_slice(&header);
    raw.extend_from_slice(&[0xAA, 0xBB]);
    let crc = crc::Crc::<u16>::new(&crc::CRC_16_XMODEM).checksum(&raw[2..]);
    raw.extend_from_slice(&(crc ^ 1).to_be_bytes());
    let mut stream = vec![0x06u8, 0x09];
    stream.extend_from_slice(base64::prelude::BASE64_STANDARD.encode(&raw).as_bytes());
    stream.push(0x0A);
    assert_eq!(
        transport.recv_raw_frame(&stream, 65535),
        Err(ReceiveError::ChecksumMismatch)
    );
}

#[test]
fn receiver_reports_malformed_input() {
    let transport = SerialTransport::new(127);
    let b64 = |raw: &[u8]| base64::prelude::BASE64_STANDARD.encode(raw).into_bytes();

    // not base64
    assert_eq!(
        transport.recv_raw_frame(&[0x06, 0x09, b'*', b'*', b'*', b'*', 0x0A], 65535),
        Err(ReceiveError::Base64DecodeError)
    );

    // declares 20 bytes, brings 3 and then no continuation marker
    let mut stream = vec![0x06u8, 0x09];
    stream.extend_from_slice(&b64(&[0, 20, 1, 2, 3]));
    stream.push(0x0A);
    stream.extend_from_slice(&[0x06, 0x09]);
    assert_eq!(
        transport.recv_raw_frame(&stream, 65535),
        Err(ReceiveError::UnexpectedMarker)
    );

    // declares 2 bytes, brings 3
    let mut stream = vec![0x06u8, 0x09];
    stream.extend_from_slice(&b64(&[0, 2, 1, 2, 3]));
    stream.push(0x0A);
    assert_eq!(
        transport.recv_raw_frame(&stream, 65535),
        Err(ReceiveError::LengthMismatch)
    );

    // a first line too short to hold the length
    let mut stream = vec![0x06u8, 0x09];
    stream.extend_from_slice(&b64(&[7]));
    stream.push(0x0A);
    assert_eq!(
        transport.recv_raw_frame(&stream, 65535),
        Err(ReceiveError::LengthMismatch)
    );

    // declares more than the buffer holds
    let mut stream = vec![0x06u8, 0x09];
    stream.extend_from_slice(&b64(&[1, 0, 1, 2, 3]));
    stream.push(0x0A);
    assert_eq!(
        transport.recv_raw_frame(&stream, 255),
        Err(ReceiveError::FrameTooBig)
    );
}
