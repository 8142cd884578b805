use base64::Engine;
use zephyr_mcumgr::transport::serial::SerialTransport;
use zephyr_mcumgr::transport::{
    match_response, request_header, ReceiveError, SendError, SmpHeader,
};

fn wire(lines: &[Vec<u8>]) -> Vec<u8> {
    lines.iter().flat_map(|l| l.iter().copied()).collect()
}

fn response_frame(transport: &SerialTransport, op: u8, seq: u8, group: u16, cmd: u8, payload: &[u8]) -> Vec<u8> {
    let header = SmpHeader {
        res: 0,
        ver: 1,
        op,
        flags: 0,
        data_length: payload.len() as u16,
        group_id: group,
        sequence_num: seq,
        command_id: cmd,
    };
    wire(&transport.send_raw_frame(&header.to_bytes(), payload).unwrap())
}

#[test]
fn header_bit_layout() {
    let header = SmpHeader {
        res: 0,
        ver: 1,
        op: 2,
        flags: 0,
        data_length: 0x1234,
        group_id: 0x0008,
        sequence_num: 0x7F,
        command_id: 3,
    };
    assert_eq!(header.to_bytes(), [0x0A, 0x00, 0x12, 0x34, 0x00, 0x08, 0x7F, 0x03]);

    let header = SmpHeader {
        res: 7,
        ver: 3,
        op: 7,
        flags: 0xAB,
        data_length: 0xFFFE,
        group_id: 0xFEDC,
        sequence_num: 0,
        command_id: 255,
    };
    assert_eq!(header.to_bytes(), [0xFF, 0xAB, 0xFF, 0xFE, 0xFE, 0xDC, 0x00, 0xFF]);
    let header = SmpHeader { res: 5, ver: 0, op: 0, flags: 0, data_length: 0, group_id: 0, sequence_num: 0, command_id: 0 };
    assert_eq!(header.to_bytes()[0], 0b1010_0000);
    let header = SmpHeader { res: 0, ver: 2, op: 0, flags: 0, data_length: 0, group_id: 0, sequence_num: 0, command_id: 0 };
    assert_eq!(header.to_bytes()[0], 0b0001_0000);
}

#[test]
fn header_round_trips_through_its_bytes() {
    for first in 0..=255u8 {
        let bytes = [first, first.wrapping_mul(7), 0x80, first, 0x01, first ^ 0x55, 9, 200];
        let header = SmpHeader::from_bytes(&bytes);
        assert!(header.res < 8 && header.ver < 4 && header.op < 8);
        assert_eq!(header.res, first >> 5);
        assert_eq!(header.ver, (first >> 3) & 3);
        assert_eq!(header.op, first & 7);
        assert_eq!(header.data_length, 0x8000 | first as u16);
        assert_eq!(header.group_id, 0x0100 | (first ^ 0x55) as u16);
        assert_eq!(header.to_bytes(), bytes);
        assert_eq!(SmpHeader::from_bytes(&header.to_bytes()), header);
    }
}

#[test]
fn request_header_fields() {
    assert_eq!(
        request_header(true, 0x42, 0x0102, 7, 0x0304),
        Ok([0x0A, 0x00, 0x03, 0x04, 0x01, 0x02, 0x42, 0x07])
    );
    assert_eq!(
        request_header(false, 1, 9, 0, 0),
        Ok([0x08, 0x00, 0x00, 0x00, 0x00, 0x09, 0x01, 0x00])
    );
    assert_eq!(request_header(false, 1, 9, 0, 65535).unwrap()[2..4], [0xFF, 0xFF]);
    assert_eq!(request_header(false, 1, 9, 0, 65536), Err(SendError::DataTooBig));
}

#[test]
fn send_frame_limits() {
    let transport = SerialTransport::new(127);
    assert!(transport.send_frame(true, 0, 0, 0, &vec![0u8; 65525]).is_ok());
    assert_eq!(
        transport.send_frame(true, 0, 0, 0, &vec![0u8; 65526]),
        Err(SendError::DataTooBig)
    );
    assert_eq!(
        transport.send_frame(true, 0, 0, 0, &vec![0u8; 70000]),
        Err(SendError::DataTooBig)
    );
}

#[test]
fn send_frame_puts_the_header_in_front() {
    let transport = SerialTransport::new(127);
    let stream = wire(&transport.send_frame(false, 0x11, 8, 2, b"abc").unwrap());
    let (frame, consumed) = transport.recv_raw_frame(&stream, 65535).unwrap().unwrap();
    assert_eq!(consumed, stream.len());
    assert_eq!(frame, [0x08, 0, 0, 3, 0, 8, 0x11, 2, b'a', b'b', b'c']);
}

#[test]
fn matching_a_response() {
    let frame = [0x0B, 0, 0, 2, 0, 8, 0x80, 4, 0xA0, 0xA1];
    // the response to a write of group 8, command 4, sequence 0x80
    assert_eq!(match_response(&frame, true, 0x80, 8, 4), Ok(Some(vec![0xA0, 0xA1])));
    // another sequence number: passed over
    assert_eq!(match_response(&frame, true, 0x81, 8, 4), Ok(None));
    assert_eq!(match_response(&frame, false, 0x7F, 1, 1), Ok(None));
    // the sequence number, but something else is off
    assert_eq!(match_response(&frame, false, 0x80, 8, 4), Err(ReceiveError::UnexpectedResponse));
    assert_eq!(match_response(&frame, true, 0x80, 9, 4), Err(ReceiveError::UnexpectedResponse));
    assert_eq!(match_response(&frame, true, 0x80, 8, 5), Err(ReceiveError::UnexpectedResponse));
    // a request is no response
    let request = [0x0A, 0, 0, 0, 0, 8, 0x80, 4];
    assert_eq!(match_response(&request, true, 0x80, 8, 4), Err(ReceiveError::UnexpectedResponse));
    let read_response = [0x09, 0, 0, 0, 0, 8, 0x80, 4];
    assert_eq!(match_response(&read_response, false, 0x80, 8, 4), Ok(Some(vec![])));
    // too short for a header
    assert_eq!(match_response(&frame[..7], true, 0x80, 8, 4), Err(ReceiveError::UnexpectedResponse));
    assert_eq!(match_response(&[], true, 0x80, 8, 4), Err(ReceiveError::UnexpectedResponse));
}

#[test]
fn sequence_mismatch_is_passed_over() {
    let transport = SerialTransport::new(64);
    let mut stream = response_frame(&transport, 3, 0x7F, 0, 0, b"stale");
    let first_len = stream.len();
    stream.extend_from_slice(&response_frame(&transport, 3, 0x80, 0, 0, b"fresh"));

    // only the stale frame has come: keep waiting
    assert_eq!(transport.receive_frame(&stream[..first_len], true, 0x80, 0, 0), Ok(None));
    assert_eq!(transport.receive_frame(&stream[..first_len + 5], true, 0x80, 0, 0), Ok(None));

    let (payload, consumed) = transport
        .receive_frame(&stream, true, 0x80, 0, 0)
        .unwrap()
        .unwrap();
    assert_eq!(payload, b"fresh");
    assert_eq!(consumed, stream.len());

    // asked for the first one, the second is never looked at
    let (payload, consumed) = transport
        .receive_frame(&stream, true, 0x7F, 0, 0)
        .unwrap()
        .unwrap();
    assert_eq!(payload, b"stale");
    assert_eq!(consumed, first_len);
}

#[test]
fn unexpected_response_on_matching_sequence() {
    let transport = SerialTransport::new(64);
    let mut stream = response_frame(&transport, 3, 1, 0, 0, b"x");
    stream.extend_from_slice(&response_frame(&transport, 1, 2, 0, 0, b"y"));
    assert_eq!(
        transport.receive_frame(&stream, true, 2, 0, 0),
        Err(ReceiveError::UnexpectedResponse)
    );
    assert_eq!(
        transport.receive_frame(&stream, false, 2, 0, 1),
        Err(ReceiveError::UnexpectedResponse)
    );
    let (payload, _) = transport.receive_frame(&stream, false, 2, 0, 0).unwrap().unwrap();
    assert_eq!(payload, b"y");
}

#[test]
fn checksum_error_fails_the_receive() {
    let transport = SerialTransport::new(127);
    let good = response_frame(&transport, 3, 5, 0, 0, b"payload");
    // flip one bit of the content: decode the line, change it, encode it again
    let body = &good[2..good.len() - 1];
    let mut raw = base64::prelude::BASE64_STANDARD.decode(body).unwrap();
    raw[12] ^= 0x01;
    let mut bad = vec![0x06, 0x09];
    bad.extend_from_slice(base64::prelude::BASE64_STANDARD.encode(&raw).as_bytes());
    bad.push(0x0A);
    let before = bad.clone();
    assert_eq!(
        transport.receive_frame(&bad, true, 5, 0, 0),
        Err(ReceiveError::ChecksumMismatch)
    );
    assert_eq!(bad, before);
    assert_eq!(bad.capacity(), before.capacity().max(bad.capacity()));
    // the connection goes on with the next frame
    assert!(transport.receive_frame(&good, true, 5, 0, 0).unwrap().is_some());
}

#[test]
fn transport_error_codes() {
    assert_eq!(SendError::DataTooBig.code(), "zephyr_mcumgr::transport::send::too_big");
    assert_eq!(SendError::DataTooBig.message(), "given data slice was too big");
    assert_eq!(
        ReceiveError::UnexpectedResponse.code(),
        "zephyr_mcumgr::transport::recv::unexpected"
    );
    assert_eq!(ReceiveError::UnexpectedResponse.message(), "received unexpected response");
    assert_eq!(SendError::TransportError.code(), "zephyr_mcumgr::transport::send::transport");
    assert_eq!(SendError::TransportError.message(), "transport error");
    assert_eq!(ReceiveError::TransportError.code(), "zephyr_mcumgr::transport::recv::transport");
    assert_eq!(ReceiveError::TransportError.message(), "transport error");
    let all = [
        ReceiveError::TransportError,
        ReceiveError::UnexpectedResponse,
        ReceiveError::Base64DecodeError,
        ReceiveError::UnexpectedMarker,
        ReceiveError::FrameTooBig,
        ReceiveError::LengthMismatch,
        ReceiveError::ChecksumMismatch,
    ];
    for (i, a) in all.iter().enumerate() {
        assert!(a.code().starts_with("zephyr_mcumgr::transport::recv::"));
        assert!(!a.message().is_empty());
        for b in &all[i + 1..] {
            assert_ne!(a.code(), b.code());
        }
    }
}
