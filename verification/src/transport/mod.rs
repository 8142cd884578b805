//! The SMP frame header and the errors of the transport layer.

use vstd::prelude::*;

pub mod codec;
pub mod serial;

pub use serial::SerialTransport;

verus! {

/// Size of an SMP frame header on the wire, in bytes.
pub const SMP_HEADER_SIZE: usize = 8;

/// Largest number of bytes a frame (header and payload) can have.
pub const SMP_TRANSFER_BUFFER_SIZE: usize = 65535;

/// The operation codes of the SMP header.
pub const SMP_OP_READ: u8 = 0;

/// Response to a read request.
pub const SMP_OP_READ_RSP: u8 = 1;

/// Write request.
pub const SMP_OP_WRITE: u8 = 2;

/// Response to a write request.
pub const SMP_OP_WRITE_RSP: u8 = 3;

/// The protocol version that requests carry.
pub const SMP_VERSION: u8 = 1;

/// Why a frame could not be sent.
#[derive(Debug, Clone, Copy, PartialEq, Eq, Structural)]
pub enum SendError {
    /// The byte stream failed to take the frame. The framing itself never
    /// fails so; whoever writes the lines reports it with this.
    TransportError,
    /// Header, payload and checksum together do not fit the 16-bit length
    /// field of the wire format.
    DataTooBig,
}

impl SendError {
    /// The identifier of the error.
    pub fn code(&self) -> (s: &'static str)
        ensures
            s@ == match *self {
                SendError::TransportError => "zephyr_mcumgr::transport::send::transport"@,
                SendError::DataTooBig => "zephyr_mcumgr::transport::send::too_big"@,
            },
    {
        match self {
            SendError::TransportError => "zephyr_mcumgr::transport::send::transport",
            SendError::DataTooBig => "zephyr_mcumgr::transport::send::too_big",
        }
    }

    /// The error in words.
    pub fn message(&self) -> (s: &'static str)
        ensures
            s@ == match *self {
                SendError::TransportError => "transport error"@,
                SendError::DataTooBig => "given data slice was too big"@,
            },
    {
        match self {
            SendError::TransportError => "transport error",
            SendError::DataTooBig => "given data slice was too big",
        }
    }
}

/// Why no frame could be taken from the received bytes.
#[derive(Debug, Clone, Copy, PartialEq, Eq, Structural)]
pub enum ReceiveError {
    /// The byte stream failed to give bytes, a timeout among the reasons.
    /// The framing itself never fails so; whoever reads the bytes reports it
    /// with this.
    TransportError,
    /// A frame with the awaited sequence number came, but its operation,
    /// group or command is not that of the request.
    UnexpectedResponse,
    /// The body of a line is not well-formed base64.
    Base64DecodeError,
    /// A continuation line does not open with its marker.
    UnexpectedMarker,
    /// The frame declares more bytes than the receive buffer holds.
    FrameTooBig,
    /// The lines hold more data than the frame declares, or the frame is too
    /// short to hold its own length and checksum.
    LengthMismatch,
    /// The checksum at the end of the frame is not that of its content.
    ChecksumMismatch,
}

impl ReceiveError {
    /// The identifier of the error.
    pub fn code(&self) -> (s: &'static str)
        ensures
            s@ == match *self {
                ReceiveError::TransportError => "zephyr_mcumgr::transport::recv::transport"@,
                ReceiveError::UnexpectedResponse => "zephyr_mcumgr::transport::recv::unexpected"@,
                ReceiveError::Base64DecodeError => "zephyr_mcumgr::transport::recv::base64_decode"@,
                ReceiveError::UnexpectedMarker => "zephyr_mcumgr::transport::recv::marker"@,
                ReceiveError::FrameTooBig => "zephyr_mcumgr::transport::recv::too_big"@,
                ReceiveError::LengthMismatch => "zephyr_mcumgr::transport::recv::length"@,
                ReceiveError::ChecksumMismatch => "zephyr_mcumgr::transport::recv::checksum"@,
            },
    {
        match self {
            ReceiveError::TransportError => "zephyr_mcumgr::transport::recv::transport",
            ReceiveError::UnexpectedResponse => "zephyr_mcumgr::transport::recv::unexpected",
            ReceiveError::Base64DecodeError => "zephyr_mcumgr::transport::recv::base64_decode",
            ReceiveError::UnexpectedMarker => "zephyr_mcumgr::transport::recv::marker",
            ReceiveError::FrameTooBig => "zephyr_mcumgr::transport::recv::too_big",
            ReceiveError::LengthMismatch => "zephyr_mcumgr::transport::recv::length",
            ReceiveError::ChecksumMismatch => "zephyr_mcumgr::transport::recv::checksum",
        }
    }

    /// The error in words.
    pub fn message(&self) -> (s: &'static str)
        ensures
            s@ == match *self {
                ReceiveError::TransportError => "transport error"@,
                ReceiveError::UnexpectedResponse => "received unexpected response"@,
                ReceiveError::Base64DecodeError => "received frame is not valid base64"@,
                ReceiveError::UnexpectedMarker => "received frame has a malformed marker"@,
                ReceiveError::FrameTooBig => "received frame exceeds the buffer"@,
                ReceiveError::LengthMismatch => "received frame disagrees with its declared length"@,
                ReceiveError::ChecksumMismatch => "received frame has a wrong checksum"@,
            },
    {
        match self {
            ReceiveError::TransportError => "transport error",
            ReceiveError::UnexpectedResponse => "received unexpected response",
            ReceiveError::Base64DecodeError => "received frame is not valid base64",
            ReceiveError::UnexpectedMarker => "received frame has a malformed marker",
            ReceiveError::FrameTooBig => "received frame exceeds the buffer",
            ReceiveError::LengthMismatch => "received frame disagrees with its declared length",
            ReceiveError::ChecksumMismatch => "received frame has a wrong checksum",
        }
    }
}

/// The eight bytes in front of every SMP payload.
#[derive(Debug, Clone, Copy, PartialEq, Eq, Structural)]
pub struct SmpHeader {
    /// Reserved, three bits.
    pub res: u8,
    /// Protocol version, two bits.
    pub ver: u8,
    /// Operation, three bits.
    pub op: u8,
    /// Flags, unused.
    pub flags: u8,
    /// Length of the payload that follows the header.
    pub data_length: u16,
    /// Command group.
    pub group_id: u16,
    /// Tag that a response copies from its request.
    pub sequence_num: u8,
    /// Command within the group.
    pub command_id: u8,
}

/// The first header byte: `res` in the top three bits, `ver` in the next two,
/// `op` in the low three.
pub open spec fn pack_first_byte(res: u8, ver: u8, op: u8) -> u8 {
    (res << 5) | (ver << 3) | op
}

impl SmpHeader {
    /// Every bit field fits its width.
    pub open spec fn wf(self) -> bool {
        self.res < 8 && self.ver < 4 && self.op < 8
    }

    /// The wire form: big-endian, most significant bit field first.
    pub open spec fn wire(self) -> Seq<u8> {
        seq![
            pack_first_byte(self.res, self.ver, self.op),
            self.flags,
            (self.data_length >> 8) as u8,
            (self.data_length & 0xff) as u8,
            (self.group_id >> 8) as u8,
            (self.group_id & 0xff) as u8,
            self.sequence_num,
            self.command_id,
        ]
    }

    /// The header that eight wire bytes stand for.
    pub open spec fn parse(b: Seq<u8>) -> SmpHeader {
        SmpHeader {
            res: b[0] >> 5,
            ver: (b[0] >> 3) & 0x3,
            op: b[0] & 0x7,
            flags: b[1],
            data_length: ((b[2] as u16) << 8) | (b[3] as u16),
            group_id: ((b[4] as u16) << 8) | (b[5] as u16),
            sequence_num: b[6],
            command_id: b[7],
        }
    }

    /// Packs the header into its eight wire bytes.
    pub fn to_bytes(&self) -> (out: [u8; 8])
        requires
            self.wf(),
        ensures
            out@ == self.wire(),
    {
        let first: u8 = (self.res << 5) | (self.ver << 3) | self.op;
        let out: [u8; 8] = [
            first,
            self.flags,
            (self.data_length >> 8) as u8,
            (self.data_length & 0xff) as u8,
            (self.group_id >> 8) as u8,
            (self.group_id & 0xff) as u8,
            self.sequence_num,
            self.command_id,
        ];
        assert(out@ =~= self.wire());
        out
    }

    /// Unpacks eight wire bytes. Every byte pattern is a header.
    pub fn from_bytes(bytes: &[u8; 8]) -> (h: SmpHeader)
        ensures
            h == SmpHeader::parse(bytes@),
            h.wf(),
    {
        let b0: u8 = bytes[0];
        let h = SmpHeader {
            res: b0 >> 5,
            ver: (b0 >> 3) & 0x3,
            op: b0 & 0x7,
            flags: bytes[1],
            data_length: ((bytes[2] as u16) << 8) | (bytes[3] as u16),
            group_id: ((bytes[4] as u16) << 8) | (bytes[5] as u16),
            sequence_num: bytes[6],
            command_id: bytes[7],
        };
        assert(b0 >> 5 < 8 && (b0 >> 3) & 0x3 < 4 && b0 & 0x7 < 8) by (bit_vector);
        h
    }
}

/// The operation code of a request.
pub open spec fn request_op(write_operation: bool) -> u8 {
    if write_operation {
        SMP_OP_WRITE
    } else {
        SMP_OP_READ
    }
}

/// The operation code of the response to a request.
pub open spec fn response_op(write_operation: bool) -> u8 {
    if write_operation {
        SMP_OP_WRITE_RSP
    } else {
        SMP_OP_READ_RSP
    }
}

/// The header of a request: reserved bits and flags zero, version 1.
pub open spec fn request_header_of(
    write_operation: bool,
    sequence_num: u8,
    group_id: u16,
    command_id: u8,
    data_len: int,
) -> SmpHeader {
    SmpHeader {
        res: 0,
        ver: SMP_VERSION,
        op: request_op(write_operation),
        flags: 0,
        data_length: data_len as u16,
        group_id,
        sequence_num,
        command_id,
    }
}

/// The header bytes of a request with a payload of `data_len` bytes.
///
/// Fails with `DataTooBig` exactly when the length does not fit the 16-bit
/// length field.
pub fn request_header(
    write_operation: bool,
    sequence_num: u8,
    group_id: u16,
    command_id: u8,
    data_len: usize,
) -> (r: Result<[u8; 8], SendError>)
    ensures
        data_len > 65535 <==> r is Err,
        r matches Err(e) ==> e == SendError::DataTooBig,
        r matches Ok(bytes) ==> bytes@ == request_header_of(
            write_operation,
            sequence_num,
            group_id,
            command_id,
            data_len as int,
        ).wire(),
{
    if data_len > 65535 {
        return Err(SendError::DataTooBig);
    }
    let header = SmpHeader {
        res: 0,
        ver: SMP_VERSION,
        op: if write_operation {
            SMP_OP_WRITE
        } else {
            SMP_OP_READ
        },
        flags: 0,
        data_length: data_len as u16,
        group_id,
        sequence_num,
        command_id,
    };
    Ok(header.to_bytes())
}

/// What a received frame is to a request that waits for its response.
///
/// `Ok(None)`: the frame carries another sequence number and is passed over.
/// `Ok(Some(payload))`: the frame is the response. An error: the frame
/// carries the sequence number, but not the group, the command and the
/// response operation of the request, or it is too short to hold a header.
pub open spec fn match_frame(
    frame: Seq<u8>,
    write_operation: bool,
    sequence_num: u8,
    group_id: u16,
    command_id: u8,
) -> Result<Option<Seq<u8>>, ReceiveError> {
    if frame.len() < 8 {
        Err(ReceiveError::UnexpectedResponse)
    } else {
        let header = SmpHeader::parse(frame.take(8));
        if header.sequence_num != sequence_num {
            Ok(None)
        } else if header.group_id != group_id || header.command_id != command_id || header.op
            != response_op(write_operation) {
            Err(ReceiveError::UnexpectedResponse)
        } else {
            Ok(Some(frame.skip(8)))
        }
    }
}

/// The frame carries the sequence number, group and command of the request
/// and the operation of a response to it.
pub open spec fn answers(
    frame: Seq<u8>,
    write_operation: bool,
    sequence_num: u8,
    group_id: u16,
    command_id: u8,
) -> bool {
    let header = SmpHeader::parse(frame.take(8));
    &&& frame.len() >= 8
    &&& header.sequence_num == sequence_num
    &&& header.group_id == group_id
    &&& header.command_id == command_id
    &&& header.op == response_op(write_operation)
}

/// A frame is taken as the response exactly when it answers the request;
/// what is handed out then is all that stands behind its header.
pub proof fn lemma_only_answers_are_delivered(
    frame: Seq<u8>,
    write_operation: bool,
    sequence_num: u8,
    group_id: u16,
    command_id: u8,
)
    ensures
        answers(frame, write_operation, sequence_num, group_id, command_id) <==> match_frame(
            frame,
            write_operation,
            sequence_num,
            group_id,
            command_id,
        ) is Ok && match_frame(frame, write_operation, sequence_num, group_id, command_id)->Ok_0
            is Some,
        answers(frame, write_operation, sequence_num, group_id, command_id) ==> match_frame(
            frame,
            write_operation,
            sequence_num,
            group_id,
            command_id,
        ) == Ok::<Option<Seq<u8>>, ReceiveError>(Some(frame.skip(8))),
{
}

/// The response that a device builds for a request, with any payload, is
/// taken as the response to that request.
pub proof fn lemma_response_is_delivered(
    response: SmpHeader,
    payload: Seq<u8>,
    write_operation: bool,
)
    requires
        response.wf(),
        response.op == response_op(write_operation),
    ensures
        match_frame(
            response.wire() + payload,
            write_operation,
            response.sequence_num,
            response.group_id,
            response.command_id,
        ) == Ok::<Option<Seq<u8>>, ReceiveError>(Some(payload)),
{
    lemma_header_round_trip(response);
    let frame = response.wire() + payload;
    assert(frame.take(8) =~= response.wire());
    assert(frame.skip(8) =~= payload);
}

/// Holds a received frame against the request that waits for its response.
pub fn match_response(
    frame: &[u8],
    write_operation: bool,
    sequence_num: u8,
    group_id: u16,
    command_id: u8,
) -> (r: Result<Option<Vec<u8>>, ReceiveError>)
    ensures
        match match_frame(frame@, write_operation, sequence_num, group_id, command_id) {
            Ok(Some(payload)) => r matches Ok(Some(p)) && p@ == payload,
            Ok(None) => r matches Ok(None),
            Err(e) => r == Err::<Option<Vec<u8>>, ReceiveError>(e),
        },
{
    if frame.len() < 8 {
        return Err(ReceiveError::UnexpectedResponse);
    }
    let header_bytes: [u8; 8] = [
        frame[0],
        frame[1],
        frame[2],
        frame[3],
        frame[4],
        frame[5],
        frame[6],
        frame[7],
    ];
    assert(header_bytes@ =~= frame@.take(8));
    let header = SmpHeader::from_bytes(&header_bytes);
    let expected_op: u8 = if write_operation {
        SMP_OP_WRITE_RSP
    } else {
        SMP_OP_READ_RSP
    };
    // Frames with another sequence number are no error: they are passed over.
    if header.sequence_num != sequence_num {
        return Ok(None);
    }
    if header.group_id != group_id || header.command_id != command_id || header.op != expected_op {
        return Err(ReceiveError::UnexpectedResponse);
    }
    let payload: Vec<u8> = vstd::slice::slice_to_vec(&frame[8..frame.len()]);
    assert(payload@ =~= frame@.skip(8));
    Ok(Some(payload))
}

/// Packing the fields of one byte and taking them apart again gives the byte.
pub proof fn lemma_first_byte_repacks(b: u8)
    ensures
        pack_first_byte(b >> 5, (b >> 3) & 0x3, b & 0x7) == b,
{
    assert(((b >> 5) << 5) | (((b >> 3) & 0x3) << 3) | (b & 0x7) == b) by (bit_vector);
}

/// Taking a packed byte apart gives back fields that fit their widths.
pub proof fn lemma_first_byte_unpacks(res: u8, ver: u8, op: u8)
    requires
        res < 8,
        ver < 4,
        op < 8,
    ensures
        pack_first_byte(res, ver, op) >> 5 == res,
        (pack_first_byte(res, ver, op) >> 3) & 0x3 == ver,
        pack_first_byte(res, ver, op) & 0x7 == op,
{
    assert(((res << 5) | (ver << 3) | op) >> 5 == res
        && ((((res << 5) | (ver << 3) | op) >> 3) & 0x3) == ver
        && (((res << 5) | (ver << 3) | op) & 0x7) == op) by (bit_vector)
        requires
            res < 8,
            ver < 4,
            op < 8,
    ;
}

/// A 16-bit field survives the split into two bytes.
pub proof fn lemma_u16_bytes(v: u16)
    ensures
        ((((v >> 8) as u8) as u16) << 8) | (((v & 0xff) as u8) as u16) == v,
{
    assert(((((v >> 8) as u8) as u16) << 8) | (((v & 0xff) as u8) as u16) == v) by (bit_vector);
}

/// Two bytes survive being joined into a 16-bit field.
pub proof fn lemma_bytes_u16(hi: u8, lo: u8)
    ensures
        ((((hi as u16) << 8) | (lo as u16)) >> 8) as u8 == hi,
        ((((hi as u16) << 8) | (lo as u16)) & 0xff) as u8 == lo,
{
    assert(((((hi as u16) << 8) | (lo as u16)) >> 8) as u8 == hi
        && ((((hi as u16) << 8) | (lo as u16)) & 0xff) as u8 == lo) by (bit_vector);
}

/// Any eight bytes, read as a header and written again, are the same eight
/// bytes.
pub proof fn lemma_header_bytes_round_trip(b: Seq<u8>)
    requires
        b.len() == 8,
    ensures
        SmpHeader::parse(b).wf(),
        SmpHeader::parse(b).wire() == b,
{
    let h = SmpHeader::parse(b);
    let b0 = b[0];
    assert(b0 >> 5 < 8 && (b0 >> 3) & 0x3 < 4 && b0 & 0x7 < 8) by (bit_vector);
    lemma_first_byte_repacks(b[0]);
    lemma_bytes_u16(b[2], b[3]);
    lemma_bytes_u16(b[4], b[5]);
    assert(h.wire() =~= b);
}

/// A header whose bit fields fit, written and read again, is the same header.
pub proof fn lemma_header_round_trip(h: SmpHeader)
    requires
        h.wf(),
    ensures
        h.wire().len() == 8,
        SmpHeader::parse(h.wire()) == h,
{
    lemma_first_byte_unpacks(h.res, h.ver, h.op);
    lemma_u16_bytes(h.data_length);
    lemma_u16_bytes(h.group_id);
}

} // verus!
