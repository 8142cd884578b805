//! The serial line framing of SMP.
//!
//! A frame travels as one or more lines. The raw frame is a two-byte
//! big-endian length, the SMP header, the payload and a CRC-16/XMODEM over
//! header and payload. It is cut into chunks of whole base64 quartets; each
//! chunk becomes a line: a two-byte opener, the base64 text of the chunk, and
//! a line feed.

use vstd::prelude::*;
use crate::transport::codec::{
    base64_data, base64_decode, base64_encode, base64_len, base64_text, crc16, crc16_xmodem,
    is_base64_byte,
};
use crate::transport::{
    answers, match_frame, match_response, request_header, request_header_of, ReceiveError,
    SendError, SMP_TRANSFER_BUFFER_SIZE,
};

verus! {

/// First byte of the opener of the first line of a frame.
pub const FRAME_START_1: u8 = 0x06;

/// Second byte of the opener of the first line of a frame.
pub const FRAME_START_2: u8 = 0x09;

/// First byte of the opener of a continuation line.
pub const FRAME_CONTINUE_1: u8 = 0x04;

/// Second byte of the opener of a continuation line.
pub const FRAME_CONTINUE_2: u8 = 0x14;

/// The byte that ends every line.
pub const FRAME_END: u8 = 0x0A;

/// The line length that Zephyr's serial transport is built for.
pub const SERIAL_TRANSPORT_DEFAULT_MTU: usize = 127;

/// The shortest line that still carries one base64 quartet.
pub const SERIAL_TRANSPORT_MIN_MTU: usize = 7;

/// Largest value of the length field: header, payload and checksum.
pub const MAX_DECLARED_LENGTH: usize = 65535;

/// Raw bytes that one line of at most `mtu` bytes carries: the whole base64
/// quartets that fit beside opener and line feed, three bytes each.
pub open spec fn chunk_size(mtu: int) -> int {
    ((mtu - 3) / 4) * 3
}

/// A line of `len` bytes fits the MTU and holds, between its opener and its
/// line feed, whole base64 quartets only.
pub open spec fn whole_quartets_within(len: int, mtu: int) -> bool {
    3 <= len <= mtu && (len - 3) % 4 == 0
}

/// The two bytes of a 16-bit number, most significant first.
pub open spec fn be_bytes(v: int) -> Seq<u8> {
    seq![(v / 256) as u8, (v % 256) as u8]
}

/// The number that two bytes at `at` stand for, most significant first.
pub open spec fn be_u16_at(data: Seq<u8>, at: int) -> int {
    256 * (data[at] as int) + data[at + 1] as int
}

/// The raw frame: declared length, header, payload, checksum.
pub open spec fn raw_frame(header: Seq<u8>, data: Seq<u8>) -> Seq<u8> {
    be_bytes((header.len() + data.len() + 2) as int) + header + data + be_bytes(
        crc16_xmodem(header + data) as int,
    )
}

/// The opener of a line.
pub open spec fn opener(first: bool) -> Seq<u8> {
    if first {
        seq![FRAME_START_1, FRAME_START_2]
    } else {
        seq![FRAME_CONTINUE_1, FRAME_CONTINUE_2]
    }
}

/// One line: opener, base64 text of the chunk, line feed.
pub open spec fn line_frame(first: bool, chunk: Seq<u8>) -> Seq<u8> {
    opener(first) + base64_text(chunk) + seq![FRAME_END]
}

/// The lines of a raw frame cut into chunks of `chunk` bytes.
pub open spec fn frame_lines(raw: Seq<u8>, chunk: int, first: bool) -> Seq<Seq<u8>>
    decreases raw.len(),
{
    if chunk <= 0 || raw.len() <= chunk {
        seq![line_frame(first, raw)]
    } else {
        seq![line_frame(first, raw.take(chunk))] + frame_lines(raw.skip(chunk), chunk, false)
    }
}

/// The lines one after the other, as they stand on the wire.
pub open spec fn join_lines(lines: Seq<Seq<u8>>) -> Seq<u8>
    decreases lines.len(),
{
    if lines.len() == 0 {
        seq![]
    } else {
        lines[0] + join_lines(lines.skip(1))
    }
}

/// What the lines of a vector hold.
pub open spec fn lines_view(lines: Seq<Vec<u8>>) -> Seq<Seq<u8>> {
    Seq::new(lines.len(), |i: int| lines[i]@)
}

/// Index of the first `byte` at or behind `from`; the length of `s` if there
/// is none.
pub open spec fn find_byte(s: Seq<u8>, from: int, byte: u8) -> int
    decreases s.len() - from,
{
    if from < 0 || from >= s.len() {
        s.len() as int
    } else if s[from] == byte {
        from
    } else {
        find_byte(s, from + 1, byte)
    }
}

/// Index of the first opener of a frame at or behind `from`; the length of
/// `s` if there is none.
pub open spec fn find_frame_start(s: Seq<u8>, from: int) -> int
    decreases s.len() - from,
{
    if from < 0 || from + 1 >= s.len() {
        s.len() as int
    } else if s[from] == FRAME_START_1 && s[from + 1] == FRAME_START_2 {
        from
    } else {
        find_frame_start(s, from + 1)
    }
}

/// What a receiver makes of the bytes it has so far.
pub ghost enum FrameScan {
    /// No whole frame yet: more bytes are needed.
    Incomplete,
    /// A frame: header and payload, and how many bytes of the stream it took.
    Complete { frame: Seq<u8>, consumed: int },
    /// The bytes are no frame.
    Failed(ReceiveError),
}

/// The last step: `got` holds the declared number of bytes behind its length
/// field. The checksum at its end has to be that of what lies between.
pub open spec fn check_frame(got: Seq<u8>, consumed: int) -> FrameScan {
    if got.len() < 4 {
        FrameScan::Failed(ReceiveError::LengthMismatch)
    } else {
        let content = got.subrange(2, got.len() - 2);
        if be_u16_at(got, got.len() - 2) != crc16_xmodem(content) {
            FrameScan::Failed(ReceiveError::ChecksumMismatch)
        } else {
            FrameScan::Complete { frame: content, consumed }
        }
    }
}

/// Reads lines from `pos`, which stands right behind an opener, with `acc`
/// the raw bytes of the lines before.
///
/// The body of a line runs up to the next line feed and is base64. Once two
/// bytes are there, they declare the length of what follows them. A frame
/// that declares more than `capacity` is refused. While less than the
/// declared length has come, the next line has to open as a continuation.
pub open spec fn scan_lines(s: Seq<u8>, pos: int, acc: Seq<u8>, capacity: int) -> FrameScan
    decreases s.len() - pos,
{
    let end = find_byte(s, pos, FRAME_END);
    if pos < 0 || end >= s.len() {
        FrameScan::Incomplete
    } else {
        match base64_data(s.subrange(pos, end)) {
            None => FrameScan::Failed(ReceiveError::Base64DecodeError),
            Some(data) => {
                let got = acc + data;
                if got.len() < 2 {
                    FrameScan::Failed(ReceiveError::LengthMismatch)
                } else if be_u16_at(got, 0) > capacity {
                    FrameScan::Failed(ReceiveError::FrameTooBig)
                } else if got.len() - 2 > be_u16_at(got, 0) {
                    FrameScan::Failed(ReceiveError::LengthMismatch)
                } else if got.len() - 2 == be_u16_at(got, 0) {
                    check_frame(got, end + 1)
                } else if end + 1 >= s.len() {
                    FrameScan::Incomplete
                } else if s[end + 1] != FRAME_CONTINUE_1 {
                    FrameScan::Failed(ReceiveError::UnexpectedMarker)
                } else if end + 2 >= s.len() {
                    FrameScan::Incomplete
                } else if s[end + 2] != FRAME_CONTINUE_2 {
                    FrameScan::Failed(ReceiveError::UnexpectedMarker)
                } else {
                    proof {
                        lemma_find_byte_bounds(s, pos, FRAME_END);
                    }
                    scan_lines(s, end + 3, got, capacity)
                }
            },
        }
    }
}

/// The frame at the front of a received stream: everything before the first
/// opener is passed over, then lines are read until the declared length is
/// there.
pub open spec fn scan_frame(s: Seq<u8>, capacity: int) -> FrameScan {
    let start = find_frame_start(s, 0);
    if start >= s.len() {
        FrameScan::Incomplete
    } else {
        scan_lines(s, start + 2, Seq::empty(), capacity)
    }
}

/// What a request that waits for its response makes of the bytes received
/// so far.
pub ghost enum ResponseScan {
    /// The response has not come yet: more bytes are needed.
    Incomplete,
    /// The payload of the response, and how many bytes of the stream were
    /// taken up to its end.
    Delivered { payload: Seq<u8>, consumed: int },
    /// The bytes hold no frame, or a frame that answers the request wrongly.
    Failed(ReceiveError),
}

/// Reads frame after frame from `from` on until one carries the sequence
/// number of the request. Frames with another sequence number are passed
/// over.
pub open spec fn scan_response(
    s: Seq<u8>,
    from: int,
    write_operation: bool,
    sequence_num: u8,
    group_id: u16,
    command_id: u8,
) -> ResponseScan
    decreases s.len() - from,
{
    if from < 0 || from > s.len() {
        ResponseScan::Incomplete
    } else {
        match scan_frame(s.skip(from), SMP_TRANSFER_BUFFER_SIZE as int) {
            FrameScan::Incomplete => ResponseScan::Incomplete,
            FrameScan::Failed(e) => ResponseScan::Failed(e),
            FrameScan::Complete { frame, consumed } => {
                if consumed <= 0 || from + consumed > s.len() {
                    ResponseScan::Incomplete
                } else {
                    match match_frame(frame, write_operation, sequence_num, group_id, command_id) {
                        Err(e) => ResponseScan::Failed(e),
                        Ok(Some(payload)) => ResponseScan::Delivered {
                            payload,
                            consumed: from + consumed,
                        },
                        Ok(None) => scan_response(
                            s,
                            from + consumed,
                            write_operation,
                            sequence_num,
                            group_id,
                            command_id,
                        ),
                    }
                }
            },
        }
    }
}

/// What a request gets as its response is the payload of a frame of the
/// stream that answers it: frames with another sequence number are never
/// handed out.
pub proof fn lemma_delivered_payload_answers(
    s: Seq<u8>,
    from: int,
    write_operation: bool,
    sequence_num: u8,
    group_id: u16,
    command_id: u8,
)
    requires
        0 <= from <= s.len(),
    ensures
        scan_response(
            s,
            from,
            write_operation,
            sequence_num,
            group_id,
            command_id,
        ) matches ResponseScan::Delivered { payload, consumed } ==> from < consumed <= s.len()
            && exists|frame: Seq<u8>| #[trigger]
            answers(frame, write_operation, sequence_num, group_id, command_id) && payload
                == frame.skip(8),
    decreases s.len() - from,
{
    match scan_frame(s.skip(from), SMP_TRANSFER_BUFFER_SIZE as int) {
        FrameScan::Complete { frame, consumed } => {
            if consumed > 0 && from + consumed <= s.len() {
                match match_frame(frame, write_operation, sequence_num, group_id, command_id) {
                    Ok(Some(payload)) => {
                        assert(answers(
                            frame,
                            write_operation,
                            sequence_num,
                            group_id,
                            command_id,
                        ));
                    },
                    Ok(None) => {
                        lemma_delivered_payload_answers(
                            s,
                            from + consumed,
                            write_operation,
                            sequence_num,
                            group_id,
                            command_id,
                        );
                    },
                    Err(_) => {},
                }
            }
        },
        _ => {},
    }
}

/// A frame takes at least the bytes up to its last line feed, and no more
/// than there are.
pub proof fn lemma_scan_lines_consumed(s: Seq<u8>, pos: int, acc: Seq<u8>, capacity: int)
    requires
        0 <= pos <= s.len(),
    ensures
        scan_lines(s, pos, acc, capacity) matches FrameScan::Complete { consumed, .. } ==> pos
            < consumed <= s.len() && s[consumed - 1] == FRAME_END,
    decreases s.len() - pos,
{
    lemma_find_byte_bounds(s, pos, FRAME_END);
    let end = find_byte(s, pos, FRAME_END);
    if end < s.len() {
        match base64_data(s.subrange(pos, end)) {
            None => {},
            Some(data) => {
                let got = acc + data;
                if got.len() >= 2 && be_u16_at(got, 0) <= capacity && got.len() - 2 < be_u16_at(
                    got,
                    0,
                ) && end + 2 < s.len() && s[end + 1] == FRAME_CONTINUE_1 && s[end + 2]
                    == FRAME_CONTINUE_2 {
                    lemma_scan_lines_consumed(s, end + 3, got, capacity);
                }
            },
        }
    }
}

/// The search for an opener never goes backwards nor past the end.
pub proof fn lemma_find_frame_start_bounds(s: Seq<u8>, from: int)
    requires
        0 <= from <= s.len(),
    ensures
        from <= find_frame_start(s, from) <= s.len(),
        find_frame_start(s, from) < s.len() ==> find_frame_start(s, from) + 2 <= s.len(),
    decreases s.len() - from,
{
    if from + 1 < s.len() && !(s[from] == FRAME_START_1 && s[from + 1] == FRAME_START_2) {
        lemma_find_frame_start_bounds(s, from + 1);
    }
}

/// A frame takes at least one byte of the stream and no more than there are:
/// a receiver never looks behind the line feed that ends the frame.
pub proof fn lemma_scan_frame_consumed(s: Seq<u8>, capacity: int)
    ensures
        scan_frame(s, capacity) matches FrameScan::Complete { consumed, .. } ==> 0 < consumed
            <= s.len() && s[consumed - 1] == FRAME_END,
{
    lemma_find_frame_start_bounds(s, 0);
    let start = find_frame_start(s, 0);
    if start < s.len() {
        lemma_scan_lines_consumed(s, start + 2, Seq::empty(), capacity);
    }
}

/// Two streams hold the same first `k` bytes.
pub open spec fn agree_upto(a: Seq<u8>, b: Seq<u8>, k: int) -> bool {
    &&& 0 <= k <= a.len()
    &&& k <= b.len()
    &&& forall|i: int| 0 <= i < k ==> a[i] == b[i]
}

proof fn lemma_find_byte_agree(a: Seq<u8>, b: Seq<u8>, from: int, byte: u8, k: int)
    requires
        agree_upto(a, b, k),
        0 <= from,
        find_byte(a, from, byte) < k,
    ensures
        find_byte(b, from, byte) == find_byte(a, from, byte),
{
    if from <= a.len() {
        lemma_find_byte_bounds(a, from, byte);
        lemma_find_byte_at(b, from, byte, find_byte(a, from, byte));
    }
}

proof fn lemma_find_frame_start_agree(a: Seq<u8>, b: Seq<u8>, from: int, k: int)
    requires
        agree_upto(a, b, k),
        0 <= from,
        find_frame_start(a, from) + 2 <= k,
    ensures
        find_frame_start(b, from) == find_frame_start(a, from),
    decreases a.len() - from,
{
    if from + 1 < a.len() && !(a[from] == FRAME_START_1 && a[from + 1] == FRAME_START_2) {
        lemma_find_frame_start_bounds(a, from + 1);
        lemma_find_frame_start_agree(a, b, from + 1, k);
    }
}

proof fn lemma_scan_lines_agree(
    a: Seq<u8>,
    b: Seq<u8>,
    pos: int,
    acc: Seq<u8>,
    capacity: int,
    k: int,
)
    requires
        agree_upto(a, b, k),
        0 <= pos <= a.len(),
        scan_lines(a, pos, acc, capacity) matches FrameScan::Complete { consumed, .. } && consumed
            <= k,
    ensures
        scan_lines(b, pos, acc, capacity) == scan_lines(a, pos, acc, capacity),
    decreases a.len() - pos,
{
    lemma_find_byte_bounds(a, pos, FRAME_END);
    lemma_scan_lines_consumed(a, pos, acc, capacity);
    let end = find_byte(a, pos, FRAME_END);
    assert(end < a.len());
    match base64_data(a.subrange(pos, end)) {
        None => {},
        Some(data) => {
            let got = acc + data;
            let go_on = got.len() >= 2 && be_u16_at(got, 0) <= capacity && got.len() - 2
                < be_u16_at(got, 0);
            if go_on {
                lemma_scan_lines_consumed(a, end + 3, got, capacity);
                lemma_find_byte_agree(a, b, pos, FRAME_END, k);
                assert(a.subrange(pos, end) =~= b.subrange(pos, end));
                lemma_scan_lines_agree(a, b, end + 3, got, capacity, k);
            } else {
                lemma_find_byte_agree(a, b, pos, FRAME_END, k);
                assert(a.subrange(pos, end) =~= b.subrange(pos, end));
            }
        },
    }
}

/// A receiver never reads behind the end of a frame: whatever follows the
/// line feed that completes the frame, the frame and the number of bytes it
/// took are the same.
pub proof fn lemma_frame_ends_the_reading(s: Seq<u8>, rest: Seq<u8>, capacity: int)
    requires
        scan_frame(s, capacity) is Complete,
    ensures
        0 < scan_frame(s, capacity)->consumed <= s.len(),
        scan_frame(s.take(scan_frame(s, capacity)->consumed) + rest, capacity) == scan_frame(
            s,
            capacity,
        ),
{
    lemma_scan_frame_consumed(s, capacity);
    lemma_find_frame_start_bounds(s, 0);
    let consumed = scan_frame(s, capacity)->consumed;
    let other = s.take(consumed) + rest;
    let start = find_frame_start(s, 0);
    assert(agree_upto(s, other, consumed));
    lemma_scan_lines_consumed(s, start + 2, Seq::empty(), capacity);
    lemma_find_frame_start_agree(s, other, 0, consumed);
    lemma_scan_lines_agree(s, other, start + 2, Seq::empty(), capacity, consumed);
}

/// The search for a byte never goes backwards nor past the end.
pub proof fn lemma_find_byte_bounds(s: Seq<u8>, from: int, byte: u8)
    requires
        0 <= from <= s.len(),
    ensures
        from <= find_byte(s, from, byte) <= s.len(),
        find_byte(s, from, byte) < s.len() ==> s[find_byte(s, from, byte)] == byte,
        forall|i: int| from <= i < find_byte(s, from, byte) ==> s[i] != byte,
    decreases s.len() - from,
{
    if from < s.len() && s[from] != byte {
        lemma_find_byte_bounds(s, from + 1, byte);
    }
}

/// The search for a byte stops at `target` if the byte stands there and
/// nowhere between `from` and there.
pub proof fn lemma_find_byte_at(s: Seq<u8>, from: int, byte: u8, target: int)
    requires
        0 <= from <= target < s.len(),
        s[target] == byte,
        forall|i: int| from <= i < target ==> s[i] != byte,
    ensures
        find_byte(s, from, byte) == target,
    decreases target - from,
{
    if from < target {
        lemma_find_byte_at(s, from + 1, byte, target);
    }
}

/// What stands on the wire behind the opener of the first line: the text of
/// each chunk with its line feed, and a continuation opener between two.
spec fn body_lines(raw: Seq<u8>, chunk: int) -> Seq<u8>
    decreases raw.len(),
{
    if chunk <= 0 || raw.len() <= chunk {
        base64_text(raw) + seq![FRAME_END]
    } else {
        base64_text(raw.take(chunk)) + seq![FRAME_END] + opener(false) + body_lines(
            raw.skip(chunk),
            chunk,
        )
    }
}

/// The decoder reads the text of `piece` back as `piece`, and the text holds
/// nothing but base64 characters.
spec fn codec_inverts(piece: Seq<u8>) -> bool {
    &&& base64_data(base64_text(piece)) == Some(piece)
    &&& forall|i: int|
        0 <= i < base64_text(piece).len() ==> is_base64_byte(#[trigger] base64_text(piece)[i])
}

/// [`codec_inverts`] of every chunk of `raw`.
spec fn chunks_invert(raw: Seq<u8>, chunk: int) -> bool
    decreases raw.len(),
{
    if chunk <= 0 || raw.len() <= chunk {
        codec_inverts(raw)
    } else {
        codec_inverts(raw.take(chunk)) && chunks_invert(raw.skip(chunk), chunk)
    }
}

proof fn lemma_join_singleton(line: Seq<u8>)
    ensures
        join_lines(seq![line]) == line,
{
    let lines = seq![line];
    assert(lines.skip(1) =~= Seq::<Seq<u8>>::empty());
    assert(join_lines(lines.skip(1)) =~= Seq::<u8>::empty());
    assert(join_lines(lines) =~= line);
}

proof fn lemma_join_front(line: Seq<u8>, rest: Seq<Seq<u8>>)
    ensures
        join_lines(seq![line] + rest) == line + join_lines(rest),
{
    let lines = seq![line] + rest;
    assert(lines.skip(1) =~= rest);
    assert(lines[0] == line);
}

proof fn lemma_joined_lines(raw: Seq<u8>, chunk: int, first: bool)
    ensures
        join_lines(frame_lines(raw, chunk, first)) == opener(first) + body_lines(raw, chunk),
    decreases raw.len(),
{
    if chunk <= 0 || raw.len() <= chunk {
        lemma_join_singleton(line_frame(first, raw));
        assert(line_frame(first, raw) =~= opener(first) + body_lines(raw, chunk));
    } else {
        let line = line_frame(first, raw.take(chunk));
        let rest = frame_lines(raw.skip(chunk), chunk, false);
        lemma_join_front(line, rest);
        lemma_joined_lines(raw.skip(chunk), chunk, false);
        assert(line + (opener(false) + body_lines(raw.skip(chunk), chunk)) =~= opener(first)
            + body_lines(raw, chunk));
    }
}

proof fn lemma_scan_body(
    raw: Seq<u8>,
    chunk: int,
    off: int,
    s: Seq<u8>,
    pos: int,
    capacity: int,
)
    requires
        chunk >= 2,
        raw.len() >= 4,
        be_u16_at(raw, 0) == raw.len() - 2,
        raw.len() - 2 <= capacity,
        be_u16_at(raw, raw.len() - 2) == crc16_xmodem(raw.subrange(2, raw.len() - 2)),
        0 <= off < raw.len(),
        off == 0 || off >= 2,
        chunks_invert(raw.skip(off), chunk),
        0 <= pos <= s.len(),
        s.skip(pos) == body_lines(raw.skip(off), chunk),
    ensures
        scan_lines(s, pos, raw.take(off), capacity) == (FrameScan::Complete {
            frame: raw.subrange(2, raw.len() - 2),
            consumed: s.len() as int,
        }),
    decreases raw.len() - off,
{
    let tail = raw.skip(off);
    let last = tail.len() <= chunk;
    let piece = if last {
        tail
    } else {
        tail.take(chunk)
    };
    let text = base64_text(piece);
    let body = s.skip(pos);
    let end = pos + text.len();
    assert(codec_inverts(piece));
    assert(body.len() > text.len());
    assert forall|i: int| 0 <= i < text.len() implies s[pos + i] == text[i] by {
        assert(body[i] == text[i]);
    }
    assert(s[end] == FRAME_END) by {
        assert(body[text.len() as int] == FRAME_END);
    }
    assert forall|i: int| pos <= i < end implies s[i] != FRAME_END by {
        assert(s[i] == text[i - pos]);
        assert(is_base64_byte(text[i - pos]));
    }
    lemma_find_byte_at(s, pos, FRAME_END, end);
    assert(s.subrange(pos, end) =~= text);
    let got = raw.take(off) + piece;
    assert(got =~= raw.take(off + piece.len()));
    assert(got.len() >= 2);
    assert(got[0] == raw[0] && got[1] == raw[1]);
    if last {
        assert(got =~= raw);
        assert(body.len() == text.len() + 1);
    } else {
        let next = body_lines(tail.skip(chunk), chunk);
        assert(body =~= text + seq![FRAME_END] + opener(false) + next);
        assert(s[end + 1] == FRAME_CONTINUE_1) by {
            assert(body[text.len() as int + 1] == FRAME_CONTINUE_1);
        }
        assert(s[end + 2] == FRAME_CONTINUE_2) by {
            assert(body[text.len() as int + 2] == FRAME_CONTINUE_2);
        }
        assert(tail.skip(chunk) =~= raw.skip(off + chunk));
        assert(opener(false).len() == 2);
        assert(body.len() == text.len() + 3 + next.len());
        assert(s.len() == pos + body.len());
        assert forall|i: int| 0 <= i < next.len() implies #[trigger] s.skip(end + 3)[i] == next[i] by {
            assert(s.skip(end + 3)[i] == s[end + 3 + i]);
            assert(s[end + 3 + i] == body[text.len() + 3 + i]);
        }
        assert(s.skip(end + 3) =~= next);
        lemma_scan_body(raw, chunk, off + chunk, s, end + 3, capacity);
    }
}

/// A receiver that reads the lines of a frame gets the frame back, if the
/// base64 decoder inverts the encoder on each chunk.
proof fn lemma_lines_scan_back(header: Seq<u8>, data: Seq<u8>, chunk: int, capacity: int)
    requires
        chunk >= 2,
        header.len() + data.len() + 2 <= MAX_DECLARED_LENGTH,
        header.len() + data.len() + 2 <= capacity,
        chunks_invert(raw_frame(header, data), chunk),
    ensures
        scan_frame(join_lines(frame_lines(raw_frame(header, data), chunk, true)), capacity) == (
        FrameScan::Complete {
            frame: header + data,
            consumed: join_lines(frame_lines(raw_frame(header, data), chunk, true)).len() as int,
        }),
{
    let raw = raw_frame(header, data);
    let s = join_lines(frame_lines(raw, chunk, true));
    lemma_joined_lines(raw, chunk, true);
    assert(s =~= opener(true) + body_lines(raw, chunk));
    assert(s[0] == FRAME_START_1 && s[1] == FRAME_START_2);
    assert(find_frame_start(s, 0) == 0);
    assert(s.skip(2) =~= body_lines(raw, chunk));
    assert(raw.skip(0) =~= raw);
    assert(raw.take(0) =~= Seq::<u8>::empty());
    let total = header.len() + data.len() + 2;
    assert(raw.len() == total + 2);
    assert(be_u16_at(raw, 0) == total);
    assert(raw.subrange(2, raw.len() - 2) =~= header + data);
    let sum = crc16_xmodem(header + data);
    assert(raw[raw.len() - 2] == (sum as int / 256) as u8);
    assert(raw[raw.len() - 1] == (sum as int % 256) as u8);
    assert(be_u16_at(raw, raw.len() - 2) == sum);
    lemma_scan_body(raw, chunk, 0, s, 2, capacity);
}

/// Appends the bytes of `src` to `dst`.
pub fn append_bytes(dst: &mut Vec<u8>, src: &[u8])
    ensures
        final(dst)@ == old(dst)@ + src@,
{
    let mut i: usize = 0;
    while i < src.len()
        invariant
            i <= src.len(),
            dst@ == old(dst)@ + src@.take(i as int),
        decreases src.len() - i,
    {
        dst.push(src[i]);
        assert(dst@ =~= old(dst)@ + src@.take(i + 1));
        i += 1;
    }
    assert(src@.take(src.len() as int) =~= src@);
}

/// The serial line framing for lines of a given greatest length.
pub struct SerialTransport {
    mtu: usize,
}

impl SerialTransport {
    #[verifier::type_invariant]
    spec fn inv(self) -> bool {
        self.mtu >= SERIAL_TRANSPORT_MIN_MTU
    }

    /// The greatest length of a line, opener and line feed included.
    pub closed spec fn mtu(self) -> int {
        self.mtu as int
    }

    /// A framing whose lines are at most `mtu` bytes long.
    pub fn new(mtu: usize) -> (t: Self)
        requires
            mtu >= SERIAL_TRANSPORT_MIN_MTU,
        ensures
            t.mtu() == mtu,
    {
        SerialTransport { mtu }
    }

    /// The raw bytes that go into one line.
    pub fn chunk_len(&self) -> (n: usize)
        ensures
            n == chunk_size(self.mtu()),
            n >= 3,
    {
        proof {
            use_type_invariant(self);
        }
        ((self.mtu - 3) / 4) * 3
    }

    /// The lines that carry the frame of `header` and `data`.
    ///
    /// Fails with `DataTooBig` exactly when header, payload and checksum
    /// exceed 65535 bytes. Otherwise the lines are those of [`frame_lines`],
    /// none is longer than the MTU, none splits a base64 quartet, and a
    /// receiver that reads them one after the other gets header and payload
    /// back.
    pub fn send_raw_frame(&self, header: &[u8; 8], data: &[u8]) -> (r: Result<
        Vec<Vec<u8>>,
        SendError,
    >)
        ensures
            data@.len() + 10 > MAX_DECLARED_LENGTH <==> r is Err,
            r matches Err(e) ==> e == SendError::DataTooBig,
            r matches Ok(lines) ==> {
                &&& lines_view(lines@) == frame_lines(
                    raw_frame(header@, data@),
                    chunk_size(self.mtu()),
                    true,
                )
                &&& forall|i: int|
                    0 <= i < lines@.len() ==> whole_quartets_within(
                        (#[trigger] lines@[i])@.len() as int,
                        self.mtu(),
                    )
                &&& scan_frame(join_lines(lines_view(lines@)), SMP_TRANSFER_BUFFER_SIZE as int) == (
                FrameScan::Complete {
                    frame: header@ + data@,
                    consumed: join_lines(lines_view(lines@)).len() as int,
                })
            },
    {
        if data.len() > MAX_DECLARED_LENGTH - 10 {
            return Err(SendError::DataTooBig);
        }
        let total: usize = 8 + data.len() + 2;
        let mut raw: Vec<u8> = Vec::new();
        raw.push((total / 256) as u8);
        raw.push((total % 256) as u8);
        append_bytes(&mut raw, header.as_slice());
        append_bytes(&mut raw, data);
        let content_end: usize = raw.len();
        assert(header@.len() == 8);
        assert(raw@.subrange(2, content_end as int) =~= header@ + data@);
        let checksum: u16 = crc16(&raw.as_slice()[2..content_end]);
        raw.push((checksum / 256) as u8);
        raw.push((checksum % 256) as u8);
        proof {
            let declared = be_bytes((header@.len() + data@.len() + 2) as int);
            let sum = be_bytes(crc16_xmodem(header@ + data@) as int);
            assert(declared =~= seq![(total / 256) as u8, (total % 256) as u8]);
            assert(sum =~= seq![(checksum / 256) as u8, (checksum % 256) as u8]);
            assert(raw@ =~= declared + header@ + data@ + sum);
        }

        let chunk: usize = self.chunk_len();
        let mut lines: Vec<Vec<u8>> = Vec::new();
        let mut off: usize = 0;
        proof {
            assert(raw@.skip(0) =~= raw@);
            assert(lines_view(lines@) =~= Seq::<Seq<u8>>::empty());
            assert(lines_view(lines@) + frame_lines(raw@, chunk as int, true) =~= frame_lines(
                raw@,
                chunk as int,
                true,
            ));
        }

        while off < raw.len()
            invariant
                off <= raw.len(),
                raw@.len() >= 12,
                3 <= chunk == chunk_size(self.mtu()),
                off < raw.len() ==> lines_view(lines@) + frame_lines(
                    raw@.skip(off as int),
                    chunk as int,
                    off == 0,
                ) == frame_lines(raw@, chunk as int, true),
                off == raw.len() ==> lines_view(lines@) == frame_lines(raw@, chunk as int, true),
                off < raw.len() ==> (chunks_invert(raw@.skip(off as int), chunk as int)
                    ==> chunks_invert(raw@, chunk as int)),
                off == raw.len() ==> chunks_invert(raw@, chunk as int),
                forall|i: int|
                    0 <= i < lines@.len() ==> whole_quartets_within(
                        (#[trigger] lines@[i])@.len() as int,
                        self.mtu(),
                    ),
            decreases raw.len() - off,
        {
            let rest: usize = raw.len() - off;
            let end: usize = if rest <= chunk {
                raw.len()
            } else {
                off + chunk
            };
            let first: bool = off == 0;
            let piece: &[u8] = &raw.as_slice()[off..end];
            let mut text: Vec<u8> = base64_encode(piece);
            let mut line: Vec<u8> = Vec::new();
            if first {
                line.push(FRAME_START_1);
                line.push(FRAME_START_2);
            } else {
                line.push(FRAME_CONTINUE_1);
                line.push(FRAME_CONTINUE_2);
            }
            line.append(&mut text);
            line.push(FRAME_END);
            proof {
                let tail = raw@.skip(off as int);
                assert(line@ =~= line_frame(first, piece@));
                assert(line@.len() == 3 + base64_len(piece@.len() as int));
                assert(line@.len() <= self.mtu()) by {
                    assert(piece@.len() <= chunk);
                    assert(base64_len(piece@.len() as int) <= base64_len(chunk as int));
                    assert(base64_len(chunk as int) == 4 * ((self.mtu() - 3) / 4));
                }
                if rest <= chunk {
                    assert(piece@ =~= tail);
                    assert(frame_lines(tail, chunk as int, first) =~= seq![line@]);
                } else {
                    assert(piece@ =~= tail.take(chunk as int));
                    assert(tail.skip(chunk as int) =~= raw@.skip(end as int));
                    assert(frame_lines(tail, chunk as int, first) =~= seq![line@] + frame_lines(
                        raw@.skip(end as int),
                        chunk as int,
                        false,
                    ));
                }
                assert(lines_view(lines@.push(line)) =~= lines_view(lines@) + seq![line@]);
            }
            lines.push(line);
            off = end;
        }
        proof {
            lemma_lines_scan_back(header@, data@, chunk as int, SMP_TRANSFER_BUFFER_SIZE as int);
        }
        Ok(lines)
    }

    /// The lines that carry a request: the header of [`request_header_of`]
    /// in front of `data`, framed as [`SerialTransport::send_raw_frame`] does.
    ///
    /// Fails with `DataTooBig` exactly when header, payload and checksum
    /// exceed 65535 bytes.
    pub fn send_frame(
        &self,
        write_operation: bool,
        sequence_num: u8,
        group_id: u16,
        command_id: u8,
        data: &[u8],
    ) -> (r: Result<Vec<Vec<u8>>, SendError>)
        ensures
            data@.len() + 10 > MAX_DECLARED_LENGTH <==> r is Err,
            r matches Err(e) ==> e == SendError::DataTooBig,
            r matches Ok(lines) ==> {
                let header = request_header_of(
                    write_operation,
                    sequence_num,
                    group_id,
                    command_id,
                    data@.len() as int,
                ).wire();
                &&& lines_view(lines@) == frame_lines(
                    raw_frame(header, data@),
                    chunk_size(self.mtu()),
                    true,
                )
                &&& forall|i: int|
                    0 <= i < lines@.len() ==> whole_quartets_within(
                        (#[trigger] lines@[i])@.len() as int,
                        self.mtu(),
                    )
                &&& scan_frame(join_lines(lines_view(lines@)), SMP_TRANSFER_BUFFER_SIZE as int) == (
                FrameScan::Complete {
                    frame: header + data@,
                    consumed: join_lines(lines_view(lines@)).len() as int,
                })
            },
    {
        let header: [u8; 8] = match request_header(
            write_operation,
            sequence_num,
            group_id,
            command_id,
            data.len(),
        ) {
            Ok(header) => header,
            Err(e) => {
                return Err(e);
            },
        };
        self.send_raw_frame(&header, data)
    }

    /// Takes the response to a request from `stream`, the bytes received so
    /// far.
    ///
    /// Frames are read one after the other. A frame with another sequence
    /// number is passed over without an error. Gives `Ok(None)` while the
    /// response has not come, the payload of the response with the number of
    /// bytes read up to its end once it has, and an error where the bytes are
    /// no frame (a wrong checksum among the reasons) or the frame with the
    /// sequence number is not the response to this request. `stream` is only
    /// read.
    pub fn receive_frame(
        &self,
        stream: &[u8],
        write_operation: bool,
        sequence_num: u8,
        group_id: u16,
        command_id: u8,
    ) -> (r: Result<Option<(Vec<u8>, usize)>, ReceiveError>)
        ensures
            match scan_response(stream@, 0, write_operation, sequence_num, group_id, command_id) {
                ResponseScan::Incomplete => r matches Ok(None),
                ResponseScan::Delivered { payload, consumed } => r matches Ok(Some((p, n))) && p@
                    == payload && n == consumed,
                ResponseScan::Failed(e) => r == Err::<Option<(Vec<u8>, usize)>, ReceiveError>(e),
            },
    {
        let n: usize = stream.len();
        let mut from: usize = 0;
        loop
            invariant
                from <= n == stream@.len(),
                scan_response(stream@, 0, write_operation, sequence_num, group_id, command_id)
                    == scan_response(
                    stream@,
                    from as int,
                    write_operation,
                    sequence_num,
                    group_id,
                    command_id,
                ),
            decreases n - from,
        {
            let rest: &[u8] = &stream[from..n];
            proof {
                assert(rest@ =~= stream@.skip(from as int));
                lemma_scan_frame_consumed(rest@, SMP_TRANSFER_BUFFER_SIZE as int);
            }
            let (frame, consumed) = match self.recv_raw_frame(rest, SMP_TRANSFER_BUFFER_SIZE) {
                Err(e) => {
                    return Err(e);
                },
                Ok(None) => {
                    return Ok(None);
                },
                Ok(Some(found)) => found,
            };
            match match_response(
                frame.as_slice(),
                write_operation,
                sequence_num,
                group_id,
                command_id,
            ) {
                Err(e) => {
                    return Err(e);
                },
                Ok(Some(payload)) => {
                    return Ok(Some((payload, from + consumed)));
                },
                Ok(None) => {
                    from = from + consumed;
                },
            }
        }
    }

    /// Takes the frame at the front of `stream`, the bytes received so far.
    ///
    /// Gives `Ok(None)` while the bytes do not yet hold a whole frame, the
    /// frame (header and payload) with the number of bytes it took once they
    /// do, and the error where they are no frame. `capacity` is the size of
    /// the buffer that the frame and its checksum have to fit.
    pub fn recv_raw_frame(&self, stream: &[u8], capacity: usize) -> (r: Result<
        Option<(Vec<u8>, usize)>,
        ReceiveError,
    >)
        ensures
            match scan_frame(stream@, capacity as int) {
                FrameScan::Incomplete => r matches Ok(None),
                FrameScan::Complete { frame, consumed } => r matches Ok(Some((f, n))) && f@ == frame
                    && n == consumed,
                FrameScan::Failed(e) => r == Err::<Option<(Vec<u8>, usize)>, ReceiveError>(e),
            },
    {
        let n: usize = stream.len();
        if n < 2 {
            return Ok(None);
        }
        let mut start: usize = 0;
        while start < n - 1 && !(stream[start] == FRAME_START_1 && stream[start + 1]
            == FRAME_START_2)
            invariant
                start < n == stream@.len(),
                find_frame_start(stream@, 0) == find_frame_start(stream@, start as int),
            decreases n - start,
        {
            start += 1;
        }
        if start >= n - 1 {
            return Ok(None);
        }
        let mut pos: usize = start + 2;
        let mut acc: Vec<u8> = Vec::new();
        loop
            invariant
                pos <= n == stream@.len(),
                scan_frame(stream@, capacity as int) == scan_lines(
                    stream@,
                    pos as int,
                    acc@,
                    capacity as int,
                ),
            decreases n - pos,
        {
            let mut end: usize = pos;
            while end < n && stream[end] != FRAME_END
                invariant
                    pos <= end <= n == stream@.len(),
                    find_byte(stream@, pos as int, FRAME_END) == find_byte(
                        stream@,
                        end as int,
                        FRAME_END,
                    ),
                decreases n - end,
            {
                end += 1;
            }
            if end >= n {
                return Ok(None);
            }
            let decoded = base64_decode(&stream[pos..end]);
            let data: Vec<u8> = match decoded {
                Ok(data) => data,
                Err(_) => {
                    return Err(ReceiveError::Base64DecodeError);
                },
            };
            append_bytes(&mut acc, data.as_slice());
            if acc.len() < 2 {
                return Err(ReceiveError::LengthMismatch);
            }
            let declared: usize = 256 * (acc[0] as usize) + acc[1] as usize;
            if declared > capacity {
                return Err(ReceiveError::FrameTooBig);
            }
            let got: usize = acc.len() - 2;
            if got > declared {
                return Err(ReceiveError::LengthMismatch);
            }
            if got == declared {
                if acc.len() < 4 {
                    return Err(ReceiveError::LengthMismatch);
                }
                let content_end: usize = acc.len() - 2;
                let want: u16 = 256 * (acc[content_end] as u16) + acc[content_end + 1] as u16;
                let content: &[u8] = &acc.as_slice()[2..content_end];
                if crc16(content) != want {
                    return Err(ReceiveError::ChecksumMismatch);
                }
                let frame: Vec<u8> = vstd::slice::slice_to_vec(content);
                return Ok(Some((frame, end + 1)));
            }
            if end + 1 >= n {
                return Ok(None);
            }
            if stream[end + 1] != FRAME_CONTINUE_1 {
                return Err(ReceiveError::UnexpectedMarker);
            }
            if end + 2 >= n {
                return Ok(None);
            }
            if stream[end + 2] != FRAME_CONTINUE_2 {
                return Err(ReceiveError::UnexpectedMarker);
            }
            pos = end + 3;
        }
    }
}

} // verus!
