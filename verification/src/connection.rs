//! The SMP protocol layer: sequence numbers, the exchange of one request
//! and its response, and the errors that a device reports.
//!
//! A connection starts an exchange by handing out the lines to send. The
//! bytes that come back are held against the exchange until its response is
//! among them. One exchange is under way at a time: starting one takes the
//! connection by `&mut`.

use vstd::prelude::*;
use vstd::string::StringExecFns;
use crate::commands::{ErrResponse, McuMgrCommand};
use crate::smp_errors::DeviceError;
use crate::transport::serial::{
    chunk_size, frame_lines, join_lines, lines_view, raw_frame, scan_frame, scan_response,
    whole_quartets_within, FrameScan, ResponseScan, SerialTransport, MAX_DECLARED_LENGTH,
};
use crate::transport::{request_header_of, ReceiveError, SendError, SMP_TRANSFER_BUFFER_SIZE};

verus! {

/// Errors that can happen on SMP protocol level
#[derive(Debug, Clone, Copy, PartialEq, Eq, Structural)]
pub enum ExecuteError {
    /// An error happened on SMP transport level while sending a request
    SendFailed(SendError),
    /// An error happened on SMP transport level while receiving a response
    ReceiveFailed(ReceiveError),
    /// An error happened while CBOR encoding the request payload
    EncodeFailed,
    /// An error happened while CBOR decoding the response payload
    DecodeFailed,
    /// The device returned an SMP error
    ErrorResponse(DeviceError),
}

impl ExecuteError {
    /// The error in words.
    pub open spec fn text(self) -> Seq<char> {
        match self {
            ExecuteError::SendFailed(_) => "Sending failed"@,
            ExecuteError::ReceiveFailed(_) => "Receiving failed"@,
            ExecuteError::EncodeFailed => "CBOR encoding failed"@,
            ExecuteError::DecodeFailed => "CBOR decoding failed"@,
            ExecuteError::ErrorResponse(e) => "Device returned error code: "@ + e.text(),
        }
    }

    /// The device answered that it does not support the command.
    pub open spec fn is_command_not_supported(self) -> bool {
        self matches ExecuteError::ErrorResponse(e) && e.is_command_not_supported()
    }

    /// The identifier of the error.
    pub fn code(&self) -> (s: &'static str)
        ensures
            s@ == match *self {
                ExecuteError::SendFailed(_) => "zephyr_mcumgr::connection::execute::send"@,
                ExecuteError::ReceiveFailed(_) => "zephyr_mcumgr::connection::execute::receive"@,
                ExecuteError::EncodeFailed => "zephyr_mcumgr::connection::execute::encode"@,
                ExecuteError::DecodeFailed => "zephyr_mcumgr::connection::execute::decode"@,
                ExecuteError::ErrorResponse(_) => "zephyr_mcumgr::connection::execute::device_error"@,
            },
    {
        match self {
            ExecuteError::SendFailed(_) => "zephyr_mcumgr::connection::execute::send",
            ExecuteError::ReceiveFailed(_) => "zephyr_mcumgr::connection::execute::receive",
            ExecuteError::EncodeFailed => "zephyr_mcumgr::connection::execute::encode",
            ExecuteError::DecodeFailed => "zephyr_mcumgr::connection::execute::decode",
            ExecuteError::ErrorResponse(_) => "zephyr_mcumgr::connection::execute::device_error",
        }
    }

    /// The error in words.
    pub fn message(&self) -> (s: String)
        ensures
            s@ == self.text(),
    {
        match self {
            ExecuteError::SendFailed(_) => String::from_str("Sending failed"),
            ExecuteError::ReceiveFailed(_) => String::from_str("Receiving failed"),
            ExecuteError::EncodeFailed => String::from_str("CBOR encoding failed"),
            ExecuteError::DecodeFailed => String::from_str("CBOR decoding failed"),
            ExecuteError::ErrorResponse(e) => {
                let mut s = String::from_str("Device returned error code: ");
                let detail = e.to_string();
                s.append(detail.as_str());
                s
            },
        }
    }

    /// Checks if the device reported that the command is not supported
    pub fn command_not_supported(&self) -> (b: bool)
        ensures
            b == self.is_command_not_supported(),
    {
        match self {
            ExecuteError::ErrorResponse(e) => e.command_not_supported(),
            _ => false,
        }
    }
}

impl ErrResponse {
    /// The error that the envelope of a response reports: a version 2 error
    /// where `err` is there, else a version 1 error where `rc` is there, and
    /// none where neither is.
    pub open spec fn reported(self) -> Option<DeviceError> {
        match self.err {
            Some(v2) => Some(DeviceError::V2 { group: v2.group, rc: v2.rc }),
            None => match self.rc {
                Some(rc) => Some(DeviceError::V1 { rc }),
                None => None,
            },
        }
    }

    /// The error that the envelope of a response reports, if any.
    pub fn device_error(&self) -> (e: Option<DeviceError>)
        ensures
            e == self.reported(),
    {
        if let Some(v2) = self.err {
            return Some(DeviceError::V2 { group: v2.group, rc: v2.rc });
        }
        if let Some(rc) = self.rc {
            return Some(DeviceError::V1 { rc });
        }
        None
    }
}

/// The sequence number behind `seq`: one more, and 0 behind 255.
pub open spec fn next_sequence(seq: u8) -> u8 {
    if seq == 255 {
        0
    } else {
        (seq + 1) as u8
    }
}

/// The sequence number of the request that follows `n` requests, the first
/// of which had the number `start`.
pub open spec fn sequence_after(start: u8, n: nat) -> u8
    decreases n,
{
    if n == 0 {
        start
    } else {
        next_sequence(sequence_after(start, (n - 1) as nat))
    }
}

/// The sequence numbers of successive requests go up by one modulo 256.
pub proof fn lemma_sequence_progression(start: u8, n: nat)
    ensures
        sequence_after(start, n) == (start + n) % 256,
        sequence_after(start, n + 1) == (sequence_after(start, n) + 1) % 256,
    decreases n,
{
    if n > 0 {
        lemma_sequence_progression(start, (n - 1) as nat);
    }
    assert(sequence_after(start, n + 1) == next_sequence(sequence_after(start, n)));
}

/// A request that has been handed out and waits for its response.
#[derive(Debug)]
pub struct Exchange {
    /// whether the request is a write
    pub write_operation: bool,
    /// the sequence number that the response has to carry
    pub sequence_num: u8,
    /// the group of the command
    pub group_id: u16,
    /// the command within the group
    pub command_id: u8,
    /// the lines to send, in order
    pub lines: Vec<Vec<u8>>,
}

/// `rand::random`: a sequence number to start with. Nothing is claimed of
/// it.
#[verifier::external_body]
fn random_sequence_number() -> u8 {
    rand::random()
}

/// An SMP protocol layer connection to a device.
pub struct Connection {
    transport: SerialTransport,
    next_seqnum: u8,
}

impl Connection {
    /// The sequence number that the next request will carry.
    pub closed spec fn next_sequence_number(&self) -> u8 {
        self.next_seqnum
    }

    /// The greatest line length of the transport.
    pub closed spec fn mtu(&self) -> int {
        self.transport.mtu()
    }

    /// What an exchange started now with these arguments holds.
    pub open spec fn exchange_of(
        &self,
        exchange: Exchange,
        write_operation: bool,
        group_id: u16,
        command_id: u8,
        data: Seq<u8>,
    ) -> bool {
        let header = request_header_of(
            write_operation,
            self.next_sequence_number(),
            group_id,
            command_id,
            data.len() as int,
        ).wire();
        &&& exchange.write_operation == write_operation
        &&& exchange.sequence_num == self.next_sequence_number()
        &&& exchange.group_id == group_id
        &&& exchange.command_id == command_id
        &&& lines_view(exchange.lines@) == frame_lines(
            raw_frame(header, data),
            chunk_size(self.mtu()),
            true,
        )
        &&& forall|i: int|
            0 <= i < exchange.lines@.len() ==> whole_quartets_within(
                (#[trigger] exchange.lines@[i])@.len() as int,
                self.mtu(),
            )
        &&& scan_frame(join_lines(lines_view(exchange.lines@)), SMP_TRANSFER_BUFFER_SIZE as int)
            == (FrameScan::Complete {
            frame: header + data,
            consumed: join_lines(lines_view(exchange.lines@)).len() as int,
        })
    }

    /// A connection over `transport` that starts at a random sequence number.
    pub fn new(transport: SerialTransport) -> (c: Self)
        ensures
            c.mtu() == transport.mtu(),
    {
        Connection { transport, next_seqnum: random_sequence_number() }
    }

    /// A connection over `transport` whose first request carries the
    /// sequence number `sequence_num`.
    pub fn with_sequence_number(transport: SerialTransport, sequence_num: u8) -> (c: Self)
        ensures
            c.mtu() == transport.mtu(),
            c.next_sequence_number() == sequence_num,
    {
        Connection { transport, next_seqnum: sequence_num }
    }

    /// The sequence number that the next request will carry.
    pub fn sequence_number(&self) -> (seq: u8)
        ensures
            seq == self.next_sequence_number(),
    {
        self.next_seqnum
    }

    /// Starts the exchange of a raw SMP command.
    ///
    /// The payload can be anything and need not be CBOR. The request takes
    /// the next sequence number, whether or not it can be framed: it fails
    /// with `SendFailed(DataTooBig)` exactly when header, payload and
    /// checksum exceed 65535 bytes.
    pub fn execute_raw_command(
        &mut self,
        write_operation: bool,
        group_id: u16,
        command_id: u8,
        data: &[u8],
    ) -> (r: Result<Exchange, ExecuteError>)
        ensures
            final(self).mtu() == old(self).mtu(),
            final(self).next_sequence_number() == next_sequence(old(self).next_sequence_number()),
            data@.len() + 10 > MAX_DECLARED_LENGTH <==> r is Err,
            r matches Err(e) ==> e == ExecuteError::SendFailed(SendError::DataTooBig),
            r matches Ok(exchange) ==> old(self).exchange_of(
                exchange,
                write_operation,
                group_id,
                command_id,
                data@,
            ),
    {
        let sequence_num: u8 = self.next_seqnum;
        self.next_seqnum = self.next_seqnum.wrapping_add(1);
        match self.transport.send_frame(write_operation, sequence_num, group_id, command_id, data) {
            Ok(lines) => Ok(Exchange { write_operation, sequence_num, group_id, command_id, lines }),
            Err(e) => Err(ExecuteError::SendFailed(e)),
        }
    }

    /// Starts the exchange of a command whose payload has been encoded to
    /// `payload`.
    ///
    /// A payload that does not fit the transfer buffer of 65535 bytes counts
    /// as not encodable: the result is `EncodeFailed` and no sequence number
    /// is taken. Any other payload takes the next sequence number and is
    /// framed as by [`Connection::execute_raw_command`], with the operation,
    /// group and command of `request`.
    pub fn execute_command<R: McuMgrCommand>(&mut self, request: &R, payload: &[u8]) -> (r: Result<
        Exchange,
        ExecuteError,
    >)
        ensures
            final(self).mtu() == old(self).mtu(),
            payload@.len() > SMP_TRANSFER_BUFFER_SIZE ==> r == Err::<Exchange, ExecuteError>(
                ExecuteError::EncodeFailed,
            ) && final(self).next_sequence_number() == old(self).next_sequence_number(),
            payload@.len() <= SMP_TRANSFER_BUFFER_SIZE ==> final(self).next_sequence_number()
                == next_sequence(old(self).next_sequence_number()),
            MAX_DECLARED_LENGTH < payload@.len() + 10 <= SMP_TRANSFER_BUFFER_SIZE + 10 ==> r == Err::<
                Exchange,
                ExecuteError,
            >(ExecuteError::SendFailed(SendError::DataTooBig)),
            payload@.len() + 10 <= MAX_DECLARED_LENGTH <==> r is Ok,
            r matches Ok(exchange) ==> old(self).exchange_of(
                exchange,
                request.is_write(),
                request.group(),
                request.command(),
                payload@,
            ),
    {
        if payload.len() > SMP_TRANSFER_BUFFER_SIZE {
            return Err(ExecuteError::EncodeFailed);
        }
        let write_operation: bool = request.is_write_operation();
        let group_id: u16 = request.group_id();
        let command_id: u8 = request.command_id();
        self.execute_raw_command(write_operation, group_id, command_id, payload)
    }

    /// Takes the response of `exchange` from `stream`, the bytes received
    /// since the request was sent.
    ///
    /// `Ok(None)`: the response has not come yet. `Ok(Some((payload, n)))`:
    /// the payload of the response, which ends `n` bytes into the stream.
    /// `ReceiveFailed`: the bytes hold no frame, or the frame that carries
    /// the sequence number of the request is no response to it.
    pub fn receive_response(&self, exchange: &Exchange, stream: &[u8]) -> (r: Result<
        Option<(Vec<u8>, usize)>,
        ExecuteError,
    >)
        ensures
            match scan_response(
                stream@,
                0,
                exchange.write_operation,
                exchange.sequence_num,
                exchange.group_id,
                exchange.command_id,
            ) {
                ResponseScan::Incomplete => r matches Ok(None),
                ResponseScan::Delivered { payload, consumed } => r matches Ok(Some((p, n))) && p@
                    == payload && n == consumed,
                ResponseScan::Failed(e) => r == Err::<Option<(Vec<u8>, usize)>, ExecuteError>(
                    ExecuteError::ReceiveFailed(e),
                ),
            },
    {
        match self.transport.receive_frame(
            stream,
            exchange.write_operation,
            exchange.sequence_num,
            exchange.group_id,
            exchange.command_id,
        ) {
            Ok(found) => Ok(found),
            Err(e) => Err(ExecuteError::ReceiveFailed(e)),
        }
    }

    /// The last step of a command: the envelope that the response was read
    /// as decides whether the device reported an error.
    ///
    /// Fails with `ErrorResponse` exactly when the envelope holds `err` or
    /// `rc`; `err` goes before `rc`.
    pub fn check_response(envelope: &ErrResponse) -> (r: Result<(), ExecuteError>)
        ensures
            match envelope.reported() {
                Some(e) => r == Err::<(), ExecuteError>(ExecuteError::ErrorResponse(e)),
                None => r == Ok::<(), ExecuteError>(()),
            },
    {
        match envelope.device_error() {
            Some(e) => Err(ExecuteError::ErrorResponse(e)),
            None => Ok(()),
        }
    }
}

} // verus!
