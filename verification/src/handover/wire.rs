//! The wire format: one frame to a datagram.
//!
//! A frame is a header of 24 bytes and a payload. The header holds, in this order, the magic bytes
//! `ECDH`, the wire version, the kind of message, two reserved bytes that are zero, the transaction
//! (8 bytes), the length of the payload (4 bytes), the number of descriptors that travel with the
//! frame (2 bytes) and the application version (2 bytes). Numbers stand most significant byte
//! first.

use vstd::prelude::*;
use vstd::slice::*;
use vstd::string::*;

use super::big_endian;
use super::error;
use super::error::{ErrorView, HandoverError};
use super::limits::{HandoverLimits, LimitsView};
use crate::text;

verus! {

pub const WIRE_VERSION: u8 = 1;

pub const HEADER_LEN: usize = 24;

/// The kinds of message, in the order in which a transaction uses them.
#[derive(Clone, Copy, Debug, Eq, PartialEq, Structural)]
pub enum MessageKind {
    Request,
    Item,
    Finished,
    Prepared,
    Commit,
    Abort,
}

impl MessageKind {
    /// The byte that stands for a kind.
    pub open spec fn code(self) -> u8 {
        match self {
            MessageKind::Request => 1,
            MessageKind::Item => 2,
            MessageKind::Finished => 3,
            MessageKind::Prepared => 4,
            MessageKind::Commit => 5,
            MessageKind::Abort => 6,
        }
    }

    /// The kind as it is called in messages.
    pub open spec fn label(self) -> Seq<char> {
        match self {
            MessageKind::Request => "Request"@,
            MessageKind::Item => "Item"@,
            MessageKind::Finished => "Finished"@,
            MessageKind::Prepared => "Prepared"@,
            MessageKind::Commit => "Commit"@,
            MessageKind::Abort => "Abort"@,
        }
    }

    pub fn to_code(self) -> (code: u8)
        ensures
            code == self.code(),
    {
        match self {
            MessageKind::Request => 1,
            MessageKind::Item => 2,
            MessageKind::Finished => 3,
            MessageKind::Prepared => 4,
            MessageKind::Commit => 5,
            MessageKind::Abort => 6,
        }
    }

    pub fn to_label(self) -> (label: &'static str)
        ensures
            label@ == self.label(),
    {
        match self {
            MessageKind::Request => "Request",
            MessageKind::Item => "Item",
            MessageKind::Finished => "Finished",
            MessageKind::Prepared => "Prepared",
            MessageKind::Commit => "Commit",
            MessageKind::Abort => "Abort",
        }
    }

    /// The kind that a byte stands for.
    pub fn try_from(value: u8) -> (r: Result<MessageKind, HandoverError>)
        ensures
            match r {
                Ok(kind) => kind.code() == value,
                Err(error) => {
                    &&& !(1 <= value <= 6)
                    &&& error@ == unknown_kind(value)
                },
            },
    {
        match value {
            1 => Ok(MessageKind::Request),
            2 => Ok(MessageKind::Item),
            3 => Ok(MessageKind::Finished),
            4 => Ok(MessageKind::Prepared),
            5 => Ok(MessageKind::Commit),
            6 => Ok(MessageKind::Abort),
            _ => {
                let mut message: String = "unknown message kind ".to_owned();
                text::push_decimal(&mut message, value as u64);
                Err(HandoverError::Protocol(message))
            },
        }
    }
}

/// The error for a byte that stands for no kind of message.
pub open spec fn unknown_kind(value: u8) -> ErrorView {
    ErrorView::Protocol("unknown message kind "@ + text::decimal(value as nat))
}

/// The kind of message that a byte from 1 to 6 stands for.
pub open spec fn kind_of(code: u8) -> MessageKind {
    if code == 1 {
        MessageKind::Request
    } else if code == 2 {
        MessageKind::Item
    } else if code == 3 {
        MessageKind::Finished
    } else if code == 4 {
        MessageKind::Prepared
    } else if code == 5 {
        MessageKind::Commit
    } else {
        MessageKind::Abort
    }
}

/// One message, with the descriptors that travel beside it.
#[derive(Debug)]
pub struct Frame<D> {
    pub kind: MessageKind,
    pub transaction_id: u64,
    pub application_version: u16,
    pub payload: Vec<u8>,
    pub fds: Vec<D>,
}

/// What a [`Frame`] says.
pub struct FrameView<D> {
    pub kind: MessageKind,
    pub transaction_id: u64,
    pub application_version: u16,
    pub payload: Seq<u8>,
    pub fds: Seq<D>,
}

impl<D> View for Frame<D> {
    type V = FrameView<D>;

    open spec fn view(&self) -> FrameView<D> {
        FrameView {
            kind: self.kind,
            transaction_id: self.transaction_id,
            application_version: self.application_version,
            payload: self.payload@,
            fds: self.fds@,
        }
    }
}

/// One datagram as it came off a socket.
#[derive(Debug)]
pub struct Datagram<D> {
    /// The bytes that were received.
    pub bytes: Vec<u8>,
    /// The socket held more bytes than there was room for.
    pub data_truncated: bool,
    /// The socket held more descriptors than there was room for.
    pub control_truncated: bool,
    /// The descriptors that were received.
    pub fds: Vec<D>,
}

/// What a [`Datagram`] holds.
pub struct DatagramView<D> {
    pub bytes: Seq<u8>,
    pub data_truncated: bool,
    pub control_truncated: bool,
    pub fds: Seq<D>,
}

impl<D> DatagramView<D> {
    /// Whether something was lost, of the bytes or of the descriptors.
    pub open spec fn truncated(self) -> bool {
        self.data_truncated || self.control_truncated
    }
}

impl<D> View for Datagram<D> {
    type V = DatagramView<D>;

    open spec fn view(&self) -> DatagramView<D> {
        DatagramView {
            bytes: self.bytes@,
            data_truncated: self.data_truncated,
            control_truncated: self.control_truncated,
            fds: self.fds@,
        }
    }
}

pub open spec fn magic() -> Seq<u8> {
    seq![0x45u8, 0x43u8, 0x44u8, 0x48u8]
}

/// The header of a frame.
pub open spec fn header_bytes(
    kind: MessageKind,
    transaction_id: u64,
    payload_len: nat,
    fd_count: nat,
    application_version: u16,
) -> Seq<u8> {
    magic() + seq![WIRE_VERSION, kind.code(), 0u8, 0u8] + big_endian::be_bytes(
        transaction_id as nat,
        8,
    ) + big_endian::be_bytes(payload_len, 4) + big_endian::be_bytes(fd_count, 2)
        + big_endian::be_bytes(application_version as nat, 2)
}

/// A frame as it travels.
pub open spec fn frame_bytes(
    kind: MessageKind,
    transaction_id: u64,
    application_version: u16,
    payload: Seq<u8>,
    fd_count: nat,
) -> Seq<u8> {
    header_bytes(kind, transaction_id, payload.len(), fd_count, application_version) + payload
}

/// The bytes of a frame. Of a payload or a number of descriptors that is too large for its field
/// in the header, the low bytes are written.
pub fn encode_frame(
    kind: MessageKind,
    transaction_id: u64,
    application_version: u16,
    payload: &[u8],
    fd_count: usize,
) -> (frame: Vec<u8>)
    ensures
        frame@ == frame_bytes(
            kind,
            transaction_id,
            application_version,
            payload@,
            fd_count as nat,
        ),
{
    let mut frame: Vec<u8> = Vec::new();
    frame.push(0x45);
    frame.push(0x43);
    frame.push(0x44);
    frame.push(0x48);
    frame.push(WIRE_VERSION);
    frame.push(kind.to_code());
    frame.push(0);
    frame.push(0);
    assert(frame@ == magic() + seq![WIRE_VERSION, kind.code(), 0u8, 0u8]);
    big_endian::push_be(&mut frame, transaction_id, 8);
    big_endian::push_be(&mut frame, payload.len() as u64, 4);
    big_endian::push_be(&mut frame, fd_count as u64, 2);
    big_endian::push_be(&mut frame, application_version as u64, 2);
    frame.extend_from_slice(payload);
    frame
}

/// The payload length that a header declares.
pub open spec fn declared_len(bytes: Seq<u8>) -> nat {
    big_endian::be_value(bytes.subrange(16, 20))
}

/// The number of descriptors that a header declares.
pub open spec fn declared_fds(bytes: Seq<u8>) -> nat {
    big_endian::be_value(bytes.subrange(20, 22))
}

/// The first rule that bytes break as a frame that came with `fd_count` descriptors, if they break
/// one. The bytes are at least as long as a header.
pub open spec fn frame_fault(bytes: Seq<u8>, fd_count: nat, limits: LimitsView) -> Option<
    ErrorView,
> {
    if bytes.subrange(0, 4) != magic() {
        Some(ErrorView::Protocol("invalid magic"@))
    } else if bytes[4] != WIRE_VERSION {
        Some(
            ErrorView::Protocol(
                "unsupported wire version "@ + text::decimal(bytes[4] as nat),
            ),
        )
    } else if bytes[6] != 0 || bytes[7] != 0 {
        Some(ErrorView::Protocol("reserved header bits are non-zero"@))
    } else if !(1 <= bytes[5] <= 6) {
        Some(unknown_kind(bytes[5]))
    } else if declared_len(bytes) > limits.max_payload_size {
        Some(
            ErrorView::Limit(
                "declared payload has "@ + text::decimal(declared_len(bytes))
                    + " bytes, maximum is "@ + text::decimal(limits.max_payload_size),
            ),
        )
    } else if HEADER_LEN + declared_len(bytes) != bytes.len() {
        Some(
            ErrorView::Protocol(
                "declared payload has "@ + text::decimal(declared_len(bytes))
                    + " bytes but message contains "@ + text::decimal(
                    (bytes.len() - HEADER_LEN) as nat,
                ),
            ),
        )
    } else if declared_fds(bytes) != fd_count {
        Some(
            ErrorView::Protocol(
                "declared "@ + text::decimal(declared_fds(bytes))
                    + " file descriptors but received "@ + text::decimal(fd_count),
            ),
        )
    } else if fd_count > limits.max_fds_per_item {
        Some(
            ErrorView::Limit(
                "received "@ + text::decimal(fd_count) + " file descriptors, maximum is "@
                    + text::decimal(limits.max_fds_per_item),
            ),
        )
    } else if kind_of(bytes[5]) != MessageKind::Item && fd_count != 0 {
        Some(
            ErrorView::Protocol(
                "control message "@ + kind_of(bytes[5]).label() + " carried file descriptors"@,
            ),
        )
    } else {
        None
    }
}

/// The frame that bytes hold that break no rule.
pub open spec fn decoded<D>(bytes: Seq<u8>, fds: Seq<D>) -> FrameView<D> {
    FrameView {
        kind: kind_of(bytes[5]),
        transaction_id: big_endian::be_value(bytes.subrange(8, 16)) as u64,
        application_version: big_endian::be_value(bytes.subrange(22, 24)) as u16,
        payload: bytes.subrange(HEADER_LEN as int, bytes.len() as int),
        fds,
    }
}

/// The frame that bytes hold, received with the descriptors `fds`.
pub fn decode_frame<D>(bytes: Vec<u8>, fds: Vec<D>, limits: HandoverLimits) -> (r: Result<
    Frame<D>,
    HandoverError,
>)
    requires
        bytes@.len() >= HEADER_LEN,
    ensures
        match r {
            Ok(frame) => {
                &&& frame_fault(bytes@, fds@.len(), limits@) is None
                &&& frame@ == decoded(bytes@, fds@)
            },
            Err(error) => frame_fault(bytes@, fds@.len(), limits@) == Some(error@),
        },
{
    proof {
        big_endian::lemma_be_limits();
    }
    let good_magic: bool = bytes[0] == 0x45 && bytes[1] == 0x43 && bytes[2] == 0x44 && bytes[3]
        == 0x48;
    proof {
        let start = bytes@.subrange(0, 4);
        if good_magic {
            assert(start =~= magic());
        } else {
            assert(start[0] == bytes@[0] && start[1] == bytes@[1] && start[2] == bytes@[2]
                && start[3] == bytes@[3]);
            assert(magic()[0] == 0x45 && magic()[1] == 0x43 && magic()[2] == 0x44 && magic()[3]
                == 0x48);
            assert(start != magic());
        }
    }
    if !good_magic {
        return Err(HandoverError::Protocol("invalid magic".to_owned()));
    }
    if bytes[4] != WIRE_VERSION {
        let mut message: String = "unsupported wire version ".to_owned();
        text::push_decimal(&mut message, bytes[4] as u64);
        return Err(HandoverError::Protocol(message));
    }
    if bytes[6] != 0 || bytes[7] != 0 {
        return Err(HandoverError::Protocol("reserved header bits are non-zero".to_owned()));
    }
    let kind: MessageKind = match MessageKind::try_from(bytes[5]) {
        Ok(kind) => kind,
        Err(error) => {
            return Err(error);
        },
    };
    assert(kind == kind_of(bytes@[5]));
    let transaction_id: u64 = big_endian::read_be(bytes.as_slice(), 8, 8);
    let payload_len: usize = big_endian::read_be(bytes.as_slice(), 16, 4) as usize;
    let fd_count: usize = big_endian::read_be(bytes.as_slice(), 20, 2) as usize;
    let application_version: u16 = big_endian::read_be(bytes.as_slice(), 22, 2) as u16;

    if payload_len > limits.max_payload_size() {
        let mut message: String = "declared payload has ".to_owned();
        text::push_decimal(&mut message, payload_len as u64);
        message.append(" bytes, maximum is ");
        text::push_decimal(&mut message, limits.max_payload_size() as u64);
        return Err(HandoverError::Limit(message));
    }
    if HEADER_LEN + payload_len != bytes.len() {
        let mut message: String = "declared payload has ".to_owned();
        text::push_decimal(&mut message, payload_len as u64);
        message.append(" bytes but message contains ");
        text::push_decimal(&mut message, (bytes.len() - HEADER_LEN) as u64);
        return Err(HandoverError::Protocol(message));
    }
    if fd_count != fds.len() {
        let mut message: String = "declared ".to_owned();
        text::push_decimal(&mut message, fd_count as u64);
        message.append(" file descriptors but received ");
        text::push_decimal(&mut message, fds.len() as u64);
        return Err(HandoverError::Protocol(message));
    }
    if fd_count > limits.max_fds_per_item() {
        let mut message: String = "received ".to_owned();
        text::push_decimal(&mut message, fd_count as u64);
        message.append(" file descriptors, maximum is ");
        text::push_decimal(&mut message, limits.max_fds_per_item() as u64);
        return Err(HandoverError::Limit(message));
    }
    if kind != MessageKind::Item && fd_count != 0 {
        let mut message: String = "control message ".to_owned();
        message.append(kind.to_label());
        message.append(" carried file descriptors");
        return Err(HandoverError::Protocol(message));
    }
    let payload: Vec<u8> = slice_to_vec(
        slice_subrange(bytes.as_slice(), HEADER_LEN, bytes.len()),
    );
    Ok(Frame { kind, transaction_id, application_version, payload, fds })
}

/// What a received datagram says.
pub open spec fn received<D>(datagram: DatagramView<D>, limits: LimitsView) -> Result<
    FrameView<D>,
    ErrorView,
> {
    if datagram.truncated() {
        Err(ErrorView::Limit("received truncated handover data or file descriptors"@))
    } else if datagram.bytes.len() < HEADER_LEN {
        Err(
            ErrorView::Protocol(
                "message has "@ + text::decimal(datagram.bytes.len())
                    + " bytes, shorter than 24-byte header"@,
            ),
        )
    } else {
        match frame_fault(datagram.bytes, datagram.fds.len(), limits) {
            Some(error) => Err(error),
            None => Ok(decoded(datagram.bytes, datagram.fds)),
        }
    }
}

/// How many bytes to make room for before receiving: a header and the largest payload.
pub fn receive_buffer_len(limits: HandoverLimits) -> (len: usize)
    ensures
        len == HEADER_LEN + limits@.max_payload_size,
{
    HEADER_LEN + limits.max_payload_size()
}

impl<D> Datagram<D> {
    /// A datagram of which the first `received_bytes` bytes of `buffer` were filled.
    pub fn filled(
        buffer: Vec<u8>,
        received_bytes: usize,
        data_truncated: bool,
        control_truncated: bool,
        fds: Vec<D>,
    ) -> (datagram: Self)
        ensures
            datagram@ == (DatagramView {
                bytes: if received_bytes <= buffer@.len() {
                    buffer@.take(received_bytes as int)
                } else {
                    buffer@
                },
                data_truncated,
                control_truncated,
                fds: fds@,
            }),
    {
        let mut bytes: Vec<u8> = buffer;
        bytes.truncate(received_bytes);
        Datagram { bytes, data_truncated, control_truncated, fds }
    }
}

/// The frame that a received datagram holds.
pub fn recv_frame<D>(datagram: Datagram<D>, limits: HandoverLimits) -> (r: Result<
    Frame<D>,
    HandoverError,
>)
    ensures
        error::is_outcome(r, received(datagram@, limits@)),
{
    if datagram.data_truncated || datagram.control_truncated {
        return Err(
            HandoverError::Limit("received truncated handover data or file descriptors".to_owned()),
        );
    }
    if datagram.bytes.len() < HEADER_LEN {
        let mut message: String = "message has ".to_owned();
        text::push_decimal(&mut message, datagram.bytes.len() as u64);
        message.append(" bytes, shorter than 24-byte header");
        return Err(HandoverError::Protocol(message));
    }
    decode_frame(datagram.bytes, datagram.fds, limits)
}

/// The first rule that a message to be sent breaks, if it breaks one.
pub open spec fn outgoing_fault(
    kind: MessageKind,
    payload_len: nat,
    fd_count: nat,
    limits: LimitsView,
) -> Option<ErrorView> {
    if payload_len > limits.max_payload_size {
        Some(
            ErrorView::Limit(
                "payload has "@ + text::decimal(payload_len) + " bytes, maximum is "@
                    + text::decimal(limits.max_payload_size),
            ),
        )
    } else if fd_count > limits.max_fds_per_item {
        Some(
            ErrorView::Limit(
                "message has "@ + text::decimal(fd_count) + " file descriptors, maximum is "@
                    + text::decimal(limits.max_fds_per_item),
            ),
        )
    } else if kind != MessageKind::Item && fd_count != 0 {
        Some(
            ErrorView::Protocol(
                "control message "@ + kind.label() + " cannot carry file descriptors"@,
            ),
        )
    } else {
        None
    }
}

/// Whether a message may be sent under the limits.
pub fn validate_outgoing(
    kind: MessageKind,
    payload_len: usize,
    fd_count: usize,
    limits: HandoverLimits,
) -> (r: Result<(), HandoverError>)
    ensures
        match r {
            Ok(_) => outgoing_fault(kind, payload_len as nat, fd_count as nat, limits@) is None,
            Err(error) => outgoing_fault(kind, payload_len as nat, fd_count as nat, limits@)
                == Some(error@),
        },
{
    if payload_len > limits.max_payload_size() {
        let mut message: String = "payload has ".to_owned();
        text::push_decimal(&mut message, payload_len as u64);
        message.append(" bytes, maximum is ");
        text::push_decimal(&mut message, limits.max_payload_size() as u64);
        return Err(HandoverError::Limit(message));
    }
    if fd_count > limits.max_fds_per_item() {
        let mut message: String = "message has ".to_owned();
        text::push_decimal(&mut message, fd_count as u64);
        message.append(" file descriptors, maximum is ");
        text::push_decimal(&mut message, limits.max_fds_per_item() as u64);
        return Err(HandoverError::Limit(message));
    }
    if kind != MessageKind::Item && fd_count != 0 {
        let mut message: String = "control message ".to_owned();
        message.append(kind.to_label());
        message.append(" cannot carry file descriptors");
        return Err(HandoverError::Protocol(message));
    }
    Ok(())
}

/// The bytes to send for a message, unless it breaks a rule.
pub open spec fn sent(
    kind: MessageKind,
    transaction_id: u64,
    application_version: u16,
    payload: Seq<u8>,
    fd_count: nat,
    limits: LimitsView,
) -> Result<Seq<u8>, ErrorView> {
    match outgoing_fault(kind, payload.len(), fd_count, limits) {
        Some(error) => Err(error),
        None => Ok(frame_bytes(kind, transaction_id, application_version, payload, fd_count)),
    }
}

/// The bytes to send for a message with `fd_count` descriptors beside it.
pub fn send_frame(
    kind: MessageKind,
    transaction_id: u64,
    application_version: u16,
    payload: &[u8],
    fd_count: usize,
    limits: HandoverLimits,
) -> (r: Result<Vec<u8>, HandoverError>)
    ensures
        error::is_outcome(
            r,
            sent(
                kind,
                transaction_id,
                application_version,
                payload@,
                fd_count as nat,
                limits@,
            ),
        ),
{
    match validate_outgoing(kind, payload.len(), fd_count, limits) {
        Ok(_) => Ok(encode_frame(kind, transaction_id, application_version, payload, fd_count)),
        Err(error) => Err(error),
    }
}

/// What is said when a socket took fewer bytes than a frame has.
pub open spec fn short_write(written: nat, len: nat) -> Seq<char> {
    "sent "@ + text::decimal(written) + " of "@ + text::decimal(len) + " handover bytes"@
}

/// Whether a frame was sent whole; if not, what to say of it.
pub fn check_written(written: usize, len: usize) -> (r: Result<(), String>)
    ensures
        match r {
            Ok(_) => written == len,
            Err(message) => written != len && message@ == short_write(written as nat, len as nat),
        },
{
    if written != len {
        let mut message: String = "sent ".to_owned();
        text::push_decimal(&mut message, written as u64);
        message.append(" of ");
        text::push_decimal(&mut message, len as u64);
        message.append(" handover bytes");
        return Err(message);
    }
    Ok(())
}

} // verus!
