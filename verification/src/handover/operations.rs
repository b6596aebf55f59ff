//! What each operation of a handover does, said of what it is given and of what it returns.

use vstd::prelude::*;
use vstd::utf8::*;

use super::big_endian;
use super::error::{ErrorView, HandoverError};
use super::item;
use super::item::{HandoverItem, ItemView};
use super::limits::{HandoverLimits, LimitsView, SupportedVersions, VersionsView};
use super::session;
use super::session::{
    AwaitingPrepared, HandoverPeer, HandoverRequest, IncomingHandover, IncomingView,
    OutgoingHandover, PreparedHandover, PreparedIncoming, StageView,
};
use super::wire;
use super::wire::{Datagram, DatagramView, Frame, FrameView, MessageKind};
use crate::text;

verus! {

/// The result is an error against a limit, with this text.
pub open spec fn over_limit<T>(r: Result<T, HandoverError>, message: Seq<char>) -> bool {
    r matches Err(HandoverError::Limit(given)) && given@ == message
}

/// The result is an error against the protocol, with this text.
pub open spec fn against_protocol<T>(r: Result<T, HandoverError>, message: Seq<char>) -> bool {
    r matches Err(HandoverError::Protocol(given)) && given@ == message
}

/// Limits are accepted, with exactly the sizes that were asked for, if and only if the payload limit
/// is at most 65536 bytes, the descriptor limit at most 64 and the name limit at most 255 bytes. Of
/// those that are refused, the first that is too large is told.
pub proof fn law_limits_are_as_asked(
    payload: usize,
    fds: usize,
    name: usize,
    r: Result<HandoverLimits, HandoverError>,
)
    requires
        call_ensures(HandoverLimits::new, (payload, fds, name), r),
    ensures
        r is Ok <==> payload <= 65536 && fds <= 64 && name <= 255,
        r matches Ok(limits) ==> limits@ == (LimitsView {
            max_payload_size: payload as nat,
            max_fds_per_item: fds as nat,
            max_name_size: name as nat,
        }),
        payload > 65536 ==> over_limit(r, "payload limit exceeds hard maximum of 65536 bytes"@),
        payload <= 65536 && fds > 64 ==> over_limit(
            r,
            "file descriptor limit exceeds hard maximum of 64"@,
        ),
        payload <= 65536 && fds <= 64 && name > 255 ==> over_limit(
            r,
            "name limit exceeds hard maximum of 255 bytes"@,
        ),
{
}

/// Limits tell the sizes that they were made with, and never one above its hard maximum.
pub proof fn law_limits_tell_their_sizes(
    payload: usize,
    fds: usize,
    name: usize,
    limits: HandoverLimits,
    told_payload: usize,
    told_fds: usize,
    told_name: usize,
)
    requires
        call_ensures(HandoverLimits::max_payload_size, (&limits,), told_payload),
        call_ensures(HandoverLimits::max_fds_per_item, (&limits,), told_fds),
        call_ensures(HandoverLimits::max_name_size, (&limits,), told_name),
    ensures
        call_ensures(
            HandoverLimits::new,
            (payload, fds, name),
            Ok::<HandoverLimits, HandoverError>(limits),
        ) ==> told_payload == payload && told_fds == fds && told_name == name,
        told_payload <= 65536,
        told_fds <= 64,
        told_name <= 255,
        told_payload == limits@.max_payload_size,
        told_fds == limits@.max_fds_per_item,
        told_name == limits@.max_name_size,
{
}

/// The limits of a peer that was given none are the widest that can be asked for.
pub proof fn law_the_widest_limits_are_the_default(limits: HandoverLimits)
    requires
        call_ensures(<HandoverLimits as Default>::default, (), limits),
    ensures
        limits@ == (LimitsView {
            max_payload_size: 65536,
            max_fds_per_item: 64,
            max_name_size: 255,
        }),
        LimitsView::hard_maximum() == limits@,
{
}

/// A range of versions is accepted if and only if its ends are in order, and then has these ends.
pub proof fn law_version_ranges_are_as_asked(
    min: u16,
    max: u16,
    r: Result<SupportedVersions, HandoverError>,
)
    requires
        call_ensures(SupportedVersions::new, (min, max), r),
    ensures
        r is Ok <==> min <= max,
        r matches Ok(versions) ==> versions@ == (VersionsView { min, max }),
        min > max ==> against_protocol(
            r,
            "minimum application version "@ + text::decimal(min as nat) + " exceeds maximum "@
                + text::decimal(max as nat),
        ),
{
}

/// A range tells its ends, and holds the versions between them, both ends included, and no other.
/// The range of one version holds that version alone.
pub proof fn law_version_ranges_hold_what_is_between(
    versions: SupportedVersions,
    min: u16,
    max: u16,
    version: u16,
    held: bool,
    only: SupportedVersions,
)
    requires
        call_ensures(SupportedVersions::min, (&versions,), min),
        call_ensures(SupportedVersions::max, (&versions,), max),
        call_ensures(SupportedVersions::contains, (&versions, version), held),
        call_ensures(SupportedVersions::exact, (version,), only),
    ensures
        versions@ == (VersionsView { min, max }),
        min <= max,
        held <==> min <= version && version <= max,
        versions@.contains(version) == held,
        only@ == (VersionsView { min: version, max: version }),
{
}

/// An error says what kind of failure it is and then, word for word, what it was given: the text of
/// the transport failure, the complaint, the version and the range it is outside of, or the reason.
pub proof fn law_errors_are_described(error: HandoverError, cause: &str, line: String)
    requires
        call_ensures(HandoverError::describe, (&error, cause), line),
    ensures
        match error {
            HandoverError::Io(_) => line@ == "handover I/O failed: "@ + cause@,
            HandoverError::Protocol(detail) => line@ == "invalid handover protocol: "@ + detail@,
            HandoverError::Limit(detail) => line@ == "handover limit exceeded: "@ + detail@,
            HandoverError::UnsupportedVersion { selected, supported } => line@
                == "application handover version "@ + text::decimal(selected as nat)
                + " is outside supported range "@ + text::decimal(supported@.min as nat) + "..="@
                + text::decimal(supported@.max as nat),
            HandoverError::Aborted(reason) => line@ == "handover aborted: "@ + reason@,
        },
{
}

/// The text of an error is its description; a transport failure ends in what the failure beneath
/// says of itself.
pub proof fn law_errors_say_what_they_are(error: HandoverError, line: String)
    requires
        call_ensures(HandoverError::to_string, (&error,), line),
    ensures
        match error {
            HandoverError::Io(beneath) => exists|cause: String| #[trigger]
                call_ensures(super::error::io_error_text, (&beneath,), cause) && line@
                    == "handover I/O failed: "@ + cause@,
            HandoverError::Protocol(detail) => line@ == "invalid handover protocol: "@ + detail@,
            HandoverError::Limit(detail) => line@ == "handover limit exceeded: "@ + detail@,
            HandoverError::UnsupportedVersion { selected, supported } => line@
                == "application handover version "@ + text::decimal(selected as nat)
                + " is outside supported range "@ + text::decimal(supported@.min as nat) + "..="@
                + text::decimal(supported@.max as nat),
            HandoverError::Aborted(reason) => line@ == "handover aborted: "@ + reason@,
        },
{
}

/// Only a transport failure has an error beneath it, and it is the one that it was made of.
pub proof fn law_transport_failures_keep_their_cause(
    cause: std::io::Error,
    error: HandoverError,
    beneath: Option<&std::io::Error>,
)
    requires
        call_ensures(HandoverError::source, (&error,), beneath),
    ensures
        error == HandoverError::Io(cause) ==> beneath == Some(&cause),
        !(error is Io) ==> beneath is None,
        call_ensures(
            <HandoverError as From<std::io::Error>>::from,
            (cause,),
            error,
        ) ==> beneath == Some(&cause),
{
}

/// The name of the kind of message that a byte stands for.
pub open spec fn name_of_code(code: u8) -> Seq<char> {
    if code == 1 {
        "Request"@
    } else if code == 2 {
        "Item"@
    } else if code == 3 {
        "Finished"@
    } else if code == 4 {
        "Prepared"@
    } else if code == 5 {
        "Commit"@
    } else {
        "Abort"@
    }
}

/// Each kind of message has its own byte, from 1 for a request to 6 for an abort, in the order in
/// which a transaction uses them, and is called by its own name.
pub proof fn law_kinds_have_codes(kind: MessageKind, code: u8, label: &'static str)
    requires
        call_ensures(MessageKind::to_code, (kind,), code),
        call_ensures(MessageKind::to_label, (kind,), label),
    ensures
        1 <= code <= 6,
        kind == MessageKind::Request <==> code == 1,
        kind == MessageKind::Item <==> code == 2,
        kind == MessageKind::Finished <==> code == 3,
        kind == MessageKind::Prepared <==> code == 4,
        kind == MessageKind::Commit <==> code == 5,
        kind == MessageKind::Abort <==> code == 6,
        label@ == name_of_code(code),
        kind.code() == code,
        kind.label() == label@,
{
}

/// A byte is taken for a kind of message if and only if it is the byte of that kind.
pub proof fn law_codes_have_kinds(value: u8, r: Result<MessageKind, HandoverError>)
    requires
        call_ensures(MessageKind::try_from, (value,), r),
    ensures
        r is Ok <==> 1 <= value <= 6,
        r == Ok::<MessageKind, HandoverError>(MessageKind::Request) <==> value == 1,
        r == Ok::<MessageKind, HandoverError>(MessageKind::Item) <==> value == 2,
        r == Ok::<MessageKind, HandoverError>(MessageKind::Finished) <==> value == 3,
        r == Ok::<MessageKind, HandoverError>(MessageKind::Prepared) <==> value == 4,
        r == Ok::<MessageKind, HandoverError>(MessageKind::Commit) <==> value == 5,
        r == Ok::<MessageKind, HandoverError>(MessageKind::Abort) <==> value == 6,
        r is Err ==> against_protocol(r, "unknown message kind "@ + text::decimal(value as nat)),
{
}

/// Where everything stands in a frame, and that nothing else is in it.
pub proof fn law_frames_have_a_layout(
    kind: MessageKind,
    transaction_id: u64,
    application_version: u16,
    payload: &[u8],
    fd_count: usize,
    frame: Vec<u8>,
)
    requires
        call_ensures(
            wire::encode_frame,
            (kind, transaction_id, application_version, payload, fd_count),
            frame,
        ),
    ensures
        frame@.len() == 24 + payload@.len(),
        frame@[0] == 0x45 && frame@[1] == 0x43 && frame@[2] == 0x44 && frame@[3] == 0x48,
        frame@[4] == 1,
        frame@[5] == kind.code(),
        frame@[6] == 0 && frame@[7] == 0,
        big_endian::be_value(frame@.subrange(8, 16)) == transaction_id,
        big_endian::be_value(frame@.subrange(16, 20)) == payload@.len() % 0x1_0000_0000,
        big_endian::be_value(frame@.subrange(20, 22)) == fd_count as nat % 0x1_0000,
        big_endian::be_value(frame@.subrange(22, 24)) == application_version,
        frame@.subrange(24, frame@.len() as int) == payload@,
        frame@ == wire::frame_bytes(
            kind,
            transaction_id,
            application_version,
            payload@,
            fd_count as nat,
        ),
{
    let bytes = frame@;
    let id = big_endian::be_bytes(transaction_id as nat, 8);
    let len = big_endian::be_bytes(payload@.len(), 4);
    let count = big_endian::be_bytes(fd_count as nat, 2);
    let version = big_endian::be_bytes(application_version as nat, 2);
    big_endian::lemma_be_limits();
    big_endian::law_numbers_are_written_in_bytes(transaction_id as nat, 8);
    big_endian::law_numbers_are_written_in_bytes(payload@.len(), 4);
    big_endian::law_numbers_are_written_in_bytes(fd_count as nat, 2);
    big_endian::law_numbers_are_written_in_bytes(application_version as nat, 2);
    assert(bytes.subrange(8, 16) =~= id);
    assert(bytes.subrange(16, 20) =~= len);
    assert(bytes.subrange(20, 22) =~= count);
    assert(bytes.subrange(22, 24) =~= version);
    assert(bytes.subrange(24, bytes.len() as int) =~= payload@);
}

/// What is made of a datagram: the frame that stands in it, or the first rule that it breaks. It has
/// to be whole, to be long enough for a header, to start with the magic bytes, the wire version and
/// zeros in the reserved places, to name a kind of message, to declare a payload within the limit
/// and exactly as long as it is, and to declare as many descriptors as came with it, within the
/// limit, and none unless it carries an item.
pub proof fn law_datagrams_are_read<D>(
    datagram: Datagram<D>,
    limits: HandoverLimits,
    r: Result<Frame<D>, HandoverError>,
)
    requires
        call_ensures(wire::recv_frame::<D>, (datagram, limits), r),
    ensures
        ({
            let bytes = datagram.bytes@;
            let fds = datagram.fds@.len();
            let declared = big_endian::be_value(bytes.subrange(16, 20));
            let announced = big_endian::be_value(bytes.subrange(20, 22));
            let most = limits@.max_payload_size;
            if datagram.data_truncated || datagram.control_truncated {
                over_limit(r, "received truncated handover data or file descriptors"@)
            } else if bytes.len() < 24 {
                against_protocol(
                    r,
                    "message has "@ + text::decimal(bytes.len())
                        + " bytes, shorter than 24-byte header"@,
                )
            } else if !(bytes[0] == 0x45 && bytes[1] == 0x43 && bytes[2] == 0x44 && bytes[3]
                == 0x48) {
                against_protocol(r, "invalid magic"@)
            } else if bytes[4] != 1 {
                against_protocol(
                    r,
                    "unsupported wire version "@ + text::decimal(bytes[4] as nat),
                )
            } else if !(bytes[6] == 0 && bytes[7] == 0) {
                against_protocol(r, "reserved header bits are non-zero"@)
            } else if bytes[5] < 1 || bytes[5] > 6 {
                against_protocol(r, "unknown message kind "@ + text::decimal(bytes[5] as nat))
            } else if declared > most {
                over_limit(
                    r,
                    "declared payload has "@ + text::decimal(declared) + " bytes, maximum is "@
                        + text::decimal(most),
                )
            } else if bytes.len() != 24 + declared {
                against_protocol(
                    r,
                    "declared payload has "@ + text::decimal(declared)
                        + " bytes but message contains "@ + text::decimal((bytes.len() - 24) as nat),
                )
            } else if announced != fds {
                against_protocol(
                    r,
                    "declared "@ + text::decimal(announced) + " file descriptors but received "@
                        + text::decimal(fds),
                )
            } else if fds > limits@.max_fds_per_item {
                over_limit(
                    r,
                    "received "@ + text::decimal(fds) + " file descriptors, maximum is "@
                        + text::decimal(limits@.max_fds_per_item),
                )
            } else if bytes[5] != 2 && fds != 0 {
                against_protocol(
                    r,
                    "control message "@ + name_of_code(bytes[5]) + " carried file descriptors"@,
                )
            } else {
                r matches Ok(frame) && {
                    &&& frame.kind.code() == bytes[5]
                    &&& frame.transaction_id == big_endian::be_value(bytes.subrange(8, 16))
                    &&& frame.application_version == big_endian::be_value(bytes.subrange(22, 24))
                    &&& frame.payload@ == bytes.subrange(24, bytes.len() as int)
                    &&& frame.fds@ == datagram.fds@
                }
            }
        }),
        match r {
            Ok(frame) => wire::received(datagram@, limits@) == Ok::<
                FrameView<D>,
                ErrorView,
            >(frame@),
            Err(error) => wire::received(datagram@, limits@) == Err::<
                FrameView<D>,
                ErrorView,
            >(error@),
        },
{
    let bytes = datagram.bytes@;
    big_endian::lemma_be_limits();
    if bytes.len() >= 24 {
        let start = bytes.subrange(0, 4);
        assert(start[0] == bytes[0] && start[1] == bytes[1] && start[2] == bytes[2] && start[3]
            == bytes[3]);
        assert(wire::magic()[0] == 0x45 && wire::magic()[1] == 0x43 && wire::magic()[2] == 0x44
            && wire::magic()[3] == 0x48);
        if bytes[0] == 0x45 && bytes[1] == 0x43 && bytes[2] == 0x44 && bytes[3] == 0x48 {
            assert(start =~= wire::magic());
        }
        big_endian::lemma_be_canonical(bytes.subrange(8, 16));
        big_endian::lemma_be_canonical(bytes.subrange(22, 24));
    }
}

/// A message is sent if and only if its payload and its descriptors are within the limits and it has
/// none unless it carries an item, and what is sent is then its frame. The first rule that it breaks
/// is told.
pub proof fn law_messages_are_sent(
    kind: MessageKind,
    transaction_id: u64,
    application_version: u16,
    payload: &[u8],
    fd_count: usize,
    limits: HandoverLimits,
    r: Result<Vec<u8>, HandoverError>,
    frame: Vec<u8>,
    allowed: Result<(), HandoverError>,
)
    requires
        call_ensures(
            wire::send_frame,
            (kind, transaction_id, application_version, payload, fd_count, limits),
            r,
        ),
        call_ensures(
            wire::encode_frame,
            (kind, transaction_id, application_version, payload, fd_count),
            frame,
        ),
        call_ensures(wire::validate_outgoing, (kind, payload.len(), fd_count, limits), allowed),
    ensures
        ({
            let len = payload@.len();
            if len > limits@.max_payload_size {
                over_limit(
                    r,
                    "payload has "@ + text::decimal(len) + " bytes, maximum is "@ + text::decimal(
                        limits@.max_payload_size,
                    ),
                )
            } else if fd_count > limits@.max_fds_per_item {
                over_limit(
                    r,
                    "message has "@ + text::decimal(fd_count as nat)
                        + " file descriptors, maximum is "@ + text::decimal(
                        limits@.max_fds_per_item,
                    ),
                )
            } else if kind != MessageKind::Item && fd_count != 0 {
                against_protocol(
                    r,
                    "control message "@ + name_of_code(kind.code())
                        + " cannot carry file descriptors"@,
                )
            } else {
                r matches Ok(bytes) && bytes@ == frame@
            }
        }),
        match (r, allowed) {
            (Ok(_), Ok(_)) => true,
            (Err(error), Err(same)) => error@ == same@,
            _ => false,
        },
        match r {
            Ok(bytes) => wire::sent(
                kind,
                transaction_id,
                application_version,
                payload@,
                fd_count as nat,
                limits@,
            ) == Ok::<Seq<u8>, ErrorView>(bytes@),
            Err(error) => wire::sent(
                kind,
                transaction_id,
                application_version,
                payload@,
                fd_count as nat,
                limits@,
            ) == Err::<Seq<u8>, ErrorView>(error@),
        },
{
}

/// A datagram is sent whole or the shortfall is told, and there is room for the largest datagram that
/// the limits admit. What was filled of a buffer, and no more, is what was received.
pub proof fn law_buffers_are_accounted_for<D>(
    written: usize,
    len: usize,
    whole: Result<(), String>,
    limits: HandoverLimits,
    room: usize,
    buffer: Vec<u8>,
    received: usize,
    data_truncated: bool,
    control_truncated: bool,
    fds: Vec<D>,
    datagram: Datagram<D>,
)
    requires
        call_ensures(wire::check_written, (written, len), whole),
        call_ensures(wire::receive_buffer_len, (limits,), room),
        call_ensures(
            Datagram::<D>::filled,
            (buffer, received, data_truncated, control_truncated, fds),
            datagram,
        ),
    ensures
        whole is Ok <==> written == len,
        whole matches Err(message) ==> message@ == "sent "@ + text::decimal(written as nat)
            + " of "@ + text::decimal(len as nat) + " handover bytes"@,
        room == 24 + limits@.max_payload_size,
        received <= buffer@.len() ==> datagram.bytes@ == buffer@.take(received as int),
        received > buffer@.len() ==> datagram.bytes@ == buffer@,
        datagram.data_truncated == data_truncated,
        datagram.control_truncated == control_truncated,
        datagram.fds@ == fds@,
{
}

/// An item is put into a payload: the length of its name in two bytes, the name and its own payload.
/// That fails if and only if the name or the whole is too long, and says so.
pub proof fn law_items_are_encoded(
    name: &str,
    payload: &[u8],
    limits: HandoverLimits,
    r: Result<Vec<u8>, HandoverError>,
)
    requires
        call_ensures(item::encode_item, (name, payload, limits), r),
        limits@.valid(),
    ensures
        ({
            let name_len = encode_utf8(name@).len();
            let whole = 2 + name_len + payload@.len();
            if name_len > limits@.max_name_size {
                over_limit(
                    r,
                    "item name has "@ + text::decimal(name_len) + " bytes, maximum is "@
                        + text::decimal(limits@.max_name_size),
                )
            } else if whole > usize::MAX {
                over_limit(r, "item payload length overflowed"@)
            } else if whole > limits@.max_payload_size {
                over_limit(
                    r,
                    "encoded item has "@ + text::decimal(whole) + " bytes, maximum is "@
                        + text::decimal(limits@.max_payload_size),
                )
            } else {
                r matches Ok(bytes) && {
                    &&& bytes@.len() == whole
                    &&& big_endian::be_value(bytes@.subrange(0, 2)) == name_len
                    &&& bytes@.subrange(2, 2 + name_len as int) == encode_utf8(name@)
                    &&& bytes@.subrange(2 + name_len as int, whole as int) == payload@
                    &&& bytes@ == item::item_bytes(name@, payload@)
                }
            }
        }),
{
    if let Ok(bytes) = r {
        let len = encode_utf8(name@).len();
        big_endian::lemma_be_limits();
        big_endian::law_numbers_are_written_in_bytes(len, 2);
        assert(bytes@.subrange(0, 2) =~= big_endian::be_bytes(len, 2));
        assert(bytes@.subrange(2, 2 + len as int) =~= encode_utf8(name@));
        assert(bytes@.subrange(2 + len as int, bytes@.len() as int) =~= payload@);
    }
}

/// An item is taken out of a message: its name is as many bytes as the first two say, its payload is
/// all that follows, and its descriptors are those of the message. That fails if and only if the two
/// bytes are missing, the name is too long, is longer than what there is, or is not text.
pub proof fn law_items_are_decoded<D>(
    frame: Frame<D>,
    limits: HandoverLimits,
    r: Result<HandoverItem<D>, HandoverError>,
)
    requires
        call_ensures(item::decode_item::<D>, (frame, limits), r),
    ensures
        ({
            let bytes = frame.payload@;
            let name_len = big_endian::be_value(bytes.subrange(0, 2));
            let name = bytes.subrange(2, 2 + name_len as int);
            if bytes.len() < 2 {
                against_protocol(r, "item payload is missing its name length"@)
            } else if name_len > limits@.max_name_size {
                over_limit(
                    r,
                    "received item name has "@ + text::decimal(name_len) + " bytes, maximum is "@
                        + text::decimal(limits@.max_name_size),
                )
            } else if 2 + name_len > bytes.len() {
                against_protocol(r, "item name extends beyond its payload"@)
            } else if !valid_utf8(name) {
                against_protocol(r, "item name is not UTF-8"@)
            } else {
                r matches Ok(item) && {
                    &&& item@.name == decode_utf8(name)
                    &&& item@.payload == bytes.subrange(2 + name_len as int, bytes.len() as int)
                    &&& item@.fds == frame.fds@
                }
            }
        }),
        match r {
            Ok(item) => item::received_item(frame@, limits@) == Ok::<ItemView<D>, ErrorView>(item@),
            Err(error) => item::received_item(frame@, limits@) == Err::<ItemView<D>, ErrorView>(
                error@,
            ),
        },
{
}

/// An item gives its name, its payload and its descriptors, and gives the same when it is taken
/// apart.
pub proof fn law_items_are_taken_apart<D>(
    item: HandoverItem<D>,
    name: &str,
    payload: &[u8],
    fds: &[D],
    parts: (String, Vec<u8>, Vec<D>),
)
    requires
        call_ensures(HandoverItem::<D>::name, (&item,), name),
        call_ensures(HandoverItem::<D>::payload, (&item,), payload),
        call_ensures(HandoverItem::<D>::fds, (&item,), fds),
        call_ensures(HandoverItem::<D>::into_parts, (item,), parts),
    ensures
        item@ == (ItemView { name: name@, payload: payload@, fds: fds@ }),
        parts.0@ == name@,
        parts.1@ == payload@,
        parts.2@ == fds@,
{
}

/// A peer has the limits that it was given, or the widest ones.
pub proof fn law_peers_have_limits(
    limits: HandoverLimits,
    given: HandoverPeer,
    widest: HandoverPeer,
    told: HandoverLimits,
)
    requires
        call_ensures(HandoverPeer::with_limits, (limits,), given),
        call_ensures(HandoverPeer::new, (), widest),
        call_ensures(HandoverPeer::limits, (&given,), told),
    ensures
        given@ == limits@,
        told@ == limits@,
        widest@ == (LimitsView {
            max_payload_size: 65536,
            max_fds_per_item: 64,
            max_name_size: 255,
        }),
{
}

/// A transaction is known by the process that asks, in the upper half, and by the number of its
/// request, in the lower half.
pub proof fn law_transactions_have_identifiers(process_id: u32, sequence: u32, id: u64)
    requires
        call_ensures(session::transaction_id, (process_id, sequence), id),
    ensures
        id == process_id * 4294967296 + sequence,
        id == session::transaction_of(process_id, sequence),
{
}

/// A request is a message of four bytes, the lowest and the highest version that will do, with no
/// version of its own. It can be made if and only if four bytes may be sent, and starts a transaction
/// in which nothing was received yet.
pub proof fn law_requests_are_made(
    peer: HandoverPeer,
    versions: SupportedVersions,
    transaction_id: u64,
    r: Result<(IncomingHandover, Vec<u8>), HandoverError>,
)
    requires
        call_ensures(HandoverPeer::request, (&peer, versions, transaction_id), r),
    ensures
        peer@.max_payload_size < 4 ==> over_limit(
            r,
            "payload has 4 bytes, maximum is "@ + text::decimal(peer@.max_payload_size),
        ),
        peer@.max_payload_size >= 4 ==> (r matches Ok((incoming, bytes)) && {
            let payload = bytes@.subrange(24, 28);
            &&& bytes@ == wire::frame_bytes(MessageKind::Request, transaction_id, 0, payload, 0)
            &&& payload.len() == 4
            &&& big_endian::be_value(payload.subrange(0, 2)) == versions@.min
            &&& big_endian::be_value(payload.subrange(2, 4)) == versions@.max
            &&& incoming@ == (IncomingView {
                limits: peer@,
                transaction_id,
                versions: versions@,
                application_version: None,
                finished: false,
            })
        }),
{
    let payload = session::request_payload(versions@);
    big_endian::lemma_be_limits();
    big_endian::law_numbers_are_written_in_bytes(versions@.min as nat, 2);
    big_endian::law_numbers_are_written_in_bytes(versions@.max as nat, 2);
    assert(payload.len() == 4);
    assert(payload.subrange(0, 2) =~= big_endian::be_bytes(versions@.min as nat, 2));
    assert(payload.subrange(2, 4) =~= big_endian::be_bytes(versions@.max as nat, 2));
    if peer@.max_payload_size < 4 {
        reveal_strlit("payload has ");
        reveal_strlit(" bytes, maximum is ");
        reveal_strlit("payload has 4 bytes, maximum is ");
        assert(text::decimal(4) =~= seq!['4']);
        assert("payload has "@ + text::decimal(4) + " bytes, maximum is "@
            =~= "payload has 4 bytes, maximum is "@);
    } else {
        let bytes = wire::frame_bytes(MessageKind::Request, transaction_id, 0, payload, 0);
        big_endian::lemma_be_bytes_len(transaction_id as nat, 8);
        big_endian::lemma_be_bytes_len(4, 4);
        big_endian::lemma_be_bytes_len(0, 2);
        assert(bytes.subrange(24, 28) =~= payload);
    }
}

/// A datagram is taken for a request if and only if it is a sound frame that is a request, names two
/// versions and names them in order. The request is then of that transaction and for those versions.
pub proof fn law_requests_are_taken_up<D>(
    peer: HandoverPeer,
    datagram: Datagram<D>,
    r: Result<HandoverRequest, HandoverError>,
)
    requires
        call_ensures(HandoverPeer::receive_request::<D>, (&peer, datagram), r),
    ensures
        match wire::received(datagram@, peer@) {
            Err(unsound) => r matches Err(error) && error@ == unsound,
            Ok(frame) => {
                let min = big_endian::be_value(frame.payload.subrange(0, 2));
                let max = big_endian::be_value(frame.payload.subrange(2, 4));
                if frame.kind != MessageKind::Request {
                    against_protocol(
                        r,
                        "received "@ + name_of_code(frame.kind.code())
                            + " message, expected Request"@,
                    )
                } else if frame.payload.len() != 4 {
                    against_protocol(
                        r,
                        "request payload has "@ + text::decimal(frame.payload.len())
                            + " bytes, expected 4"@,
                    )
                } else if min > max {
                    against_protocol(
                        r,
                        "minimum application version "@ + text::decimal(min) + " exceeds maximum "@
                            + text::decimal(max),
                    )
                } else {
                    r matches Ok(request) && {
                        &&& request@.limits == peer@
                        &&& request@.transaction_id == frame.transaction_id
                        &&& request@.versions.min == min
                        &&& request@.versions.max == max
                    }
                }
            },
        },
{
    if let Ok(frame) = wire::received(datagram@, peer@) {
        big_endian::lemma_be_limits();
        if frame.payload.len() == 4 {
            big_endian::lemma_be_canonical(frame.payload.subrange(0, 2));
            big_endian::lemma_be_canonical(frame.payload.subrange(2, 4));
        }
        if frame.kind != MessageKind::Request {
            reveal_strlit(" message, expected ");
            reveal_strlit("Request");
            reveal_strlit(" message, expected Request");
            assert("received "@ + frame.kind.label() + " message, expected "@ + "Request"@
                =~= "received "@ + frame.kind.label() + " message, expected Request"@);
        }
    }
}

/// An offer can be begun in the versions that the request names, and in no other; it is then in that
/// version and of the same transaction.
pub proof fn law_offers_are_begun(
    request: HandoverRequest,
    versions: SupportedVersions,
    version: u16,
    r: Result<OutgoingHandover, HandoverError>,
)
    requires
        call_ensures(HandoverRequest::supported_versions, (&request,), versions),
        call_ensures(HandoverRequest::begin, (request, version), r),
    ensures
        versions@ == request@.versions,
        r is Ok <==> request@.versions.min <= version && version <= request@.versions.max,
        r matches Ok(outgoing) ==> {
            &&& outgoing@.limits == request@.limits
            &&& outgoing@.transaction_id == request@.transaction_id
            &&& outgoing@.application_version == version
            &&& forall|told: u16| #[trigger]
                call_ensures(OutgoingHandover::application_version, (&outgoing,), told) ==> told
                    == version
        },
        r matches Err(error) ==> error@ == (ErrorView::UnsupportedVersion {
            selected: version,
            supported: request@.versions,
        }),
{
}

/// An item is sent in a frame of the transaction and its version, with the item as payload, if and
/// only if its name, the whole and its descriptors are within the limits. The first that is not is
/// told.
pub proof fn law_items_are_sent(stage: StageView, name: Seq<char>, payload: Seq<u8>, fd_count: nat)
    requires
        stage.limits.valid(),
    ensures
        ({
            let name_len = encode_utf8(name).len();
            let whole = 2 + name_len + payload.len();
            stage.item_sent(name, payload, fd_count) == (if name_len > stage.limits.max_name_size {
                Err::<Seq<u8>, ErrorView>(
                    ErrorView::Limit(
                        "item name has "@ + text::decimal(name_len) + " bytes, maximum is "@
                            + text::decimal(stage.limits.max_name_size),
                    ),
                )
            } else if whole > usize::MAX {
                Err(ErrorView::Limit("item payload length overflowed"@))
            } else if whole > stage.limits.max_payload_size {
                Err(
                    ErrorView::Limit(
                        "encoded item has "@ + text::decimal(whole) + " bytes, maximum is "@
                            + text::decimal(stage.limits.max_payload_size),
                    ),
                )
            } else if fd_count > stage.limits.max_fds_per_item {
                Err(
                    ErrorView::Limit(
                        "message has "@ + text::decimal(fd_count)
                            + " file descriptors, maximum is "@ + text::decimal(
                            stage.limits.max_fds_per_item,
                        ),
                    ),
                )
            } else {
                Ok(
                    wire::frame_bytes(
                        MessageKind::Item,
                        stage.transaction_id,
                        stage.application_version,
                        item::item_bytes(name, payload),
                        fd_count,
                    ),
                )
            })
        }),
{
    big_endian::lemma_be_bytes_len(encode_utf8(name).len(), 2);
}

/// The offer can always be closed and committed: each of the two is a message of the transaction, in
/// its version, without payload and descriptors. What waits for the answer is the same transaction.
pub proof fn law_offers_are_closed_and_committed(
    outgoing: OutgoingHandover,
    closed: Result<(AwaitingPrepared, Vec<u8>), HandoverError>,
    prepared: PreparedHandover,
    committed: Result<Vec<u8>, HandoverError>,
)
    requires
        call_ensures(OutgoingHandover::finish, (outgoing,), closed),
        call_ensures(PreparedHandover::commit, (prepared,), committed),
    ensures
        closed matches Ok((awaiting, bytes)) && awaiting@ == outgoing@ && bytes@
            == wire::frame_bytes(
            MessageKind::Finished,
            outgoing@.transaction_id,
            outgoing@.application_version,
            seq![],
            0,
        ),
        committed matches Ok(bytes) && bytes@ == wire::frame_bytes(
            MessageKind::Commit,
            prepared@.transaction_id,
            prepared@.application_version,
            seq![],
            0,
        ),
{
}

/// The result is the message that ends the transaction for this reason, or that it is too long.
pub open spec fn is_abort(
    r: Result<Vec<u8>, HandoverError>,
    limits: LimitsView,
    transaction_id: u64,
    reason: Seq<char>,
) -> bool {
    let text = encode_utf8(reason);
    if text.len() <= limits.max_payload_size {
        r matches Ok(bytes) && bytes@ == wire::frame_bytes(
            MessageKind::Abort,
            transaction_id,
            0,
            text,
            0,
        )
    } else {
        over_limit(
            r,
            "payload has "@ + text::decimal(text.len()) + " bytes, maximum is "@ + text::decimal(
                limits.max_payload_size,
            ),
        )
    }
}

/// Wherever a transaction is ended, the message says so of that transaction and carries the reason.
/// Only a reason that is too long cannot be sent.
pub proof fn law_transactions_are_aborted(
    reason: &str,
    limits: HandoverLimits,
    transaction_id: u64,
    sent: Result<Vec<u8>, HandoverError>,
    request: HandoverRequest,
    by_request: Result<Vec<u8>, HandoverError>,
    outgoing: OutgoingHandover,
    by_outgoing: Result<Vec<u8>, HandoverError>,
    prepared: PreparedHandover,
    by_prepared: Result<Vec<u8>, HandoverError>,
    incoming: IncomingHandover,
    by_incoming: Result<Vec<u8>, HandoverError>,
)
    requires
        call_ensures(session::send_abort, (limits, transaction_id, reason), sent),
        call_ensures(HandoverRequest::abort, (request, reason), by_request),
        call_ensures(OutgoingHandover::abort, (outgoing, reason), by_outgoing),
        call_ensures(PreparedHandover::abort, (prepared, reason), by_prepared),
        call_ensures(IncomingHandover::abort, (incoming, reason), by_incoming),
    ensures
        is_abort(sent, limits@, transaction_id, reason@),
        is_abort(by_request, request@.limits, request@.transaction_id, reason@),
        is_abort(by_outgoing, outgoing@.limits, outgoing@.transaction_id, reason@),
        is_abort(by_prepared, prepared@.limits, prepared@.transaction_id, reason@),
        is_abort(by_incoming, incoming@.limits, incoming@.transaction_id, reason@),
{
}

/// What a message that aborts stands for: the reason, if it is text.
pub open spec fn reason_of(payload: Seq<u8>) -> ErrorView {
    if valid_utf8(payload) {
        ErrorView::Aborted(decode_utf8(payload))
    } else {
        ErrorView::Protocol("abort reason is not UTF-8"@)
    }
}

/// The outcome of a wait of the transaction `stage` for the message `due`. `expected` is what the
/// wait is for, in words, and `theirs` and `ours` are the words around two versions that differ.
pub open spec fn is_answer<D>(
    outcome: Result<StageView, ErrorView>,
    stage: StageView,
    datagram: DatagramView<D>,
    due: MessageKind,
    expected: Seq<char>,
    theirs: Seq<char>,
    ours: Seq<char>,
) -> bool {
    match wire::received(datagram, stage.limits) {
        Err(unsound) => outcome == Err::<StageView, ErrorView>(unsound),
        Ok(frame) => {
            &&& outcome is Ok <==> frame.transaction_id == stage.transaction_id && frame.kind == due
                && frame.payload.len() == 0 && frame.application_version
                == stage.application_version
            &&& outcome matches Ok(next) ==> next == stage
            &&& frame.transaction_id != stage.transaction_id ==> outcome == Err::<
                StageView,
                ErrorView,
            >(
                ErrorView::Protocol(
                    "received transaction "@ + text::decimal(frame.transaction_id as nat)
                        + ", expected "@ + text::decimal(stage.transaction_id as nat),
                ),
            )
            &&& frame.transaction_id == stage.transaction_id && frame.kind == MessageKind::Abort
                ==> outcome == Err::<StageView, ErrorView>(reason_of(frame.payload))
            &&& frame.transaction_id == stage.transaction_id && frame.kind != due && frame.kind
                != MessageKind::Abort ==> outcome == Err::<StageView, ErrorView>(
                ErrorView::Protocol(
                    "received "@ + name_of_code(frame.kind.code()) + " message, expected "@
                        + expected,
                ),
            )
            &&& frame.transaction_id == stage.transaction_id && frame.kind == due
                && frame.payload.len() != 0 ==> outcome == Err::<StageView, ErrorView>(
                ErrorView::Protocol(
                    "control message "@ + name_of_code(due.code()) + " contains unexpected data"@,
                ),
            )
            &&& frame.transaction_id == stage.transaction_id && frame.kind == due
                && frame.payload.len() == 0 && frame.application_version
                != stage.application_version ==> outcome == Err::<StageView, ErrorView>(
                ErrorView::Protocol(
                    theirs + text::decimal(frame.application_version as nat) + ours
                        + text::decimal(stage.application_version as nat),
                ),
            )
        },
    }
}

/// What came of a wait, as its outcome.
pub open spec fn outcome_of<T: View<V = StageView>>(r: Result<T, HandoverError>) -> Result<
    StageView,
    ErrorView,
> {
    match r {
        Ok(next) => Ok(next@),
        Err(error) => Err(error@),
    }
}

/// The parent takes the child for prepared if and only if the child says so of this transaction, in
/// its version and with nothing beside; everything else is told for what it is.
pub proof fn law_parents_wait_for_the_child<D>(
    awaiting: AwaitingPrepared,
    datagram: Datagram<D>,
    r: Result<PreparedHandover, HandoverError>,
)
    requires
        call_ensures(AwaitingPrepared::wait::<D>, (awaiting, datagram), r),
    ensures
        is_answer(
            outcome_of(r),
            awaiting@,
            datagram@,
            MessageKind::Prepared,
            "prepared or abort"@,
            "prepared version "@,
            " differs from offered version "@,
        ),
        outcome_of(r) == awaiting@.prepared_received(datagram@),
{
}

/// The child may activate its state if and only if the parent commits this transaction, in its
/// version and with nothing beside; everything else is told for what it is.
pub proof fn law_children_wait_for_the_commit<D>(
    dormant: PreparedIncoming,
    datagram: Datagram<D>,
    r: Result<(), HandoverError>,
)
    requires
        call_ensures(PreparedIncoming::wait_for_commit::<D>, (dormant, datagram), r),
    ensures
        is_answer(
            match r {
                Ok(_) => Ok(dormant@),
                Err(error) => Err(error@),
            },
            dormant@,
            datagram@,
            MessageKind::Commit,
            "commit or abort"@,
            "commit version "@,
            " differs from prepared version "@,
        ),
        r is Ok <==> dormant@.commit_received(datagram@) is Ok,
{
}

/// Where a transaction stands after a message of the version `selected`, if it may have that version.
pub open spec fn version_seen(before: IncomingView, selected: u16, after: IncomingView) -> bool {
    &&& after.application_version == Some(selected)
    &&& after.limits == before.limits
    &&& after.transaction_id == before.transaction_id
    &&& after.versions == before.versions
}

/// The child takes up the messages of its transaction, each in the one version that the first of them
/// settles out of those that were asked for: items, until the message that closes the offer. Any
/// other message is told for what it is and changes nothing; an item that is not sound settles the
/// version all the same. Once the offer is closed nothing is read any more.
pub proof fn law_children_receive<D>(incoming: IncomingView, datagram: DatagramView<D>)
    ensures
        ({
            let (after, outcome) = incoming.item_received(datagram);
            let refused = |error: ErrorView|
                after == incoming && outcome == Err::<Option<ItemView<D>>, ErrorView>(error);
            if incoming.finished {
                after == incoming && outcome == Ok::<Option<ItemView<D>>, ErrorView>(None)
            } else {
                match wire::received(datagram, incoming.limits) {
                    Err(unsound) => refused(unsound),
                    Ok(frame) => {
                        let version = frame.application_version;
                        if frame.transaction_id != incoming.transaction_id {
                            refused(
                                ErrorView::Protocol(
                                    "received transaction "@ + text::decimal(
                                        frame.transaction_id as nat,
                                    ) + ", expected "@ + text::decimal(
                                        incoming.transaction_id as nat,
                                    ),
                                ),
                            )
                        } else if frame.kind == MessageKind::Abort {
                            refused(reason_of(frame.payload))
                        } else if frame.kind != MessageKind::Item && frame.kind
                            != MessageKind::Finished {
                            refused(
                                ErrorView::Protocol(
                                    "received "@ + name_of_code(frame.kind.code())
                                        + " message, expected "@ + "item, finished, or abort"@,
                                ),
                            )
                        } else if frame.kind == MessageKind::Finished && frame.payload.len() != 0 {
                            refused(
                                ErrorView::Protocol(
                                    "control message "@ + "Finished"@
                                        + " contains unexpected data"@,
                                ),
                            )
                        } else if version < incoming.versions.min || version
                            > incoming.versions.max {
                            refused(
                                ErrorView::UnsupportedVersion {
                                    selected: version,
                                    supported: incoming.versions,
                                },
                            )
                        } else if incoming.application_version is Some
                            && incoming.application_version != Some(version) {
                            refused(
                                ErrorView::Protocol(
                                    "application version changed from "@ + text::decimal(
                                        incoming.application_version->Some_0 as nat,
                                    ) + " to "@ + text::decimal(version as nat)
                                        + " during transaction"@,
                                ),
                            )
                        } else if frame.kind == MessageKind::Finished {
                            &&& version_seen(incoming, version, after)
                            &&& after.finished
                            &&& outcome == Ok::<Option<ItemView<D>>, ErrorView>(None)
                        } else {
                            &&& version_seen(incoming, version, after)
                            &&& !after.finished
                            &&& match item::received_item(frame, incoming.limits) {
                                Ok(item) => outcome == Ok::<Option<ItemView<D>>, ErrorView>(
                                    Some(item),
                                ),
                                Err(unsound) => outcome == Err::<Option<ItemView<D>>, ErrorView>(
                                    unsound,
                                ),
                            }
                        }
                    },
                }
            }
        }),
{
}

/// The child tells whether it has more to receive and which version was settled, and can say that it
/// is prepared if and only if the offer is closed: by a message of the transaction, in the version
/// that was settled, with nothing beside. What waits for the commit is the same transaction.
pub proof fn law_children_prepare(
    incoming: IncomingHandover,
    more: bool,
    version: Option<u16>,
    r: Result<(PreparedIncoming, Vec<u8>), HandoverError>,
)
    requires
        call_ensures(IncomingHandover::needs_message, (&incoming,), more),
        call_ensures(IncomingHandover::application_version, (&incoming,), version),
        call_ensures(IncomingHandover::prepare, (incoming,), r),
    ensures
        more == !incoming@.finished,
        version == incoming@.application_version,
        r is Ok <==> !more,
        more ==> against_protocol(r, "cannot prepare before the finished message"@),
        r matches Ok((dormant, bytes)) ==> {
            &&& version == Some(dormant@.application_version)
            &&& dormant@.limits == incoming@.limits
            &&& dormant@.transaction_id == incoming@.transaction_id
            &&& bytes@ == wire::frame_bytes(
                MessageKind::Prepared,
                incoming@.transaction_id,
                dormant@.application_version,
                seq![],
                0,
            )
        },
{
}

/// A message belongs to a transaction if and only if it names it; it is a control message of a kind
/// if and only if it is of that kind, has no descriptors, and has a payload only as a request or an
/// abort; and an abort without descriptors stands for its reason.
pub proof fn law_messages_are_checked<D>(
    frame: Frame<D>,
    transaction_id: u64,
    belongs: Result<(), HandoverError>,
    kind: MessageKind,
    control: Result<(), HandoverError>,
    aborted: Result<HandoverError, HandoverError>,
    expected: &str,
    unexpected: HandoverError,
)
    requires
        call_ensures(session::require_transaction::<D>, (&frame, transaction_id), belongs),
        call_ensures(session::require_control_frame::<D>, (&frame, kind), control),
        call_ensures(session::abort_error::<D>, (frame,), aborted),
        call_ensures(session::unexpected_message, (kind, expected), unexpected),
    ensures
        belongs is Ok <==> frame.transaction_id == transaction_id,
        belongs is Err ==> against_protocol(
            belongs,
            "received transaction "@ + text::decimal(frame.transaction_id as nat) + ", expected "@
                + text::decimal(transaction_id as nat),
        ),
        control is Ok <==> frame.kind == kind && frame.fds@.len() == 0 && (frame.payload@.len() == 0
            || kind == MessageKind::Request || kind == MessageKind::Abort),
        frame.kind != kind ==> against_protocol(
            control,
            "received "@ + name_of_code(frame.kind.code()) + " message, expected "@ + name_of_code(
                kind.code(),
            ),
        ),
        frame.kind == kind && control is Err ==> against_protocol(
            control,
            "control message "@ + name_of_code(kind.code()) + " contains unexpected data"@,
        ),
        frame.fds@.len() > 0 ==> against_protocol(
            aborted,
            "abort message carried file descriptors"@,
        ),
        frame.fds@.len() == 0 && !valid_utf8(frame.payload@) ==> against_protocol(
            aborted,
            "abort reason is not UTF-8"@,
        ),
        frame.fds@.len() == 0 && valid_utf8(frame.payload@) ==> (aborted matches Ok(
            HandoverError::Aborted(reason),
        ) && reason@ == decode_utf8(frame.payload@)),
        unexpected@ == ErrorView::Protocol(
            "received "@ + name_of_code(kind.code()) + " message, expected "@ + expected@,
        ),
{
}

} // verus!
