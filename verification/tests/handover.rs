use ecdysis::handover::session::{abort_error, require_control_frame, transaction_id};
use ecdysis::handover::wire::{
    check_written, encode_frame, receive_buffer_len, recv_frame, send_frame, Frame, MessageKind,
};
use ecdysis::handover::{
    Datagram, HandoverError, HandoverLimits, HandoverPeer, IncomingHandover, OutgoingHandover,
    PreparedHandover, PreparedIncoming, SupportedVersions,
};

fn datagram(bytes: Vec<u8>, fds: Vec<u32>) -> Datagram<u32> {
    Datagram { bytes, data_truncated: false, control_truncated: false, fds }
}

fn plain(bytes: Vec<u8>) -> Datagram<u32> {
    datagram(bytes, Vec::new())
}

fn protocol(error: HandoverError) -> String {
    match error {
        HandoverError::Protocol(message) => message,
        other => panic!("not a protocol error: {:?}", other),
    }
}

fn limit(error: HandoverError) -> String {
    match error {
        HandoverError::Limit(message) => message,
        other => panic!("not a limit error: {:?}", other),
    }
}

/// A transaction in which the parent has begun with the version 1.
fn begun() -> (IncomingHandover, OutgoingHandover) {
    let (incoming, request) =
        HandoverPeer::new().request(SupportedVersions::exact(1), 7).unwrap();
    let request = HandoverPeer::new().receive_request(plain(request)).unwrap();
    (incoming, request.begin(1).unwrap())
}

/// A transaction in which the child has prepared.
fn prepared() -> (PreparedIncoming, PreparedHandover) {
    let (mut incoming, outgoing) = begun();
    let (awaiting, finished) = outgoing.finish().unwrap();
    assert!(incoming.receive_item(plain(finished)).unwrap().is_none());
    let (dormant, bytes) = incoming.prepare().unwrap();
    (dormant, awaiting.wait(plain(bytes)).unwrap())
}

#[test]
fn transfers_multiple_items_and_commits() {
    let parent = HandoverPeer::new();
    let child = HandoverPeer::new();

    let (mut incoming, request) =
        child.request(SupportedVersions::new(1, 2).unwrap(), 9).unwrap();
    let request = parent.receive_request(plain(request)).unwrap();
    assert_eq!(request.supported_versions(), SupportedVersions::new(1, 2).unwrap());
    let mut outgoing = request.begin(2).unwrap();
    assert_eq!(outgoing.application_version(), 2);

    let sent = outgoing.send_item("connection", b"state", &[41u32]).unwrap();
    let item = incoming.receive_item(datagram(sent, vec![41])).unwrap().unwrap();
    assert_eq!(item.name(), "connection");
    assert_eq!(item.payload(), b"state");
    assert_eq!(item.fds().len(), 1);
    let (_, _, mut fds) = item.into_parts();
    assert_eq!(fds.remove(0), 41);

    let sent = outgoing.send_item::<u32>("", b"", &[]).unwrap();
    let item = incoming.receive_item(plain(sent)).unwrap().unwrap();
    assert_eq!(item.name(), "");
    assert_eq!(item.payload(), b"");
    assert!(item.fds().is_empty());

    assert!(incoming.needs_message());
    let (awaiting, finished) = outgoing.finish().unwrap();
    assert!(incoming.receive_item(plain(finished)).unwrap().is_none());
    assert!(!incoming.needs_message());
    assert_eq!(incoming.application_version(), Some(2));
    let (dormant, bytes) = incoming.prepare().unwrap();
    let ready = awaiting.wait(plain(bytes)).unwrap();
    let commit = ready.commit().unwrap();
    dormant.wait_for_commit(plain(commit)).unwrap();
}

#[test]
fn abort_returns_descriptors_to_parent_control() {
    let (mut incoming, mut outgoing) = begun();
    let sent = outgoing.send_item("connection", b"state", &[41u32]).unwrap();
    let item = incoming.receive_item(datagram(sent, vec![41])).unwrap().unwrap();
    assert_eq!(item.fds().len(), 1);
    let (awaiting, _) = outgoing.finish().unwrap();
    let abort = incoming.abort("cannot restore state").unwrap();
    let error = match awaiting.wait(plain(abort)) {
        Ok(_) => panic!("child unexpectedly prepared the handover"),
        Err(error) => error,
    };
    assert!(
        matches!(error, HandoverError::Aborted(ref reason) if reason == "cannot restore state")
    );
    assert_eq!(error.to_string(), "handover aborted: cannot restore state");
}

#[test]
fn rejects_unsupported_application_version_without_sending() {
    let (_incoming, bytes) =
        HandoverPeer::new().request(SupportedVersions::new(2, 3).unwrap(), 1).unwrap();
    let request = HandoverPeer::new().receive_request(plain(bytes)).unwrap();
    let error = request.begin(1).unwrap_err();
    assert!(matches!(error, HandoverError::UnsupportedVersion { selected: 1, .. }));
    assert_eq!(
        error.to_string(),
        "application handover version 1 is outside supported range 2..=3"
    );
}

#[test]
fn enforces_item_limits() {
    let limits = HandoverLimits::new(8, 1, 3).unwrap();
    let (_incoming, bytes) = HandoverPeer::new().request(SupportedVersions::exact(1), 1).unwrap();
    let request = HandoverPeer::with_limits(limits).receive_request(plain(bytes)).unwrap();
    let mut outgoing = request.begin(1).unwrap();
    assert!(matches!(
        outgoing.send_item::<u32>("long", b"", &[]),
        Err(HandoverError::Limit(_))
    ));
    assert!(matches!(
        outgoing.send_item::<u32>("ok", b"12345", &[]),
        Err(HandoverError::Limit(_))
    ));
    assert_eq!(
        limit(outgoing.send_item::<u32>("long", b"", &[]).unwrap_err()),
        "item name has 4 bytes, maximum is 3"
    );
    assert_eq!(
        limit(outgoing.send_item::<u32>("ok", b"12345", &[]).unwrap_err()),
        "encoded item has 9 bytes, maximum is 8"
    );
    assert_eq!(
        limit(outgoing.send_item("ok", b"", &[1u32, 2]).unwrap_err()),
        "message has 2 file descriptors, maximum is 1"
    );
    assert!(outgoing.send_item("ok", b"1234", &[1u32]).is_ok());
}

#[test]
fn limits_stay_below_their_hard_maximum() {
    let limits = HandoverLimits::default();
    assert_eq!(limits.max_payload_size(), 65536);
    assert_eq!(limits.max_fds_per_item(), 64);
    assert_eq!(limits.max_name_size(), 255);
    assert_eq!(receive_buffer_len(limits), 65560);
    assert_eq!(HandoverPeer::new().limits(), limits);
    assert_eq!(HandoverLimits::new(65536, 64, 255).unwrap(), limits);
    assert_eq!(
        limit(HandoverLimits::new(65537, 64, 255).unwrap_err()),
        "payload limit exceeds hard maximum of 65536 bytes"
    );
    assert_eq!(
        limit(HandoverLimits::new(1, 65, 256).unwrap_err()),
        "file descriptor limit exceeds hard maximum of 64"
    );
    assert_eq!(
        limit(HandoverLimits::new(1, 1, 256).unwrap_err()),
        "name limit exceeds hard maximum of 255 bytes"
    );
}

#[test]
fn version_ranges_are_inclusive() {
    let versions = SupportedVersions::new(2, 4).unwrap();
    assert_eq!((versions.min(), versions.max()), (2, 4));
    assert!(!versions.contains(1));
    assert!(versions.contains(2));
    assert!(versions.contains(4));
    assert!(!versions.contains(5));
    assert_eq!(
        protocol(SupportedVersions::new(3, 2).unwrap_err()),
        "minimum application version 3 exceeds maximum 2"
    );
}

#[test]
fn frames_have_a_fixed_layout() {
    let bytes = encode_frame(MessageKind::Item, 0x0102_0304_0506_0708, 0x0a0b, b"xyz", 2);
    assert_eq!(
        bytes,
        vec![
            b'E', b'C', b'D', b'H', 1, 2, 0, 0, 1, 2, 3, 4, 5, 6, 7, 8, 0, 0, 0, 3, 0, 2, 0x0a,
            0x0b, b'x', b'y', b'z',
        ]
    );
    let frame = recv_frame(datagram(bytes, vec![5, 6]), HandoverLimits::default()).unwrap();
    assert_eq!(frame.kind, MessageKind::Item);
    assert_eq!(frame.transaction_id, 0x0102_0304_0506_0708);
    assert_eq!(frame.application_version, 0x0a0b);
    assert_eq!(frame.payload, b"xyz");
    assert_eq!(frame.fds, vec![5, 6]);
    let again = encode_frame(
        frame.kind,
        frame.transaction_id,
        frame.application_version,
        &frame.payload,
        frame.fds.len(),
    );
    assert_eq!(
        again,
        encode_frame(MessageKind::Item, 0x0102_0304_0506_0708, 0x0a0b, b"xyz", 2)
    );
}

#[test]
fn control_messages_carry_no_descriptors() {
    let limits = HandoverLimits::default();
    assert_eq!(
        protocol(send_frame(MessageKind::Commit, 1, 1, &[], 1, limits).unwrap_err()),
        "control message Commit cannot carry file descriptors"
    );
    assert_eq!(
        limit(send_frame(MessageKind::Item, 1, 1, &[], 65, limits).unwrap_err()),
        "message has 65 file descriptors, maximum is 64"
    );
    let frame = |kind: MessageKind| Frame {
        kind,
        transaction_id: 1,
        application_version: 1,
        payload: b"why".to_vec(),
        fds: vec![3u32],
    };
    assert_eq!(
        protocol(require_control_frame(&frame(MessageKind::Request), MessageKind::Request).unwrap_err()),
        "control message Request contains unexpected data"
    );
    assert_eq!(
        protocol(abort_error(frame(MessageKind::Abort)).unwrap_err()),
        "abort message carried file descriptors"
    );
}

#[test]
fn nothing_is_read_after_the_offer_is_closed() {
    let (mut incoming, outgoing) = begun();
    let (_awaiting, finished) = outgoing.finish().unwrap();
    assert!(incoming.receive_item(plain(finished)).unwrap().is_none());
    assert!(incoming.receive_item(plain(vec![1, 2, 3])).unwrap().is_none());
    assert_eq!(incoming.application_version(), Some(1));
}

#[test]
fn items_of_another_transaction_are_refused() {
    let (mut incoming, _) = begun();
    let bytes = encode_frame(MessageKind::Item, 8, 1, &[0, 0], 0);
    assert_eq!(
        protocol(incoming.receive_item(plain(bytes)).unwrap_err()),
        "received transaction 8, expected 7"
    );
    assert_eq!(incoming.application_version(), None);
}

#[test]
fn malformed_frames_are_refused() {
    let limits = HandoverLimits::new(16, 1, 4).unwrap();
    let good = encode_frame(MessageKind::Item, 1, 1, &[0, 0], 0);
    let refuse = |index: usize, value: u8| {
        let mut bytes = good.clone();
        bytes[index] = value;
        recv_frame(plain(bytes), limits).unwrap_err()
    };
    assert!(recv_frame(plain(good.clone()), limits).is_ok());
    assert_eq!(protocol(refuse(3, b'X')), "invalid magic");
    assert_eq!(protocol(refuse(4, 2)), "unsupported wire version 2");
    assert_eq!(protocol(refuse(7, 1)), "reserved header bits are non-zero");
    assert_eq!(protocol(refuse(5, 0)), "unknown message kind 0");
    assert_eq!(protocol(refuse(5, 7)), "unknown message kind 7");
    assert_eq!(limit(refuse(19, 17)), "declared payload has 17 bytes, maximum is 16");
    assert_eq!(
        protocol(refuse(19, 3)),
        "declared payload has 3 bytes but message contains 2"
    );
    assert_eq!(
        protocol(refuse(21, 1)),
        "declared 1 file descriptors but received 0"
    );
    let two = encode_frame(MessageKind::Item, 1, 1, &[0, 0], 2);
    assert_eq!(
        limit(recv_frame(datagram(two, vec![1, 2]), limits).unwrap_err()),
        "received 2 file descriptors, maximum is 1"
    );
    let commit = encode_frame(MessageKind::Commit, 1, 1, &[], 1);
    assert_eq!(
        protocol(recv_frame(datagram(commit, vec![1]), limits).unwrap_err()),
        "control message Commit carried file descriptors"
    );
    assert_eq!(
        protocol(recv_frame(plain(vec![0; 23]), limits).unwrap_err()),
        "message has 23 bytes, shorter than 24-byte header"
    );
}

#[test]
fn truncated_datagrams_are_refused() {
    let bytes = encode_frame(MessageKind::Commit, 1, 1, &[], 0);
    for (data_truncated, control_truncated) in [(true, false), (false, true)] {
        let cut: Datagram<u32> = Datagram {
            bytes: bytes.clone(),
            data_truncated,
            control_truncated,
            fds: Vec::new(),
        };
        assert_eq!(
            limit(recv_frame(cut, HandoverLimits::default()).unwrap_err()),
            "received truncated handover data or file descriptors"
        );
    }
    let mut buffer = bytes.clone();
    buffer.resize(100, 0xff);
    let filled: Datagram<u32> = Datagram::filled(buffer, bytes.len(), false, false, Vec::new());
    assert_eq!(filled.bytes, bytes);
    assert!(recv_frame(filled, HandoverLimits::default()).is_ok());
}

#[test]
fn malformed_items_are_refused() {
    let refuse = |payload: &[u8]| {
        let (mut incoming, _) = begun();
        let bytes = encode_frame(MessageKind::Item, 7, 1, payload, 0);
        incoming.receive_item(plain(bytes)).unwrap_err()
    };
    assert_eq!(protocol(refuse(&[0])), "item payload is missing its name length");
    assert_eq!(
        limit(refuse(&[1, 0])),
        "received item name has 256 bytes, maximum is 255"
    );
    assert_eq!(protocol(refuse(&[0, 2, b'a'])), "item name extends beyond its payload");
    assert_eq!(protocol(refuse(&[0, 1, 0xff])), "item name is not UTF-8");
}

#[test]
fn item_names_are_utf8() {
    let (mut incoming, mut outgoing) = begun();
    let sent = outgoing.send_item::<u32>("häutung ✓", &[0, 255], &[]).unwrap();
    let item = incoming.receive_item(plain(sent)).unwrap().unwrap();
    assert_eq!(item.name(), "häutung ✓");
    assert_eq!(item.payload(), &[0, 255]);
}

#[test]
fn a_malformed_item_still_settles_the_version() {
    let (mut incoming, bytes) =
        HandoverPeer::new().request(SupportedVersions::new(1, 2).unwrap(), 7).unwrap();
    assert!(!bytes.is_empty());
    let bytes = encode_frame(MessageKind::Item, 7, 2, &[], 0);
    assert!(incoming.receive_item(plain(bytes)).is_err());
    assert_eq!(incoming.application_version(), Some(2));
    let bytes = encode_frame(MessageKind::Item, 7, 1, &[0, 0], 0);
    assert_eq!(
        protocol(incoming.receive_item(plain(bytes)).unwrap_err()),
        "application version changed from 2 to 1 during transaction"
    );
    let bytes = encode_frame(MessageKind::Item, 7, 3, &[0, 0], 0);
    assert!(matches!(
        incoming.receive_item(plain(bytes)),
        Err(HandoverError::UnsupportedVersion { selected: 3, .. })
    ));
}

#[test]
fn requests_are_checked() {
    let parent = HandoverPeer::new();
    let bytes = encode_frame(MessageKind::Request, 1, 0, &[0, 1, 0], 0);
    assert_eq!(
        protocol(parent.receive_request(plain(bytes)).unwrap_err()),
        "request payload has 3 bytes, expected 4"
    );
    let bytes = encode_frame(MessageKind::Request, 1, 0, &[0, 2, 0, 1], 0);
    assert_eq!(
        protocol(parent.receive_request(plain(bytes)).unwrap_err()),
        "minimum application version 2 exceeds maximum 1"
    );
    let bytes = encode_frame(MessageKind::Abort, 1, 0, b"no", 0);
    assert_eq!(
        protocol(parent.receive_request(plain(bytes)).unwrap_err()),
        "received Abort message, expected Request"
    );
    let narrow = HandoverPeer::with_limits(HandoverLimits::new(3, 0, 0).unwrap());
    assert_eq!(
        limit(narrow.request(SupportedVersions::exact(1), 1).unwrap_err()),
        "payload has 4 bytes, maximum is 3"
    );
}

#[test]
fn only_the_commit_of_the_transaction_activates() {
    let refuse = |kind: MessageKind, transaction: u64, version: u16, payload: &[u8]| {
        let (dormant, _) = prepared();
        let bytes = encode_frame(kind, transaction, version, payload, 0);
        dormant.wait_for_commit(plain(bytes)).unwrap_err()
    };
    assert_eq!(
        protocol(refuse(MessageKind::Commit, 8, 1, &[])),
        "received transaction 8, expected 7"
    );
    assert_eq!(
        protocol(refuse(MessageKind::Commit, 7, 2, &[])),
        "commit version 2 differs from prepared version 1"
    );
    assert_eq!(
        protocol(refuse(MessageKind::Commit, 7, 1, &[0])),
        "control message Commit contains unexpected data"
    );
    assert_eq!(
        protocol(refuse(MessageKind::Prepared, 7, 1, &[])),
        "received Prepared message, expected commit or abort"
    );
    assert_eq!(
        protocol(refuse(MessageKind::Abort, 7, 0, &[0xff])),
        "abort reason is not UTF-8"
    );
    let (dormant, ready) = prepared();
    dormant.wait_for_commit(plain(ready.commit().unwrap())).unwrap();
    let (dormant, ready) = prepared();
    let error = dormant.wait_for_commit(plain(ready.abort("too late").unwrap())).unwrap_err();
    assert!(matches!(error, HandoverError::Aborted(ref reason) if reason == "too late"));
}

#[test]
fn only_the_prepared_message_prepares() {
    let refuse = |kind: MessageKind, version: u16| {
        let (_, outgoing) = begun();
        let (awaiting, _) = outgoing.finish().unwrap();
        awaiting.wait(plain(encode_frame(kind, 7, version, &[], 0))).unwrap_err()
    };
    assert_eq!(
        protocol(refuse(MessageKind::Prepared, 3)),
        "prepared version 3 differs from offered version 1"
    );
    assert_eq!(
        protocol(refuse(MessageKind::Finished, 1)),
        "received Finished message, expected prepared or abort"
    );
}

#[test]
fn the_offer_has_to_be_closed_before_preparing() {
    let (incoming, _) = begun();
    let error = incoming.prepare().unwrap_err();
    assert_eq!(
        error.to_string(),
        "invalid handover protocol: cannot prepare before the finished message"
    );
    let (mut incoming, _) = begun();
    let bytes = encode_frame(MessageKind::Commit, 7, 1, &[], 0);
    assert_eq!(
        protocol(incoming.receive_item(plain(bytes)).unwrap_err()),
        "received Commit message, expected item, finished, or abort"
    );
}

#[test]
fn aborts_reach_the_child_too() {
    let (mut incoming, outgoing) = begun();
    let abort = outgoing.abort("nothing to give").unwrap();
    assert!(matches!(
        incoming.receive_item(plain(abort)),
        Err(HandoverError::Aborted(ref reason)) if reason == "nothing to give"
    ));
    let (mut incoming, bytes) =
        HandoverPeer::new().request(SupportedVersions::exact(1), 7).unwrap();
    let request = HandoverPeer::new().receive_request(plain(bytes)).unwrap();
    let abort = request.abort("busy").unwrap();
    assert!(matches!(
        incoming.receive_item(plain(abort)),
        Err(HandoverError::Aborted(ref reason)) if reason == "busy"
    ));
}

#[test]
fn transaction_ids_hold_process_and_sequence() {
    assert_eq!(transaction_id(0x1234, 0x5678), 0x0000_1234_0000_5678);
    assert_eq!(transaction_id(u32::MAX, u32::MAX), u64::MAX);
    assert_ne!(transaction_id(1, 2), transaction_id(2, 1));
}

#[test]
fn short_writes_are_told() {
    assert!(check_written(30, 30).is_ok());
    assert_eq!(check_written(12, 30).unwrap_err(), "sent 12 of 30 handover bytes");
}

#[test]
fn transport_failures_keep_their_cause() {
    let error = HandoverError::from(std::io::Error::from_raw_os_error(32));
    assert!(error.source().is_some());
    assert_eq!(error.source().unwrap().raw_os_error(), Some(32));
    assert!(error.to_string().starts_with("handover I/O failed: "));
    assert!(error.to_string().len() > "handover I/O failed: ".len());
    assert_eq!(error.describe("broken"), "handover I/O failed: broken");
    let error = HandoverError::from(nix::Error::EPIPE);
    assert_eq!(
        error.source().unwrap().raw_os_error(),
        Some(nix::Error::EPIPE as i32)
    );
    let error = HandoverError::Limit(String::from("too much"));
    assert!(error.source().is_none());
    assert_eq!(error.to_string(), "handover limit exceeded: too much");
}
