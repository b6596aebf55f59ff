//! What holds of the protocol as a whole.

use vstd::prelude::*;
use vstd::utf8::*;

use super::big_endian;
use super::error::ErrorView;
use super::item;
use super::item::ItemView;
use super::limits::{LimitsView, VersionsView};
use super::session;
use super::session::{IncomingView, RequestView, StageView};
use super::wire;
use super::wire::{DatagramView, FrameView, MessageKind, HEADER_LEN, WIRE_VERSION};

verus! {

/// A datagram that arrives whole.
pub open spec fn delivered<D>(bytes: Seq<u8>, fds: Seq<D>) -> DatagramView<D> {
    DatagramView { bytes, data_truncated: false, control_truncated: false, fds }
}

/// Where the fields of a frame stand.
proof fn lemma_frame_fields(
    kind: MessageKind,
    transaction_id: u64,
    application_version: u16,
    payload: Seq<u8>,
    fd_count: nat,
)
    requires
        payload.len() < 0x1_0000_0000,
        fd_count < 0x1_0000,
    ensures
        ({
            let bytes = wire::frame_bytes(
                kind,
                transaction_id,
                application_version,
                payload,
                fd_count,
            );
            &&& bytes.len() == HEADER_LEN + payload.len()
            &&& bytes.subrange(0, 4) == wire::magic()
            &&& bytes[4] == WIRE_VERSION
            &&& bytes[5] == kind.code()
            &&& bytes[6] == 0
            &&& bytes[7] == 0
            &&& wire::declared_len(bytes) == payload.len()
            &&& wire::declared_fds(bytes) == fd_count
            &&& big_endian::be_value(bytes.subrange(8, 16)) == transaction_id
            &&& big_endian::be_value(bytes.subrange(22, 24)) == application_version
            &&& bytes.subrange(HEADER_LEN as int, bytes.len() as int) == payload
        }),
{
    let bytes = wire::frame_bytes(kind, transaction_id, application_version, payload, fd_count);
    let id = big_endian::be_bytes(transaction_id as nat, 8);
    let len = big_endian::be_bytes(payload.len(), 4);
    let count = big_endian::be_bytes(fd_count, 2);
    let version = big_endian::be_bytes(application_version as nat, 2);
    big_endian::lemma_be_limits();
    big_endian::lemma_be_bytes_len(transaction_id as nat, 8);
    big_endian::lemma_be_bytes_len(payload.len(), 4);
    big_endian::lemma_be_bytes_len(fd_count, 2);
    big_endian::lemma_be_bytes_len(application_version as nat, 2);
    big_endian::lemma_be_round_trip(transaction_id as nat, 8);
    big_endian::lemma_be_round_trip(payload.len(), 4);
    big_endian::lemma_be_round_trip(fd_count, 2);
    big_endian::lemma_be_round_trip(application_version as nat, 2);
    assert(bytes.subrange(0, 4) =~= wire::magic());
    assert(bytes.subrange(8, 16) =~= id);
    assert(bytes.subrange(16, 20) =~= len);
    assert(bytes.subrange(20, 22) =~= count);
    assert(bytes.subrange(22, 24) =~= version);
    assert(bytes.subrange(HEADER_LEN as int, bytes.len() as int) =~= payload);
}

/// A frame that the receiver's limits admit is received as it was sent, with its descriptors.
pub proof fn law_frame_round_trip<D>(
    kind: MessageKind,
    transaction_id: u64,
    application_version: u16,
    payload: Seq<u8>,
    fds: Seq<D>,
    limits: LimitsView,
)
    requires
        limits.valid(),
        payload.len() <= limits.max_payload_size,
        fds.len() <= limits.max_fds_per_item,
        kind == MessageKind::Item || fds.len() == 0,
    ensures
        wire::received(
            delivered(
                wire::frame_bytes(kind, transaction_id, application_version, payload, fds.len()),
                fds,
            ),
            limits,
        ) == Ok::<FrameView<D>, ErrorView>(
            FrameView { kind, transaction_id, application_version, payload, fds },
        ),
{
    lemma_frame_fields(kind, transaction_id, application_version, payload, fds.len());
}

/// A frame has one encoding: a datagram that is accepted holds exactly the bytes that sending the
/// frame would give, and as many descriptors.
pub proof fn law_frame_is_canonical<D>(datagram: DatagramView<D>, limits: LimitsView)
    ensures
        wire::received(datagram, limits) matches Ok(frame) ==> {
            &&& !datagram.truncated()
            &&& datagram.fds == frame.fds
            &&& datagram.bytes == wire::frame_bytes(
                frame.kind,
                frame.transaction_id,
                frame.application_version,
                frame.payload,
                frame.fds.len(),
            )
        },
{
    if let Ok(frame) = wire::received(datagram, limits) {
        let bytes = datagram.bytes;
        big_endian::lemma_be_limits();
        big_endian::lemma_be_canonical(bytes.subrange(8, 16));
        big_endian::lemma_be_canonical(bytes.subrange(16, 20));
        big_endian::lemma_be_canonical(bytes.subrange(20, 22));
        big_endian::lemma_be_canonical(bytes.subrange(22, 24));
        let again = wire::frame_bytes(
            frame.kind,
            frame.transaction_id,
            frame.application_version,
            frame.payload,
            frame.fds.len(),
        );
        assert(wire::declared_len(bytes) == frame.payload.len());
        assert(bytes.subrange(0, 4)[0] == bytes[0]);
        assert(bytes.subrange(0, 4)[1] == bytes[1]);
        assert(bytes.subrange(0, 4)[2] == bytes[2]);
        assert(bytes.subrange(0, 4)[3] == bytes[3]);
        assert(bytes =~= bytes.subrange(0, 4) + seq![bytes[4], bytes[5], bytes[6], bytes[7]]
            + bytes.subrange(8, 16) + bytes.subrange(16, 20) + bytes.subrange(20, 22)
            + bytes.subrange(22, 24) + bytes.subrange(24, bytes.len() as int));
        assert(again =~= bytes);
    }
}

/// No received frame is above the receiver's limits, and only items carry descriptors.
pub proof fn law_received_frame_is_within_limits<D>(datagram: DatagramView<D>, limits: LimitsView)
    ensures
        wire::received(datagram, limits) matches Ok(frame) ==> {
            &&& frame.payload.len() <= limits.max_payload_size
            &&& frame.fds.len() <= limits.max_fds_per_item
            &&& frame.kind != MessageKind::Item ==> frame.fds.len() == 0
        },
{
}

proof fn lemma_item_fields(name: Seq<char>, payload: Seq<u8>)
    requires
        encode_utf8(name).len() < 0x1_0000,
    ensures
        ({
            let bytes = item::item_bytes(name, payload);
            &&& bytes.len() == 2 + encode_utf8(name).len() + payload.len()
            &&& item::declared_name_len(bytes) == encode_utf8(name).len()
            &&& item::name_bytes(bytes) == encode_utf8(name)
            &&& bytes.subrange(2 + encode_utf8(name).len() as int, bytes.len() as int) == payload
        }),
{
    let bytes = item::item_bytes(name, payload);
    let len = encode_utf8(name).len();
    big_endian::lemma_be_limits();
    big_endian::lemma_be_bytes_len(len, 2);
    big_endian::lemma_be_round_trip(len, 2);
    assert(bytes.subrange(0, 2) =~= big_endian::be_bytes(len, 2));
    assert(bytes.subrange(2, 2 + len as int) =~= encode_utf8(name));
    assert(bytes.subrange(2 + len as int, bytes.len() as int) =~= payload);
}

/// An item is within limits, name, payload and descriptors.
pub open spec fn item_fits<D>(item: ItemView<D>, limits: LimitsView) -> bool {
    &&& encode_utf8(item.name).len() <= limits.max_name_size
    &&& 2 + encode_utf8(item.name).len() + item.payload.len() <= limits.max_payload_size
    &&& item.fds.len() <= limits.max_fds_per_item
}

/// An item can be sent if and only if it is within the sender's limits.
pub proof fn law_items_within_limits_are_sent<D>(stage: StageView, item: ItemView<D>)
    requires
        stage.limits.valid(),
    ensures
        stage.item_sent(item.name, item.payload, item.fds.len()) is Ok <==> item_fits(
            item,
            stage.limits,
        ),
{
    if encode_utf8(item.name).len() <= stage.limits.max_name_size {
        lemma_item_fields(item.name, item.payload);
    }
}

/// What the parent sends of an item gives the child the same item, with the same name, the same
/// payload and the same descriptors, if it is within the child's limits and of a version that the
/// child still takes.
pub proof fn law_item_round_trip<D>(stage: StageView, incoming: IncomingView, item: ItemView<D>)
    requires
        stage.limits.valid(),
        incoming.limits.valid(),
        incoming.transaction_id == stage.transaction_id,
        !incoming.finished,
        incoming.observed(stage.application_version) is Ok,
        item_fits(item, stage.limits),
        item_fits(item, incoming.limits),
    ensures
        stage.item_sent(item.name, item.payload, item.fds.len()) matches Ok(bytes)
            && incoming.item_received(delivered(bytes, item.fds)) == (
            incoming.observed(stage.application_version)->Ok_0,
            Ok::<Option<ItemView<D>>, ErrorView>(Some(item)),
        ),
{
    lemma_item_fields(item.name, item.payload);
    let payload = item::item_bytes(item.name, item.payload);
    law_frame_round_trip(
        MessageKind::Item,
        stage.transaction_id,
        stage.application_version,
        payload,
        item.fds,
        incoming.limits,
    );
    encode_utf8_valid_utf8(item.name);
    encode_utf8_decode_utf8(item.name);
}

/// No received item is above the receiver's limits.
pub proof fn law_received_item_is_within_limits<D>(
    incoming: IncomingView,
    datagram: DatagramView<D>,
)
    ensures
        incoming.item_received(datagram).1 matches Ok(Some(item)) ==> item_fits(
            item,
            incoming.limits,
        ) && item.fds == datagram.fds,
{
    if let Ok(Some(item)) = incoming.item_received(datagram).1 {
        if let Ok(frame) = wire::received(datagram, incoming.limits) {
            decode_utf8_encode_utf8(item::name_bytes(frame.payload));
        }
    }
}

/// The settled part of a transaction never changes, whatever arrives: not its identity, its limits
/// or the versions asked for; not the version, once one was seen; and nothing at all once the
/// offer is closed.
pub proof fn law_transaction_is_stable<D>(incoming: IncomingView, datagram: DatagramView<D>)
    requires
        incoming.valid(),
    ensures
        ({
            let next = incoming.item_received(datagram).0;
            &&& next.valid()
            &&& next.transaction_id == incoming.transaction_id
            &&& next.limits == incoming.limits
            &&& next.versions == incoming.versions
            &&& incoming.application_version is Some ==> next.application_version
                == incoming.application_version
            &&& incoming.finished ==> next == incoming
        }),
{
}

/// A message of another transaction is refused and changes nothing, wherever it arrives.
pub proof fn law_foreign_messages_are_refused<D>(
    incoming: IncomingView,
    stage: StageView,
    datagram: DatagramView<D>,
)
    ensures
        wire::received(datagram, incoming.limits) matches Ok(frame) ==> (!incoming.finished
            && frame.transaction_id != incoming.transaction_id ==> incoming.item_received(
            datagram,
        ) == (
            incoming,
            Err::<Option<ItemView<D>>, ErrorView>(
                session::foreign(frame.transaction_id, incoming.transaction_id),
            ),
        )),
        wire::received(datagram, stage.limits) matches Ok(frame) ==> (frame.transaction_id
            != stage.transaction_id ==> {
            let refused = Err::<StageView, ErrorView>(
                session::foreign(frame.transaction_id, stage.transaction_id),
            );
            &&& stage.prepared_received(datagram) == refused
            &&& stage.commit_received(datagram) == refused
        }),
{
}

/// A request reaches the parent as the child made it.
pub proof fn law_request_round_trip<D>(
    child: LimitsView,
    parent: LimitsView,
    versions: VersionsView,
    transaction_id: u64,
)
    requires
        child.valid(),
        parent.valid(),
        versions.valid(),
        child.max_payload_size >= 4,
        parent.max_payload_size >= 4,
    ensures
        session::requested(child, versions, transaction_id) matches Ok((incoming, bytes))
            && incoming == (IncomingView {
            limits: child,
            transaction_id,
            versions,
            application_version: None,
            finished: false,
        }) && session::request_received(parent, delivered(bytes, Seq::<D>::empty())) == Ok::<
            RequestView,
            ErrorView,
        >(RequestView { limits: parent, transaction_id, versions }),
{
    let payload = session::request_payload(versions);
    big_endian::lemma_be_limits();
    big_endian::lemma_be_bytes_len(versions.min as nat, 2);
    big_endian::lemma_be_bytes_len(versions.max as nat, 2);
    big_endian::lemma_be_round_trip(versions.min as nat, 2);
    big_endian::lemma_be_round_trip(versions.max as nat, 2);
    assert(payload.subrange(0, 2) =~= big_endian::be_bytes(versions.min as nat, 2));
    assert(payload.subrange(2, 4) =~= big_endian::be_bytes(versions.max as nat, 2));
    law_frame_round_trip(
        MessageKind::Request,
        transaction_id,
        0,
        payload,
        Seq::<D>::empty(),
        parent,
    );
}

/// The parent can begin with every version that the child asked for, and with no other. A version
/// that is refused names the range it is not in.
pub proof fn law_versions_are_negotiated(request: RequestView, version: u16)
    ensures
        request.begun(version) is Ok <==> request.versions.min <= version <= request.versions.max,
        request.begun(version) matches Ok(stage) ==> stage.application_version == version
            && stage.transaction_id == request.transaction_id,
        request.begun(version) matches Err(error) ==> error == (ErrorView::UnsupportedVersion {
            selected: version,
            supported: request.versions,
        }),
{
}

/// An abort tells whoever waits in the transaction the reason that was given, whatever it is they
/// wait for.
pub proof fn law_abort_reaches_the_peer<D>(
    sender: LimitsView,
    transaction_id: u64,
    reason: Seq<char>,
    incoming: IncomingView,
    stage: StageView,
)
    requires
        sender.valid(),
        incoming.limits.valid(),
        stage.limits.valid(),
        incoming.transaction_id == transaction_id,
        stage.transaction_id == transaction_id,
        !incoming.finished,
        encode_utf8(reason).len() <= sender.max_payload_size,
        encode_utf8(reason).len() <= incoming.limits.max_payload_size,
        encode_utf8(reason).len() <= stage.limits.max_payload_size,
    ensures
        session::abort_sent(sender, transaction_id, reason) matches Ok(bytes) && {
            let datagram = delivered(bytes, Seq::<D>::empty());
            &&& incoming.item_received(datagram) == (
                incoming,
                Err::<Option<ItemView<D>>, ErrorView>(ErrorView::Aborted(reason)),
            )
            &&& stage.prepared_received(datagram) == Err::<StageView, ErrorView>(
                ErrorView::Aborted(reason),
            )
            &&& stage.commit_received(datagram) == Err::<StageView, ErrorView>(
                ErrorView::Aborted(reason),
            )
        },
{
    encode_utf8_valid_utf8(reason);
    encode_utf8_decode_utf8(reason);
    law_frame_round_trip(
        MessageKind::Abort,
        transaction_id,
        0,
        encode_utf8(reason),
        Seq::<D>::empty(),
        incoming.limits,
    );
    law_frame_round_trip(
        MessageKind::Abort,
        transaction_id,
        0,
        encode_utf8(reason),
        Seq::<D>::empty(),
        stage.limits,
    );
}

/// The one message that ends a wait of a transaction well.
pub open spec fn exact_answer<D>(stage: StageView, kind: MessageKind, datagram: DatagramView<D>) -> bool {
    &&& !datagram.truncated()
    &&& datagram.fds.len() == 0
    &&& datagram.bytes == wire::frame_bytes(
        kind,
        stage.transaction_id,
        stage.application_version,
        Seq::<u8>::empty(),
        0,
    )
}

/// The child may activate its state on one message and no other: the commit of this very
/// transaction, in the version that was prepared.
pub proof fn law_only_the_commit_activates<D>(stage: StageView, datagram: DatagramView<D>)
    ensures
        stage.commit_received(datagram) is Ok <==> exact_answer(
            stage,
            MessageKind::Commit,
            datagram,
        ),
{
    lemma_answer_is_exact(stage, MessageKind::Commit, datagram);
}

/// The parent takes the child for prepared on one message and no other: the child's word for this
/// very transaction, in the version that was offered.
pub proof fn law_only_the_prepared_message_prepares<D>(stage: StageView, datagram: DatagramView<D>)
    ensures
        stage.prepared_received(datagram) is Ok <==> exact_answer(
            stage,
            MessageKind::Prepared,
            datagram,
        ),
{
    lemma_answer_is_exact(stage, MessageKind::Prepared, datagram);
}

proof fn lemma_answer_is_exact<D>(stage: StageView, due: MessageKind, datagram: DatagramView<D>)
    requires
        due == MessageKind::Commit || due == MessageKind::Prepared,
    ensures
        forall|expected: Seq<char>, theirs: Seq<char>, ours: Seq<char>|
            (#[trigger] stage.answered(datagram, due, expected, theirs, ours) is Ok)
                <==> exact_answer(stage, due, datagram),
{
    law_frame_is_canonical(datagram, stage.limits);
    if exact_answer(stage, due, datagram) {
        lemma_frame_fields(
            due,
            stage.transaction_id,
            stage.application_version,
            Seq::<u8>::empty(),
            0,
        );
    }
    if let Ok(frame) = wire::received(datagram, stage.limits) {
        if frame.payload.len() == 0 {
            assert(frame.payload =~= Seq::<u8>::empty());
        }
    }
}

/// The child cannot say that it is prepared before the parent has closed the offer; afterwards it
/// always can, and stays in the transaction in the version of the offer.
pub proof fn law_prepare_follows_finish(incoming: IncomingView)
    requires
        incoming.valid(),
    ensures
        incoming.prepare_sent() is Ok <==> incoming.finished,
        incoming.prepare_sent() matches Ok((stage, bytes)) ==> {
            &&& stage.limits == incoming.limits
            &&& stage.transaction_id == incoming.transaction_id
            &&& incoming.application_version == Some(stage.application_version)
            &&& incoming.versions.contains(stage.application_version)
            &&& stage.control_sent(MessageKind::Prepared) == Ok::<Seq<u8>, ErrorView>(bytes)
        },
{
}

/// What a child has received after the parent sent the items in order, each of them in its own
/// datagram: where the transaction stands, and what each datagram gave.
pub open spec fn offer<D>(stage: StageView, incoming: IncomingView, items: Seq<ItemView<D>>) -> (
    IncomingView,
    Seq<Result<Option<ItemView<D>>, ErrorView>>,
)
    decreases items.len(),
{
    if items.len() == 0 {
        (incoming, seq![])
    } else {
        let (before, given) = offer(stage, incoming, items.drop_last());
        let item = items.last();
        match stage.item_sent(item.name, item.payload, item.fds.len()) {
            Ok(bytes) => {
                let (after, next) = before.item_received(delivered(bytes, item.fds));
                (after, given.push(next))
            },
            Err(error) => (before, given.push(Err(error))),
        }
    }
}

/// The child receives every item that is sent, in the order in which they are sent, and no other.
pub proof fn law_items_arrive_in_order<D>(
    stage: StageView,
    incoming: IncomingView,
    items: Seq<ItemView<D>>,
)
    requires
        stage.limits.valid(),
        incoming.limits.valid(),
        incoming.transaction_id == stage.transaction_id,
        !incoming.finished,
        incoming.observed(stage.application_version) is Ok,
        forall|i: int| 0 <= i < items.len() ==> item_fits(#[trigger] items[i], stage.limits),
        forall|i: int| 0 <= i < items.len() ==> item_fits(#[trigger] items[i], incoming.limits),
    ensures
        ({
            let (after, given) = offer(stage, incoming, items);
            &&& given.len() == items.len()
            &&& forall|i: int|
                0 <= i < items.len() ==> #[trigger] given[i] == Ok::<
                    Option<ItemView<D>>,
                    ErrorView,
                >(Some(items[i]))
            &&& after == (if items.len() == 0 {
                incoming
            } else {
                incoming.observed(stage.application_version)->Ok_0
            })
        }),
    decreases items.len(),
{
    if items.len() > 0 {
        assert forall|i: int| 0 <= i < items.drop_last().len() implies item_fits(
            #[trigger] items.drop_last()[i],
            stage.limits,
        ) && item_fits(items.drop_last()[i], incoming.limits) by {
            assert(items.drop_last()[i] == items[i]);
        }
        law_items_arrive_in_order(stage, incoming, items.drop_last());
        let (before, given) = offer(stage, incoming, items.drop_last());
        assert(item_fits(items[items.len() - 1], stage.limits));
        assert(item_fits(items[items.len() - 1], incoming.limits));
        law_item_round_trip(stage, before, items.last());
        let (after, all) = offer(stage, incoming, items);
        assert forall|i: int| 0 <= i < items.len() implies #[trigger] all[i] == Ok::<
            Option<ItemView<D>>,
            ErrorView,
        >(Some(items[i])) by {
            if i < items.len() - 1 {
                assert(given[i] == Ok::<Option<ItemView<D>>, ErrorView>(
                    Some(items.drop_last()[i]),
                ));
            }
        }
    }
}

/// A transaction in which nothing is lost and nobody aborts comes to its end: the child asks, the
/// parent begins with a version that the child supports, sends the items and finishes; the child
/// has then received exactly those items, in order, prepares, and the parent's commit lets it
/// activate them.
pub proof fn law_transaction_completes<D>(
    child: LimitsView,
    parent: LimitsView,
    versions: VersionsView,
    transaction_id: u64,
    version: u16,
    items: Seq<ItemView<D>>,
)
    requires
        child.valid(),
        parent.valid(),
        versions.valid(),
        child.max_payload_size >= 4,
        parent.max_payload_size >= 4,
        versions.contains(version),
        forall|i: int| 0 <= i < items.len() ==> item_fits(#[trigger] items[i], parent),
        forall|i: int| 0 <= i < items.len() ==> item_fits(#[trigger] items[i], child),
    ensures
        session::requested(child, versions, transaction_id) matches Ok((asking, request)) && (
        session::request_received(parent, delivered(request, Seq::<D>::empty())) matches Ok(
            taken,
        ) && (taken.begun(version) matches Ok(stage) && {
            let (receiving, given) = offer(stage, asking, items);
            &&& given == items.map_values(
                |item: ItemView<D>| Ok::<Option<ItemView<D>>, ErrorView>(Some(item)),
            )
            &&& stage.finish_sent() matches Ok((awaiting, finished)) && {
                let (closed, end) = receiving.item_received(
                    delivered(finished, Seq::<D>::empty()),
                );
                &&& end == Ok::<Option<ItemView<D>>, ErrorView>(None)
                &&& closed.prepare_sent() matches Ok((dormant, prepared)) && (
                awaiting.prepared_received(delivered(prepared, Seq::<D>::empty())) matches Ok(
                    ready,
                ) && (ready.control_sent(MessageKind::Commit) matches Ok(commit)
                    && dormant.commit_received(delivered(commit, Seq::<D>::empty())) is Ok))
            }
        })),
{
    let none = Seq::<D>::empty();
    law_request_round_trip::<D>(child, parent, versions, transaction_id);
    let (asking, request) = session::requested(child, versions, transaction_id)->Ok_0;
    let taken = session::request_received(parent, delivered(request, none))->Ok_0;
    let stage = taken.begun(version)->Ok_0;
    law_items_arrive_in_order(stage, asking, items);
    let (receiving, given) = offer(stage, asking, items);
    assert(given =~= items.map_values(
        |item: ItemView<D>| Ok::<Option<ItemView<D>>, ErrorView>(Some(item)),
    ));
    law_frame_round_trip(
        MessageKind::Finished,
        transaction_id,
        version,
        Seq::<u8>::empty(),
        none,
        child,
    );
    let (awaiting, finished) = stage.finish_sent()->Ok_0;
    let (closed, end) = receiving.item_received(delivered(finished, none));
    law_frame_round_trip(
        MessageKind::Prepared,
        transaction_id,
        version,
        Seq::<u8>::empty(),
        none,
        parent,
    );
    law_frame_round_trip(
        MessageKind::Commit,
        transaction_id,
        version,
        Seq::<u8>::empty(),
        none,
        child,
    );
    let (dormant, prepared) = closed.prepare_sent()->Ok_0;
    let ready = awaiting.prepared_received(delivered(prepared, none))->Ok_0;
    let commit = ready.control_sent(MessageKind::Commit)->Ok_0;
    law_only_the_commit_activates(dormant, delivered(commit, none));
}

/// Two requests have the same identifier only if they are the same request of the same process.
pub proof fn law_transaction_ids_are_unique(p: u32, i: u32, q: u32, j: u32)
    ensures
        session::transaction_of(p, i) == session::transaction_of(q, j) ==> p == q && i == j,
{
}

} // verus!
