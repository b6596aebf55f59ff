//! Transactions: the steps that parent and child take, and the order in which they take them.
//!
//! The child asks for state ([`HandoverPeer::request`]). The parent takes up the request
//! ([`HandoverPeer::receive_request`]), chooses a version, sends items and finishes. The child
//! rebuilds the state, keeps it dormant and says that it is prepared. The parent then commits, and
//! only that lets the child activate what it was given. Until then either side may abort.

use vstd::prelude::*;
use vstd::string::*;
use vstd::utf8::*;

use super::big_endian;
use super::error;
use super::error::{ErrorView, HandoverError};
use super::item;
use super::item::{HandoverItem, ItemView};
use super::limits;
use super::limits::{HandoverLimits, LimitsView, SupportedVersions, VersionsView};
use super::wire;
use super::wire::{Datagram, DatagramView, Frame, FrameView, MessageKind};
use crate::text;

verus! {

/// The error for a message that is not due.
pub open spec fn unexpected(kind: MessageKind, expected: Seq<char>) -> ErrorView {
    ErrorView::Protocol("received "@ + kind.label() + " message, expected "@ + expected)
}

pub fn unexpected_message(kind: MessageKind, expected: &str) -> (error: HandoverError)
    ensures
        error@ == unexpected(kind, expected@),
{
    let mut message: String = "received ".to_owned();
    message.append(kind.to_label());
    message.append(" message, expected ");
    message.append(expected);
    HandoverError::Protocol(message)
}

/// The error for a message of another transaction.
pub open spec fn foreign(transaction_id: u64, expected: u64) -> ErrorView {
    ErrorView::Protocol(
        "received transaction "@ + text::decimal(transaction_id as nat) + ", expected "@
            + text::decimal(expected as nat),
    )
}

/// Whether a message belongs to the transaction `expected`.
pub fn require_transaction<D>(frame: &Frame<D>, expected: u64) -> (r: Result<(), HandoverError>)
    ensures
        match r {
            Ok(_) => frame@.transaction_id == expected,
            Err(error) => {
                &&& frame@.transaction_id != expected
                &&& error@ == foreign(frame@.transaction_id, expected)
            },
        },
{
    if frame.transaction_id != expected {
        let mut message: String = "received transaction ".to_owned();
        text::push_decimal(&mut message, frame.transaction_id);
        message.append(", expected ");
        text::push_decimal(&mut message, expected);
        return Err(HandoverError::Protocol(message));
    }
    Ok(())
}

/// What is wrong with a message as a control message of the kind `expected`, if anything. Only
/// requests and aborts have a payload; none carries descriptors.
pub open spec fn control_fault<D>(frame: FrameView<D>, expected: MessageKind) -> Option<ErrorView> {
    if frame.kind != expected {
        Some(unexpected(frame.kind, expected.label()))
    } else if frame.fds.len() != 0 || (expected != MessageKind::Request && expected
        != MessageKind::Abort && frame.payload.len() != 0) {
        Some(
            ErrorView::Protocol(
                "control message "@ + expected.label() + " contains unexpected data"@,
            ),
        )
    } else {
        None
    }
}

/// Whether a message is a well-formed control message of the kind `expected`.
pub fn require_control_frame<D>(frame: &Frame<D>, expected: MessageKind) -> (r: Result<
    (),
    HandoverError,
>)
    ensures
        match r {
            Ok(_) => control_fault(frame@, expected) is None,
            Err(error) => control_fault(frame@, expected) == Some(error@),
        },
{
    if frame.kind != expected {
        return Err(unexpected_message(frame.kind, expected.to_label()));
    }
    if frame.fds.len() != 0 || (expected != MessageKind::Request && expected != MessageKind::Abort
        && frame.payload.len() != 0) {
        let mut message: String = "control message ".to_owned();
        message.append(expected.to_label());
        message.append(" contains unexpected data");
        return Err(HandoverError::Protocol(message));
    }
    Ok(())
}

/// What an abort message tells, or what is wrong with it.
pub open spec fn abort_outcome<D>(frame: FrameView<D>) -> Result<ErrorView, ErrorView> {
    if frame.fds.len() != 0 {
        Err(ErrorView::Protocol("abort message carried file descriptors"@))
    } else if !valid_utf8(frame.payload) {
        Err(ErrorView::Protocol("abort reason is not UTF-8"@))
    } else {
        Ok(ErrorView::Aborted(decode_utf8(frame.payload)))
    }
}

/// The error that an abort message stands for, either way.
pub open spec fn aborted<D>(frame: FrameView<D>) -> ErrorView {
    match abort_outcome(frame) {
        Ok(error) => error,
        Err(error) => error,
    }
}

pub fn abort_error<D>(frame: Frame<D>) -> (r: Result<HandoverError, HandoverError>)
    ensures
        error::is_outcome(r, abort_outcome(frame@)),
{
    if frame.fds.len() != 0 {
        return Err(HandoverError::Protocol("abort message carried file descriptors".to_owned()));
    }
    match String::from_utf8(frame.payload) {
        Ok(reason) => Ok(HandoverError::Aborted(reason)),
        Err(_) => Err(HandoverError::Protocol("abort reason is not UTF-8".to_owned())),
    }
}

fn aborted_by<D>(frame: Frame<D>) -> (error: HandoverError)
    ensures
        error@ == aborted(frame@),
{
    match abort_error(frame) {
        Ok(error) => error,
        Err(error) => error,
    }
}

/// The message that ends a transaction early, for the given reason.
pub open spec fn abort_sent(limits: LimitsView, transaction_id: u64, reason: Seq<char>) -> Result<
    Seq<u8>,
    ErrorView,
> {
    wire::sent(MessageKind::Abort, transaction_id, 0, encode_utf8(reason), 0, limits)
}

pub fn send_abort(limits: HandoverLimits, transaction_id: u64, reason: &str) -> (r: Result<
    Vec<u8>,
    HandoverError,
>)
    ensures
        error::is_outcome(r, abort_sent(limits@, transaction_id, reason@)),
{
    wire::send_frame(MessageKind::Abort, transaction_id, 0, reason.as_bytes(), 0, limits)
}

/// The transaction identifier for the `sequence`-th request of a process.
pub open spec fn transaction_of(process_id: u32, sequence: u32) -> nat {
    (process_id as nat) * 0x1_0000_0000 + sequence as nat
}

pub fn transaction_id(process_id: u32, sequence: u32) -> (id: u64)
    ensures
        id == transaction_of(process_id, sequence),
{
    (process_id as u64) * 0x1_0000_0000 + sequence as u64
}

/// One endpoint of a private handover channel between adjacent process generations.
#[derive(Debug)]
pub struct HandoverPeer {
    limits: HandoverLimits,
}

impl View for HandoverPeer {
    type V = LimitsView;

    closed spec fn view(&self) -> LimitsView {
        self.limits@
    }
}

/// The payload of a request: the lowest and the highest version that will do.
pub open spec fn request_payload(versions: VersionsView) -> Seq<u8> {
    big_endian::be_bytes(versions.min as nat, 2) + big_endian::be_bytes(versions.max as nat, 2)
}

/// What comes of asking for state.
pub open spec fn requested(limits: LimitsView, versions: VersionsView, transaction_id: u64) -> Result<
    (IncomingView, Seq<u8>),
    ErrorView,
> {
    match wire::sent(
        MessageKind::Request,
        transaction_id,
        0,
        request_payload(versions),
        0,
        limits,
    ) {
        Ok(bytes) => Ok(
            (
                IncomingView {
                    limits,
                    transaction_id,
                    versions,
                    application_version: None,
                    finished: false,
                },
                bytes,
            ),
        ),
        Err(error) => Err(error),
    }
}

/// The lowest version that a request's payload names.
pub open spec fn requested_min(payload: Seq<u8>) -> u16 {
    big_endian::be_value(payload.subrange(0, 2)) as u16
}

/// The highest version that a request's payload names.
pub open spec fn requested_max(payload: Seq<u8>) -> u16 {
    big_endian::be_value(payload.subrange(2, 4)) as u16
}

/// What comes of a datagram where a request is due.
pub open spec fn request_received<D>(limits: LimitsView, datagram: DatagramView<D>) -> Result<
    RequestView,
    ErrorView,
> {
    match wire::received(datagram, limits) {
        Err(error) => Err(error),
        Ok(frame) => match control_fault(frame, MessageKind::Request) {
            Some(error) => Err(error),
            None => if frame.payload.len() != 4 {
                Err(
                    ErrorView::Protocol(
                        "request payload has "@ + text::decimal(frame.payload.len())
                            + " bytes, expected 4"@,
                    ),
                )
            } else {
                let min = requested_min(frame.payload);
                let max = requested_max(frame.payload);
                if min > max {
                    Err(ErrorView::Protocol(limits::inverted_range(min, max)))
                } else {
                    Ok(
                        RequestView {
                            limits,
                            transaction_id: frame.transaction_id,
                            versions: VersionsView { min, max },
                        },
                    )
                }
            },
        },
    }
}

impl HandoverPeer {
    /// A peer under the widest limits.
    pub fn new() -> (r: Self)
        ensures
            r@ == LimitsView::hard_maximum(),
    {
        HandoverPeer { limits: HandoverLimits::default() }
    }

    pub fn with_limits(limits: HandoverLimits) -> (r: Self)
        ensures
            r@ == limits@,
    {
        HandoverPeer { limits }
    }

    pub fn limits(&self) -> (r: HandoverLimits)
        ensures
            r@ == self@,
    {
        self.limits
    }

    /// Request application state from the immediately previous process generation: the transaction
    /// to go on with, and the datagram to send.
    pub fn request(&self, versions: SupportedVersions, transaction_id: u64) -> (r: Result<
        (IncomingHandover, Vec<u8>),
        HandoverError,
    >)
        ensures
            error::is_outcome(r, requested(self@, versions@, transaction_id)),
    {
        let mut payload: Vec<u8> = Vec::with_capacity(4);
        big_endian::push_be(&mut payload, versions.min() as u64, 2);
        big_endian::push_be(&mut payload, versions.max() as u64, 2);
        assert(payload@ == request_payload(versions@));
        match wire::send_frame(
            MessageKind::Request,
            transaction_id,
            0,
            payload.as_slice(),
            0,
            self.limits,
        ) {
            Ok(bytes) => Ok(
                (
                    IncomingHandover {
                        limits: self.limits,
                        transaction_id,
                        versions,
                        application_version: None,
                        finished: false,
                    },
                    bytes,
                ),
            ),
            Err(error) => Err(error),
        }
    }

    /// Take up a handover request from the immediately following process generation.
    pub fn receive_request<D>(&self, datagram: Datagram<D>) -> (r: Result<
        HandoverRequest,
        HandoverError,
    >)
        ensures
            error::is_outcome(r, request_received(self@, datagram@)),
    {
        proof {
            big_endian::lemma_be_limits();
        }
        let frame: Frame<D> = match wire::recv_frame(datagram, self.limits) {
            Ok(frame) => frame,
            Err(error) => {
                return Err(error);
            },
        };
        match require_control_frame(&frame, MessageKind::Request) {
            Ok(_) => {},
            Err(error) => {
                return Err(error);
            },
        }
        if frame.payload.len() != 4 {
            let mut message: String = "request payload has ".to_owned();
            text::push_decimal(&mut message, frame.payload.len() as u64);
            message.append(" bytes, expected 4");
            return Err(HandoverError::Protocol(message));
        }
        let min: u16 = big_endian::read_be(frame.payload.as_slice(), 0, 2) as u16;
        let max: u16 = big_endian::read_be(frame.payload.as_slice(), 2, 2) as u16;
        match SupportedVersions::new(min, max) {
            Ok(versions) => Ok(
                HandoverRequest {
                    limits: self.limits,
                    transaction_id: frame.transaction_id,
                    versions,
                },
            ),
            Err(error) => Err(error),
        }
    }
}

/// A child generation's request observed by its parent.
#[derive(Debug)]
pub struct HandoverRequest {
    limits: HandoverLimits,
    transaction_id: u64,
    versions: SupportedVersions,
}

/// What a [`HandoverRequest`] holds.
pub struct RequestView {
    pub limits: LimitsView,
    pub transaction_id: u64,
    pub versions: VersionsView,
}

impl View for HandoverRequest {
    type V = RequestView;

    closed spec fn view(&self) -> RequestView {
        RequestView {
            limits: self.limits@,
            transaction_id: self.transaction_id,
            versions: self.versions@,
        }
    }
}

impl RequestView {
    /// What comes of choosing a version.
    pub open spec fn begun(self, application_version: u16) -> Result<StageView, ErrorView> {
        if self.versions.contains(application_version) {
            Ok(
                StageView {
                    limits: self.limits,
                    transaction_id: self.transaction_id,
                    application_version,
                },
            )
        } else {
            Err(
                ErrorView::UnsupportedVersion {
                    selected: application_version,
                    supported: self.versions,
                },
            )
        }
    }
}

impl HandoverRequest {
    pub fn supported_versions(&self) -> (r: SupportedVersions)
        ensures
            r@ == self@.versions,
    {
        self.versions
    }

    /// Offer state in one of the versions that the child supports.
    pub fn begin(self, application_version: u16) -> (r: Result<OutgoingHandover, HandoverError>)
        ensures
            error::is_outcome(r, self@.begun(application_version)),
    {
        if !self.versions.contains(application_version) {
            return Err(
                HandoverError::UnsupportedVersion {
                    selected: application_version,
                    supported: self.versions,
                },
            );
        }
        Ok(
            OutgoingHandover {
                limits: self.limits,
                transaction_id: self.transaction_id,
                application_version,
            },
        )
    }

    pub fn abort(self, reason: &str) -> (r: Result<Vec<u8>, HandoverError>)
        ensures
            error::is_outcome(r, abort_sent(self@.limits, self@.transaction_id, reason@)),
    {
        send_abort(self.limits, self.transaction_id, reason)
    }
}

/// What a transaction holds once its version is settled.
pub struct StageView {
    pub limits: LimitsView,
    pub transaction_id: u64,
    pub application_version: u16,
}

impl StageView {
    /// A control message of this transaction.
    pub open spec fn control_sent(self, kind: MessageKind) -> Result<Seq<u8>, ErrorView> {
        wire::sent(kind, self.transaction_id, self.application_version, seq![], 0, self.limits)
    }

    /// What comes of sending an item with `fd_count` descriptors.
    pub open spec fn item_sent(self, name: Seq<char>, payload: Seq<u8>, fd_count: nat) -> Result<
        Seq<u8>,
        ErrorView,
    > {
        match item::unsendable(encode_utf8(name).len(), payload.len(), self.limits) {
            Some(error) => Err(error),
            None => wire::sent(
                MessageKind::Item,
                self.transaction_id,
                self.application_version,
                item::item_bytes(name, payload),
                fd_count,
                self.limits,
            ),
        }
    }

    /// What comes of closing the offer.
    pub open spec fn finish_sent(self) -> Result<(StageView, Seq<u8>), ErrorView> {
        match self.control_sent(MessageKind::Finished) {
            Ok(bytes) => Ok((self, bytes)),
            Err(error) => Err(error),
        }
    }

    /// What comes of a datagram where the message `due` ends the wait, and an abort is the only
    /// other one that makes sense. The messages of both sides have to name the same version.
    pub open spec fn answered<D>(
        self,
        datagram: DatagramView<D>,
        due: MessageKind,
        expected: Seq<char>,
        theirs: Seq<char>,
        ours: Seq<char>,
    ) -> Result<StageView, ErrorView> {
        match wire::received(datagram, self.limits) {
            Err(error) => Err(error),
            Ok(frame) => if frame.transaction_id != self.transaction_id {
                Err(foreign(frame.transaction_id, self.transaction_id))
            } else if frame.kind == due {
                match control_fault(frame, due) {
                    Some(error) => Err(error),
                    None => if frame.application_version != self.application_version {
                        Err(
                            ErrorView::Protocol(
                                theirs + text::decimal(frame.application_version as nat) + ours
                                    + text::decimal(self.application_version as nat),
                            ),
                        )
                    } else {
                        Ok(self)
                    },
                }
            } else if frame.kind == MessageKind::Abort {
                Err(aborted(frame))
            } else {
                Err(unexpected(frame.kind, expected))
            },
        }
    }

    /// What comes of a datagram while the parent waits for the child.
    pub open spec fn prepared_received<D>(self, datagram: DatagramView<D>) -> Result<
        StageView,
        ErrorView,
    > {
        self.answered(
            datagram,
            MessageKind::Prepared,
            "prepared or abort"@,
            "prepared version "@,
            " differs from offered version "@,
        )
    }

    /// What comes of a datagram while the child waits for the parent.
    pub open spec fn commit_received<D>(self, datagram: DatagramView<D>) -> Result<
        StageView,
        ErrorView,
    > {
        self.answered(
            datagram,
            MessageKind::Commit,
            "commit or abort"@,
            "commit version "@,
            " differs from prepared version "@,
        )
    }
}

fn send_control(
    kind: MessageKind,
    limits: HandoverLimits,
    transaction_id: u64,
    application_version: u16,
) -> (r: Result<Vec<u8>, HandoverError>)
    ensures
        error::is_outcome(
            r,
            (StageView { limits: limits@, transaction_id, application_version }).control_sent(kind),
        ),
{
    let payload: Vec<u8> = Vec::new();
    assert(payload@ == Seq::<u8>::empty());
    wire::send_frame(kind, transaction_id, application_version, payload.as_slice(), 0, limits)
}

fn receive_answer<D>(
    datagram: Datagram<D>,
    limits: HandoverLimits,
    transaction_id: u64,
    application_version: u16,
    due: MessageKind,
    expected: &str,
    theirs: &str,
    ours: &str,
) -> (r: Result<(), HandoverError>)
    requires
        due != MessageKind::Abort,
    ensures
        ({
            let stage = StageView { limits: limits@, transaction_id, application_version };
            let outcome = stage.answered(datagram@, due, expected@, theirs@, ours@);
            match r {
                Ok(_) => outcome == Ok::<StageView, ErrorView>(stage),
                Err(error) => outcome == Err::<StageView, ErrorView>(error@),
            }
        }),
{
    let frame: Frame<D> = match wire::recv_frame(datagram, limits) {
        Ok(frame) => frame,
        Err(error) => {
            return Err(error);
        },
    };
    match require_transaction(&frame, transaction_id) {
        Ok(_) => {},
        Err(error) => {
            return Err(error);
        },
    }
    if frame.kind == due {
        match require_control_frame(&frame, due) {
            Ok(_) => {},
            Err(error) => {
                return Err(error);
            },
        }
        if frame.application_version != application_version {
            let mut message: String = theirs.to_owned();
            text::push_decimal(&mut message, frame.application_version as u64);
            message.append(ours);
            text::push_decimal(&mut message, application_version as u64);
            return Err(HandoverError::Protocol(message));
        }
        return Ok(());
    }
    if frame.kind == MessageKind::Abort {
        return Err(aborted_by(frame));
    }
    Err(unexpected_message(frame.kind, expected))
}

/// A parent-side transaction that may send one or more state/descriptor items.
#[derive(Debug)]
pub struct OutgoingHandover {
    limits: HandoverLimits,
    transaction_id: u64,
    application_version: u16,
}

impl View for OutgoingHandover {
    type V = StageView;

    closed spec fn view(&self) -> StageView {
        StageView {
            limits: self.limits@,
            transaction_id: self.transaction_id,
            application_version: self.application_version,
        }
    }
}

impl OutgoingHandover {
    pub fn application_version(&self) -> (r: u16)
        ensures
            r == self@.application_version,
    {
        self.application_version
    }

    /// The datagram that carries an item. The descriptors `fds` travel beside it.
    pub fn send_item<D>(&mut self, name: &str, payload: &[u8], fds: &[D]) -> (r: Result<
        Vec<u8>,
        HandoverError,
    >)
        ensures
            error::is_outcome(r, old(self)@.item_sent(name@, payload@, fds@.len())),
            final(self)@ == old(self)@,
    {
        let encoded: Vec<u8> = match item::encode_item(name, payload, self.limits) {
            Ok(encoded) => encoded,
            Err(error) => {
                return Err(error);
            },
        };
        wire::send_frame(
            MessageKind::Item,
            self.transaction_id,
            self.application_version,
            encoded.as_slice(),
            fds.len(),
            self.limits,
        )
    }

    /// Close the offer.
    pub fn finish(self) -> (r: Result<(AwaitingPrepared, Vec<u8>), HandoverError>)
        ensures
            error::is_outcome(r, self@.finish_sent()),
    {
        match send_control(
            MessageKind::Finished,
            self.limits,
            self.transaction_id,
            self.application_version,
        ) {
            Ok(bytes) => Ok(
                (
                    AwaitingPrepared {
                        limits: self.limits,
                        transaction_id: self.transaction_id,
                        application_version: self.application_version,
                    },
                    bytes,
                ),
            ),
            Err(error) => Err(error),
        }
    }

    pub fn abort(self, reason: &str) -> (r: Result<Vec<u8>, HandoverError>)
        ensures
            error::is_outcome(r, abort_sent(self@.limits, self@.transaction_id, reason@)),
    {
        send_abort(self.limits, self.transaction_id, reason)
    }
}

/// A completed parent offer waiting for the child to reconstruct dormant state.
#[must_use]
#[derive(Debug)]
pub struct AwaitingPrepared {
    limits: HandoverLimits,
    transaction_id: u64,
    application_version: u16,
}

impl View for AwaitingPrepared {
    type V = StageView;

    closed spec fn view(&self) -> StageView {
        StageView {
            limits: self.limits@,
            transaction_id: self.transaction_id,
            application_version: self.application_version,
        }
    }
}

impl AwaitingPrepared {
    /// Take up the child's answer.
    pub fn wait<D>(self, datagram: Datagram<D>) -> (r: Result<PreparedHandover, HandoverError>)
        ensures
            error::is_outcome(r, self@.prepared_received(datagram@)),
    {
        match receive_answer(
            datagram,
            self.limits,
            self.transaction_id,
            self.application_version,
            MessageKind::Prepared,
            "prepared or abort",
            "prepared version ",
            " differs from offered version ",
        ) {
            Ok(_) => Ok(
                PreparedHandover {
                    limits: self.limits,
                    transaction_id: self.transaction_id,
                    application_version: self.application_version,
                },
            ),
            Err(error) => Err(error),
        }
    }
}

/// A parent-side handover that the child has reconstructed but not activated.
#[must_use]
#[derive(Debug)]
pub struct PreparedHandover {
    limits: HandoverLimits,
    transaction_id: u64,
    application_version: u16,
}

impl View for PreparedHandover {
    type V = StageView;

    closed spec fn view(&self) -> StageView {
        StageView {
            limits: self.limits@,
            transaction_id: self.transaction_id,
            application_version: self.application_version,
        }
    }
}

impl PreparedHandover {
    /// Commit the handover. Once the datagram is sent, the parent must relinquish its descriptors
    /// and the child may activate its reconstructed state.
    pub fn commit(self) -> (r: Result<Vec<u8>, HandoverError>)
        ensures
            error::is_outcome(r, self@.control_sent(MessageKind::Commit)),
    {
        send_control(
            MessageKind::Commit,
            self.limits,
            self.transaction_id,
            self.application_version,
        )
    }

    pub fn abort(self, reason: &str) -> (r: Result<Vec<u8>, HandoverError>)
        ensures
            error::is_outcome(r, abort_sent(self@.limits, self@.transaction_id, reason@)),
    {
        send_abort(self.limits, self.transaction_id, reason)
    }
}

/// A child-side transaction receiving state from its parent.
#[derive(Debug)]
pub struct IncomingHandover {
    limits: HandoverLimits,
    transaction_id: u64,
    versions: SupportedVersions,
    application_version: Option<u16>,
    finished: bool,
}

/// What an [`IncomingHandover`] holds.
pub struct IncomingView {
    pub limits: LimitsView,
    pub transaction_id: u64,
    pub versions: VersionsView,
    pub application_version: Option<u16>,
    pub finished: bool,
}

impl View for IncomingHandover {
    type V = IncomingView;

    closed spec fn view(&self) -> IncomingView {
        IncomingView {
            limits: self.limits@,
            transaction_id: self.transaction_id,
            versions: self.versions@,
            application_version: self.application_version,
            finished: self.finished,
        }
    }
}

impl IncomingView {
    /// A version that was seen is one that was asked for, and an offer that is closed has one.
    pub open spec fn valid(self) -> bool {
        &&& self.application_version matches Some(version) ==> self.versions.contains(version)
        &&& self.finished ==> self.application_version is Some
    }

    /// What comes of seeing a message of the version `selected`.
    pub open spec fn observed(self, selected: u16) -> Result<IncomingView, ErrorView> {
        if !self.versions.contains(selected) {
            Err(ErrorView::UnsupportedVersion { selected, supported: self.versions })
        } else {
            match self.application_version {
                Some(previous) => if previous != selected {
                    Err(
                        ErrorView::Protocol(
                            "application version changed from "@ + text::decimal(previous as nat)
                                + " to "@ + text::decimal(selected as nat)
                                + " during transaction"@,
                        ),
                    )
                } else {
                    Ok(self)
                },
                None => Ok(IncomingView { application_version: Some(selected), ..self }),
            }
        }
    }

    /// What comes of a message of this transaction: the transaction as it goes on, and an item,
    /// the end of the offer, or an error.
    pub open spec fn advanced<D>(self, frame: FrameView<D>) -> (
        IncomingView,
        Result<Option<ItemView<D>>, ErrorView>,
    ) {
        match frame.kind {
            MessageKind::Item => match self.observed(frame.application_version) {
                Err(error) => (self, Err(error)),
                Ok(next) => match item::received_item(frame, self.limits) {
                    Err(error) => (next, Err(error)),
                    Ok(item) => (next, Ok(Some(item))),
                },
            },
            MessageKind::Finished => match control_fault(frame, MessageKind::Finished) {
                Some(error) => (self, Err(error)),
                None => match self.observed(frame.application_version) {
                    Err(error) => (self, Err(error)),
                    Ok(next) => (IncomingView { finished: true, ..next }, Ok(None)),
                },
            },
            MessageKind::Abort => (self, Err(aborted(frame))),
            _ => (self, Err(unexpected(frame.kind, "item, finished, or abort"@))),
        }
    }

    /// What comes of a datagram while the child receives.
    pub open spec fn item_received<D>(self, datagram: DatagramView<D>) -> (
        IncomingView,
        Result<Option<ItemView<D>>, ErrorView>,
    ) {
        if self.finished {
            (self, Ok(None))
        } else {
            match wire::received(datagram, self.limits) {
                Err(error) => (self, Err(error)),
                Ok(frame) => if frame.transaction_id != self.transaction_id {
                    (self, Err(foreign(frame.transaction_id, self.transaction_id)))
                } else {
                    self.advanced(frame)
                },
            }
        }
    }

    /// What comes of declaring the state rebuilt.
    pub open spec fn prepare_sent(self) -> Result<(StageView, Seq<u8>), ErrorView> {
        if !self.finished {
            Err(ErrorView::Protocol("cannot prepare before the finished message"@))
        } else {
            match self.application_version {
                None => Err(
                    ErrorView::Protocol("finished transaction has no application version"@),
                ),
                Some(application_version) => {
                    let stage = StageView {
                        limits: self.limits,
                        transaction_id: self.transaction_id,
                        application_version,
                    };
                    match stage.control_sent(MessageKind::Prepared) {
                        Ok(bytes) => Ok((stage, bytes)),
                        Err(error) => Err(error),
                    }
                },
            }
        }
    }
}

impl IncomingHandover {
    #[verifier::type_invariant]
    spec fn consistent(self) -> bool {
        self@.valid()
    }

    /// Whether another datagram has to be received: the offer is not closed yet.
    pub fn needs_message(&self) -> (r: bool)
        ensures
            r == !self@.finished,
            self@.valid(),
    {
        proof {
            use_type_invariant(self);
        }
        !self.finished
    }

    /// Take up the parent's next message: an item, or nothing once the offer is closed. From then
    /// on every datagram is left unread.
    pub fn receive_item<D>(&mut self, datagram: Datagram<D>) -> (r: Result<
        Option<HandoverItem<D>>,
        HandoverError,
    >)
        ensures
            final(self)@ == old(self)@.item_received(datagram@).0,
            match r {
                Ok(Some(item)) => old(self)@.item_received(datagram@).1 == Ok::<
                    Option<ItemView<D>>,
                    ErrorView,
                >(Some(item@)),
                Ok(None) => old(self)@.item_received(datagram@).1 == Ok::<
                    Option<ItemView<D>>,
                    ErrorView,
                >(None),
                Err(error) => old(self)@.item_received(datagram@).1 == Err::<
                    Option<ItemView<D>>,
                    ErrorView,
                >(error@),
            },
            final(self)@.valid(),
    {
        proof {
            use_type_invariant(&*self);
        }
        if self.finished {
            return Ok(None);
        }
        let frame: Frame<D> = match wire::recv_frame(datagram, self.limits) {
            Ok(frame) => frame,
            Err(error) => {
                return Err(error);
            },
        };
        match require_transaction(&frame, self.transaction_id) {
            Ok(_) => {},
            Err(error) => {
                return Err(error);
            },
        }
        match frame.kind {
            MessageKind::Item => {
                match self.observe_version(frame.application_version) {
                    Ok(_) => {},
                    Err(error) => {
                        return Err(error);
                    },
                }
                match item::decode_item(frame, self.limits) {
                    Ok(item) => Ok(Some(item)),
                    Err(error) => Err(error),
                }
            },
            MessageKind::Finished => {
                match require_control_frame(&frame, MessageKind::Finished) {
                    Ok(_) => {},
                    Err(error) => {
                        return Err(error);
                    },
                }
                match self.observe_version(frame.application_version) {
                    Ok(_) => {},
                    Err(error) => {
                        return Err(error);
                    },
                }
                self.finished = true;
                Ok(None)
            },
            MessageKind::Abort => Err(aborted_by(frame)),
            kind => Err(unexpected_message(kind, "item, finished, or abort")),
        }
    }

    /// The version of the messages seen so far, if one was seen.
    pub fn application_version(&self) -> (r: Option<u16>)
        ensures
            r == self@.application_version,
    {
        self.application_version
    }

    /// Declare the state rebuilt. It stays dormant until the parent commits.
    pub fn prepare(self) -> (r: Result<(PreparedIncoming, Vec<u8>), HandoverError>)
        ensures
            error::is_outcome(r, self@.prepare_sent()),
            self@.valid(),
    {
        proof {
            use_type_invariant(&self);
        }
        if !self.finished {
            return Err(
                HandoverError::Protocol("cannot prepare before the finished message".to_owned()),
            );
        }
        let application_version: u16 = match self.application_version {
            Some(application_version) => application_version,
            None => {
                return Err(
                    HandoverError::Protocol(
                        "finished transaction has no application version".to_owned(),
                    ),
                );
            },
        };
        match send_control(
            MessageKind::Prepared,
            self.limits,
            self.transaction_id,
            application_version,
        ) {
            Ok(bytes) => Ok(
                (
                    PreparedIncoming {
                        limits: self.limits,
                        transaction_id: self.transaction_id,
                        application_version,
                    },
                    bytes,
                ),
            ),
            Err(error) => Err(error),
        }
    }

    pub fn abort(self, reason: &str) -> (r: Result<Vec<u8>, HandoverError>)
        ensures
            error::is_outcome(r, abort_sent(self@.limits, self@.transaction_id, reason@)),
    {
        send_abort(self.limits, self.transaction_id, reason)
    }

    fn observe_version(&mut self, selected: u16) -> (r: Result<(), HandoverError>)
        ensures
            match r {
                Ok(_) => old(self)@.observed(selected) == Ok::<IncomingView, ErrorView>(
                    final(self)@,
                ),
                Err(error) => {
                    &&& old(self)@.observed(selected) == Err::<IncomingView, ErrorView>(error@)
                    &&& final(self)@ == old(self)@
                },
            },
            final(self)@.valid(),
    {
        proof {
            use_type_invariant(&*self);
        }
        if !self.versions.contains(selected) {
            return Err(
                HandoverError::UnsupportedVersion { selected, supported: self.versions },
            );
        }
        match self.application_version {
            Some(previous) => {
                if previous != selected {
                    let mut message: String = "application version changed from ".to_owned();
                    text::push_decimal(&mut message, previous as u64);
                    message.append(" to ");
                    text::push_decimal(&mut message, selected as u64);
                    message.append(" during transaction");
                    return Err(HandoverError::Protocol(message));
                }
                Ok(())
            },
            None => {
                self.application_version = Some(selected);
                Ok(())
            },
        }
    }
}

/// Child-side dormant state waiting for the parent to commit or abort.
#[must_use]
#[derive(Debug)]
pub struct PreparedIncoming {
    limits: HandoverLimits,
    transaction_id: u64,
    application_version: u16,
}

impl View for PreparedIncoming {
    type V = StageView;

    closed spec fn view(&self) -> StageView {
        StageView {
            limits: self.limits@,
            transaction_id: self.transaction_id,
            application_version: self.application_version,
        }
    }
}

impl PreparedIncoming {
    /// Take up the parent's answer. The state may be activated only if this succeeds.
    pub fn wait_for_commit<D>(self, datagram: Datagram<D>) -> (r: Result<(), HandoverError>)
        ensures
            match r {
                Ok(_) => self@.commit_received(datagram@) == Ok::<StageView, ErrorView>(self@),
                Err(error) => self@.commit_received(datagram@) == Err::<StageView, ErrorView>(
                    error@,
                ),
            },
    {
        receive_answer(
            datagram,
            self.limits,
            self.transaction_id,
            self.application_version,
            MessageKind::Commit,
            "commit or abort",
            "commit version ",
            " differs from prepared version ",
        )
    }
}

} // verus!
