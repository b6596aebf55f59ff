//! Items: what a transaction carries.

use vstd::prelude::*;
use vstd::slice::*;
use vstd::string::*;
use vstd::utf8::*;

use super::big_endian;
use super::error;
use super::error::{ErrorView, HandoverError};
use super::limits::{HandoverLimits, LimitsView};
use super::wire::{Frame, FrameView};
use crate::text;

verus! {

/// `std::string::FromUtf8Error`, which is dropped unread.
#[verifier::external_type_specification]
#[verifier::external_body]
pub struct ExFromUtf8Error(std::string::FromUtf8Error);

/// `String::from_utf8` succeeds on well-formed UTF-8 and on nothing else, and the string then holds
/// the characters that the bytes encode.
pub assume_specification[ String::from_utf8 ](vec: Vec<u8>) -> (r: Result<
    String,
    std::string::FromUtf8Error,
>)
    ensures
        r is Ok <==> valid_utf8(vec@),
        r matches Ok(string) ==> string@ == decode_utf8(vec@),
;

/// A received application item and the descriptors attached to it.
#[derive(Debug)]
pub struct HandoverItem<D> {
    name: String,
    payload: Vec<u8>,
    fds: Vec<D>,
}

/// What a [`HandoverItem`] holds.
pub struct ItemView<D> {
    pub name: Seq<char>,
    pub payload: Seq<u8>,
    pub fds: Seq<D>,
}

impl<D> View for HandoverItem<D> {
    type V = ItemView<D>;

    closed spec fn view(&self) -> ItemView<D> {
        ItemView { name: self.name@, payload: self.payload@, fds: self.fds@ }
    }
}

impl<D> HandoverItem<D> {
    pub fn name(&self) -> (r: &str)
        ensures
            r@ == self@.name,
    {
        self.name.as_str()
    }

    pub fn payload(&self) -> (r: &[u8])
        ensures
            r@ == self@.payload,
    {
        self.payload.as_slice()
    }

    pub fn fds(&self) -> (r: &[D])
        ensures
            r@ == self@.fds,
    {
        self.fds.as_slice()
    }

    pub fn into_parts(self) -> (r: (String, Vec<u8>, Vec<D>))
        ensures
            r.0@ == self@.name,
            r.1@ == self@.payload,
            r.2@ == self@.fds,
    {
        (self.name, self.payload, self.fds)
    }
}

/// The payload of a message that carries an item: the length of its name in two bytes, the name,
/// and the item's own payload.
pub open spec fn item_bytes(name: Seq<char>, payload: Seq<u8>) -> Seq<u8> {
    big_endian::be_bytes(encode_utf8(name).len(), 2) + encode_utf8(name) + payload
}

/// The first rule that an item to be sent breaks, if it breaks one, given the lengths in bytes of
/// its name and its payload.
pub open spec fn unsendable(name_len: nat, payload_len: nat, limits: LimitsView) -> Option<
    ErrorView,
> {
    if name_len > limits.max_name_size {
        Some(
            ErrorView::Limit(
                "item name has "@ + text::decimal(name_len) + " bytes, maximum is "@
                    + text::decimal(limits.max_name_size),
            ),
        )
    } else if 2 + name_len + payload_len > usize::MAX {
        Some(ErrorView::Limit("item payload length overflowed"@))
    } else if 2 + name_len + payload_len > limits.max_payload_size {
        Some(
            ErrorView::Limit(
                "encoded item has "@ + text::decimal(2 + name_len + payload_len)
                    + " bytes, maximum is "@ + text::decimal(limits.max_payload_size),
            ),
        )
    } else {
        None
    }
}

/// The payload of a message that carries an item.
pub fn encode_item(name: &str, payload: &[u8], limits: HandoverLimits) -> (r: Result<
    Vec<u8>,
    HandoverError,
>)
    ensures
        match r {
            Ok(bytes) => {
                &&& unsendable(name.spec_bytes().len(), payload@.len(), limits@) is None
                &&& bytes@ == item_bytes(name@, payload@)
            },
            Err(error) => unsendable(name.spec_bytes().len(), payload@.len(), limits@) == Some(
                error@,
            ),
        },
{
    let name_bytes: &[u8] = name.as_bytes();
    let name_len: usize = name_bytes.len();
    if name_len > limits.max_name_size() {
        let mut message: String = "item name has ".to_owned();
        text::push_decimal(&mut message, name_len as u64);
        message.append(" bytes, maximum is ");
        text::push_decimal(&mut message, limits.max_name_size() as u64);
        return Err(HandoverError::Limit(message));
    }
    let prefix_len: usize = 2 + name_len;
    let encoded_len: usize = match prefix_len.checked_add(payload.len()) {
        Some(length) => length,
        None => {
            return Err(HandoverError::Limit("item payload length overflowed".to_owned()));
        },
    };
    if encoded_len > limits.max_payload_size() {
        let mut message: String = "encoded item has ".to_owned();
        text::push_decimal(&mut message, encoded_len as u64);
        message.append(" bytes, maximum is ");
        text::push_decimal(&mut message, limits.max_payload_size() as u64);
        return Err(HandoverError::Limit(message));
    }
    let mut encoded: Vec<u8> = Vec::with_capacity(encoded_len);
    big_endian::push_be(&mut encoded, name_len as u64, 2);
    encoded.extend_from_slice(name_bytes);
    encoded.extend_from_slice(payload);
    Ok(encoded)
}

/// The length of the name that an item's message declares.
pub open spec fn declared_name_len(payload: Seq<u8>) -> nat {
    big_endian::be_value(payload.subrange(0, 2))
}

/// The bytes of the name in an item's message.
pub open spec fn name_bytes(payload: Seq<u8>) -> Seq<u8> {
    payload.subrange(2, 2 + declared_name_len(payload) as int)
}

/// The first rule that the payload of an item's message breaks, if it breaks one.
pub open spec fn item_fault(payload: Seq<u8>, limits: LimitsView) -> Option<ErrorView> {
    if payload.len() < 2 {
        Some(ErrorView::Protocol("item payload is missing its name length"@))
    } else if declared_name_len(payload) > limits.max_name_size {
        Some(
            ErrorView::Limit(
                "received item name has "@ + text::decimal(declared_name_len(payload))
                    + " bytes, maximum is "@ + text::decimal(limits.max_name_size),
            ),
        )
    } else if 2 + declared_name_len(payload) > payload.len() {
        Some(ErrorView::Protocol("item name extends beyond its payload"@))
    } else if !valid_utf8(name_bytes(payload)) {
        Some(ErrorView::Protocol("item name is not UTF-8"@))
    } else {
        None
    }
}

/// The item that a message carries whose payload breaks no rule.
pub open spec fn decoded_item<D>(payload: Seq<u8>, fds: Seq<D>) -> ItemView<D> {
    ItemView {
        name: decode_utf8(name_bytes(payload)),
        payload: payload.subrange(2 + declared_name_len(payload) as int, payload.len() as int),
        fds,
    }
}

/// What an item's message gives.
pub open spec fn received_item<D>(frame: FrameView<D>, limits: LimitsView) -> Result<
    ItemView<D>,
    ErrorView,
> {
    match item_fault(frame.payload, limits) {
        Some(error) => Err(error),
        None => Ok(decoded_item(frame.payload, frame.fds)),
    }
}

/// The item that a message carries.
pub fn decode_item<D>(frame: Frame<D>, limits: HandoverLimits) -> (r: Result<
    HandoverItem<D>,
    HandoverError,
>)
    ensures
        error::is_outcome(r, received_item(frame@, limits@)),
{
    proof {
        big_endian::lemma_be_limits();
    }
    if frame.payload.len() < 2 {
        return Err(HandoverError::Protocol("item payload is missing its name length".to_owned()));
    }
    let name_len: usize = big_endian::read_be(frame.payload.as_slice(), 0, 2) as usize;
    if name_len > limits.max_name_size() {
        let mut message: String = "received item name has ".to_owned();
        text::push_decimal(&mut message, name_len as u64);
        message.append(" bytes, maximum is ");
        text::push_decimal(&mut message, limits.max_name_size() as u64);
        return Err(HandoverError::Limit(message));
    }
    if 2 + name_len > frame.payload.len() {
        return Err(HandoverError::Protocol("item name extends beyond its payload".to_owned()));
    }
    let name_bytes: Vec<u8> = slice_to_vec(
        slice_subrange(frame.payload.as_slice(), 2, 2 + name_len),
    );
    match String::from_utf8(name_bytes) {
        Ok(name) => {
            let payload: Vec<u8> = slice_to_vec(
                slice_subrange(frame.payload.as_slice(), 2 + name_len, frame.payload.len()),
            );
            Ok(HandoverItem { name, payload, fds: frame.fds })
        },
        Err(_) => Err(HandoverError::Protocol("item name is not UTF-8".to_owned())),
    }
}

} // verus!
