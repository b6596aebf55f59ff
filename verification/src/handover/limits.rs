//! Resource limits and application versions.

use vstd::prelude::*;
use vstd::string::*;

use super::error::HandoverError;
use crate::text;

verus! {

pub const HARD_MAX_PAYLOAD_SIZE: usize = 65536;

pub const HARD_MAX_FDS_PER_ITEM: usize = 64;

pub const HARD_MAX_NAME_SIZE: usize = 255;

/// Resource limits applied before allocating or adopting received handover data.
#[derive(Clone, Copy, Debug, Eq, PartialEq, Structural)]
pub struct HandoverLimits {
    max_payload_size: usize,
    max_fds_per_item: usize,
    max_name_size: usize,
}

/// What a [`HandoverLimits`] allows.
pub struct LimitsView {
    pub max_payload_size: nat,
    pub max_fds_per_item: nat,
    pub max_name_size: nat,
}

impl LimitsView {
    /// No limit exceeds its hard maximum.
    pub open spec fn valid(self) -> bool {
        &&& self.max_payload_size <= HARD_MAX_PAYLOAD_SIZE
        &&& self.max_fds_per_item <= HARD_MAX_FDS_PER_ITEM
        &&& self.max_name_size <= HARD_MAX_NAME_SIZE
    }

    /// The widest limits there are.
    pub open spec fn hard_maximum() -> LimitsView {
        LimitsView {
            max_payload_size: HARD_MAX_PAYLOAD_SIZE as nat,
            max_fds_per_item: HARD_MAX_FDS_PER_ITEM as nat,
            max_name_size: HARD_MAX_NAME_SIZE as nat,
        }
    }
}

impl View for HandoverLimits {
    type V = LimitsView;

    closed spec fn view(&self) -> LimitsView {
        LimitsView {
            max_payload_size: self.max_payload_size as nat,
            max_fds_per_item: self.max_fds_per_item as nat,
            max_name_size: self.max_name_size as nat,
        }
    }
}

/// The first limit, if any, that is above its hard maximum, as a message.
pub open spec fn excessive_limit(payload: nat, fds: nat, name: nat) -> Option<Seq<char>> {
    if payload > HARD_MAX_PAYLOAD_SIZE {
        Some("payload limit exceeds hard maximum of 65536 bytes"@)
    } else if fds > HARD_MAX_FDS_PER_ITEM {
        Some("file descriptor limit exceeds hard maximum of 64"@)
    } else if name > HARD_MAX_NAME_SIZE {
        Some("name limit exceeds hard maximum of 255 bytes"@)
    } else {
        None
    }
}

impl HandoverLimits {
    #[verifier::type_invariant]
    spec fn within_hard_maximum(self) -> bool {
        self@.valid()
    }

    /// Limits of the given sizes, unless one of them is above its hard maximum.
    pub fn new(
        max_payload_size: usize,
        max_fds_per_item: usize,
        max_name_size: usize,
    ) -> (r: Result<Self, HandoverError>)
        ensures
            match excessive_limit(
                max_payload_size as nat,
                max_fds_per_item as nat,
                max_name_size as nat,
            ) {
                Some(message) => r matches Err(HandoverError::Limit(m)) && m@ == message,
                None => r matches Ok(limits) && limits@ == (LimitsView {
                    max_payload_size: max_payload_size as nat,
                    max_fds_per_item: max_fds_per_item as nat,
                    max_name_size: max_name_size as nat,
                }) && limits@.valid(),
            },
    {
        if max_payload_size > HARD_MAX_PAYLOAD_SIZE {
            return Err(
                HandoverError::Limit("payload limit exceeds hard maximum of 65536 bytes".to_owned()),
            );
        }
        if max_fds_per_item > HARD_MAX_FDS_PER_ITEM {
            return Err(
                HandoverError::Limit("file descriptor limit exceeds hard maximum of 64".to_owned()),
            );
        }
        if max_name_size > HARD_MAX_NAME_SIZE {
            return Err(
                HandoverError::Limit("name limit exceeds hard maximum of 255 bytes".to_owned()),
            );
        }
        Ok(HandoverLimits { max_payload_size, max_fds_per_item, max_name_size })
    }

    pub fn max_payload_size(&self) -> (r: usize)
        ensures
            r == self@.max_payload_size,
            r <= HARD_MAX_PAYLOAD_SIZE,
    {
        proof {
            use_type_invariant(self);
        }
        self.max_payload_size
    }

    pub fn max_fds_per_item(&self) -> (r: usize)
        ensures
            r == self@.max_fds_per_item,
            r <= HARD_MAX_FDS_PER_ITEM,
    {
        proof {
            use_type_invariant(self);
        }
        self.max_fds_per_item
    }

    pub fn max_name_size(&self) -> (r: usize)
        ensures
            r == self@.max_name_size,
            r <= HARD_MAX_NAME_SIZE,
    {
        proof {
            use_type_invariant(self);
        }
        self.max_name_size
    }
}

impl Default for HandoverLimits {
    /// Every limit at its hard maximum.
    fn default() -> (r: Self)
        ensures
            r@ == LimitsView::hard_maximum(),
    {
        HandoverLimits {
            max_payload_size: HARD_MAX_PAYLOAD_SIZE,
            max_fds_per_item: HARD_MAX_FDS_PER_ITEM,
            max_name_size: HARD_MAX_NAME_SIZE,
        }
    }
}

/// Inclusive range of application handover protocol versions.
#[derive(Clone, Copy, Debug, Eq, PartialEq, Structural)]
pub struct SupportedVersions {
    min: u16,
    max: u16,
}

/// The two ends of a [`SupportedVersions`].
pub struct VersionsView {
    pub min: u16,
    pub max: u16,
}

impl VersionsView {
    pub open spec fn valid(self) -> bool {
        self.min <= self.max
    }

    pub open spec fn contains(self, version: u16) -> bool {
        self.min <= version <= self.max
    }
}

impl View for SupportedVersions {
    type V = VersionsView;

    closed spec fn view(&self) -> VersionsView {
        VersionsView { min: self.min, max: self.max }
    }
}

/// What is said of a range whose ends are in the wrong order.
pub open spec fn inverted_range(min: u16, max: u16) -> Seq<char> {
    "minimum application version "@ + text::decimal(min as nat) + " exceeds maximum "@
        + text::decimal(max as nat)
}

impl SupportedVersions {
    #[verifier::type_invariant]
    spec fn ordered(self) -> bool {
        self@.valid()
    }

    /// The versions from `min` to `max`, both included.
    pub fn new(min: u16, max: u16) -> (r: Result<Self, HandoverError>)
        ensures
            if min <= max {
                r matches Ok(versions) && versions@ == (VersionsView { min, max })
            } else {
                r matches Err(HandoverError::Protocol(m)) && m@ == inverted_range(min, max)
            },
    {
        if min > max {
            let mut message: String = "minimum application version ".to_owned();
            text::push_decimal(&mut message, min as u64);
            message.append(" exceeds maximum ");
            text::push_decimal(&mut message, max as u64);
            return Err(HandoverError::Protocol(message));
        }
        Ok(SupportedVersions { min, max })
    }

    /// One version only.
    pub fn exact(version: u16) -> (r: Self)
        ensures
            r@ == (VersionsView { min: version, max: version }),
    {
        SupportedVersions { min: version, max: version }
    }

    pub fn min(&self) -> (r: u16)
        ensures
            r == self@.min,
            r <= self@.max,
    {
        proof {
            use_type_invariant(self);
        }
        self.min
    }

    pub fn max(&self) -> (r: u16)
        ensures
            r == self@.max,
            self@.min <= r,
    {
        proof {
            use_type_invariant(self);
        }
        self.max
    }

    pub fn contains(&self, version: u16) -> (r: bool)
        ensures
            r == self@.contains(version),
    {
        self.min <= version && version <= self.max
    }
}

} // verus!
