//! The flags of file descriptors: what to write back after what was read.

use vstd::prelude::*;
use vstd::string::*;

verus! {

/// One flag and no other.
pub open spec fn is_single(flag: i32) -> bool {
    flag > 0 && flag & ((flag - 1) as i32) == 0
}

/// The flags, if none of them is outside `known`.
pub open spec fn recognized(flags: i32, known: i32) -> Option<i32> {
    if flags & !known == 0 {
        Some(flags)
    } else {
        None
    }
}

/// The flags with `flag` set or cleared, and all others as they were.
pub open spec fn with_flag(flags: i32, flag: i32, set: bool) -> i32 {
    if set {
        flags | flag
    } else {
        flags & !flag
    }
}

/// The flags with `flag` set or cleared, provided that they were recognized.
pub fn change_flag(recognized_flags: Option<i32>, flag: i32, set: bool) -> (r: Option<i32>)
    ensures
        r == match recognized_flags {
            Some(flags) => Some(with_flag(flags, flag, set)),
            None => None,
        },
{
    match recognized_flags {
        Some(flags) => Some(
            if set {
                flags | flag
            } else {
                flags & !flag
            },
        ),
        None => None,
    }
}

/// `FdFlag::from_bits` of `nix`, and beside its result the bit of `FdFlag::FD_CLOEXEC`, the only
/// descriptor flag that it knows. Which bit that is depends on the system; it is one bit on all of
/// them.
#[verifier::external_body]
pub fn fd_flag_from_bits(bits: i32) -> (r: (i32, Option<i32>))
    ensures
        is_single(r.0),
        r.1 == recognized(bits, r.0),
{
    let cloexec = nix::fcntl::FdFlag::FD_CLOEXEC.bits();
    match nix::fcntl::FdFlag::from_bits(bits) {
        Some(flags) => (cloexec, Some(flags.bits())),
        None => (cloexec, None),
    }
}

/// `OFlag::from_bits` of `nix`, and beside its result the bits of all flags that it knows and the
/// bit of `OFlag::O_NONBLOCK`, which is one of them. Which bits those are depends on the system.
#[verifier::external_body]
pub fn o_flag_from_bits(bits: i32) -> (r: (i32, i32, Option<i32>))
    ensures
        is_single(r.1),
        recognized(r.1, r.0) is Some,
        r.2 == recognized(bits, r.0),
{
    let known = nix::fcntl::OFlag::all().bits();
    let nonblock = nix::fcntl::OFlag::O_NONBLOCK.bits();
    match nix::fcntl::OFlag::from_bits(bits) {
        Some(flags) => (known, nonblock, Some(flags.bits())),
        None => (known, nonblock, None),
    }
}

/// The descriptor flags to write so that a descriptor is closed on exec, given those that were
/// read, or nothing if there are unknown ones among them.
pub fn set_cloexec(flags: i32) -> (r: Option<i32>)
    ensures
        exists|read: (i32, Option<i32>)| #[trigger]
            call_ensures(fd_flag_from_bits, (flags,), read) && r == match read.1 {
                Some(known) => Some(with_flag(known, read.0, true)),
                None => None,
            },
{
    let (cloexec, known) = fd_flag_from_bits(flags);
    change_flag(known, cloexec, true)
}

/// The descriptor flags to write so that a descriptor stays open on exec, given those that were
/// read, or nothing if there are unknown ones among them.
pub fn unset_cloexec(flags: i32) -> (r: Option<i32>)
    ensures
        exists|read: (i32, Option<i32>)| #[trigger]
            call_ensures(fd_flag_from_bits, (flags,), read) && r == match read.1 {
                Some(known) => Some(with_flag(known, read.0, false)),
                None => None,
            },
{
    let (cloexec, known) = fd_flag_from_bits(flags);
    change_flag(known, cloexec, false)
}

/// The status flags to write so that a socket blocks or does not, given those that were read.
pub fn set_nonblocking(flags: i32, nonblocking: bool) -> (r: Result<i32, String>)
    ensures
        exists|read: (i32, i32, Option<i32>)| #[trigger]
            call_ensures(o_flag_from_bits, (flags,), read) && match read.2 {
                Some(known) => r == Ok::<i32, String>(with_flag(known, read.1, nonblocking)),
                None => r matches Err(message) && message@
                    == "fcntl F_GETFL returned invalid flags"@,
            },
{
    let (_, nonblock, known) = o_flag_from_bits(flags);
    match change_flag(known, nonblock, nonblocking) {
        Some(written) => Ok(written),
        None => Err("fcntl F_GETFL returned invalid flags".to_owned()),
    }
}

/// Setting a flag sets it and clearing it clears it; neither touches another flag, and doing it
/// twice does no more.
pub proof fn law_one_flag_changes(flags: i32, flag: i32)
    ensures
        with_flag(flags, flag, true) & flag == flag,
        with_flag(flags, flag, false) & flag == 0,
        with_flag(flags, flag, true) & !flag == flags & !flag,
        with_flag(flags, flag, false) & !flag == flags & !flag,
        with_flag(with_flag(flags, flag, true), flag, true) == with_flag(flags, flag, true),
        with_flag(with_flag(flags, flag, false), flag, false) == with_flag(flags, flag, false),
        with_flag(with_flag(flags, flag, true), flag, false) == with_flag(flags, flag, false),
        with_flag(with_flag(flags, flag, false), flag, true) == with_flag(flags, flag, true),
{
    assert((flags | flag) & flag == flag) by (bit_vector);
    assert((flags & !flag) & flag == 0) by (bit_vector);
    assert((flags | flag) & !flag == flags & !flag) by (bit_vector);
    assert((flags & !flag) & !flag == flags & !flag) by (bit_vector);
    assert((flags | flag) | flag == flags | flag) by (bit_vector);
    assert((flags & !flag) | flag == flags | flag) by (bit_vector);
}

/// One flag is one bit, and flags are recognized, unchanged, if and only if they add nothing to those
/// that are known.
pub proof fn law_flags_are_bits(flag: i32, flags: i32, known: i32)
    ensures
        is_single(flag) ==> flag == 0x1 || flag == 0x2 || flag == 0x4 || flag == 0x8 || flag == 0x10
            || flag == 0x20 || flag == 0x40 || flag == 0x80 || flag == 0x100 || flag == 0x200
            || flag == 0x400 || flag == 0x800 || flag == 0x1000 || flag == 0x2000 || flag == 0x4000
            || flag == 0x8000 || flag == 0x1_0000 || flag == 0x2_0000 || flag == 0x4_0000 || flag
            == 0x8_0000 || flag == 0x10_0000 || flag == 0x20_0000 || flag == 0x40_0000 || flag
            == 0x80_0000 || flag == 0x100_0000 || flag == 0x200_0000 || flag == 0x400_0000 || flag
            == 0x800_0000 || flag == 0x1000_0000 || flag == 0x2000_0000 || flag == 0x4000_0000,
        recognized(flags, known) is Some <==> flags | known == known,
        recognized(flags, known) matches Some(same) ==> same == flags,
{
    assert(flags & !known == 0 <==> flags | known == known) by (bit_vector);
    assert(flag > 0 && flag & ((flag - 1) as i32) == 0 ==> flag == 0x1 || flag == 0x2 || flag == 0x4
        || flag == 0x8 || flag == 0x10 || flag == 0x20 || flag == 0x40 || flag == 0x80 || flag
        == 0x100 || flag == 0x200 || flag == 0x400 || flag == 0x800 || flag == 0x1000 || flag
        == 0x2000 || flag == 0x4000 || flag == 0x8000 || flag == 0x1_0000 || flag == 0x2_0000
        || flag == 0x4_0000 || flag == 0x8_0000 || flag == 0x10_0000 || flag == 0x20_0000 || flag
        == 0x40_0000 || flag == 0x80_0000 || flag == 0x100_0000 || flag == 0x200_0000 || flag
        == 0x400_0000 || flag == 0x800_0000 || flag == 0x1000_0000 || flag == 0x2000_0000 || flag
        == 0x4000_0000) by (bit_vector);
}

/// Flags that were recognized are given back with the one flag set or cleared and all others as they
/// were; flags that were not recognized give nothing.
pub proof fn law_recognized_flags_are_changed(
    read: Option<i32>,
    flag: i32,
    set: bool,
    r: Option<i32>,
)
    requires
        call_ensures(change_flag, (read, flag, set), r),
    ensures
        r is Some <==> read is Some,
        read matches Some(flags) ==> (r matches Some(written) && {
            &&& written & !flag == flags & !flag
            &&& written & flag == (if set {
                flag
            } else {
                0
            })
        }),
{
    if let Some(flags) = read {
        law_one_flag_changes(flags, flag);
    }
}

/// Of flags that the system knows, the ones to write have the flag in question set or cleared, as was
/// asked, and all others as they were; of others there are none. No flags at all are always known.
pub proof fn law_descriptors_are_marked(
    flags: i32,
    set: Option<i32>,
    cleared: Option<i32>,
    nonblocking: bool,
    status: Result<i32, String>,
)
    requires
        call_ensures(set_cloexec, (flags,), set),
        call_ensures(unset_cloexec, (flags,), cleared),
        call_ensures(set_nonblocking, (flags, nonblocking), status),
    ensures
        exists|read: (i32, Option<i32>)| #[trigger]
            call_ensures(fd_flag_from_bits, (flags,), read) && (set is Some <==> read.1 is Some)
                && (set matches Some(written) ==> written & read.0 == read.0 && written & !read.0
                == flags & !read.0),
        exists|read: (i32, Option<i32>)| #[trigger]
            call_ensures(fd_flag_from_bits, (flags,), read) && (cleared is Some <==> read.1 is Some)
                && (cleared matches Some(written) ==> written & read.0 == 0 && written & !read.0
                == flags & !read.0),
        exists|read: (i32, i32, Option<i32>)| #[trigger]
            call_ensures(o_flag_from_bits, (flags,), read) && (status is Ok <==> read.2 is Some)
                && (status matches Ok(written) ==> written & !read.1 == flags & !read.1 && written
                & read.1 == (if nonblocking {
                read.1
            } else {
                0
            })),
        status matches Err(message) ==> message@ == "fcntl F_GETFL returned invalid flags"@,
        flags == 0 ==> set is Some && cleared is Some && status is Ok,
{
    let a = choose|read: (i32, Option<i32>)| #[trigger]
        call_ensures(fd_flag_from_bits, (flags,), read) && set == match read.1 {
            Some(known) => Some(with_flag(known, read.0, true)),
            None => None,
        };
    let b = choose|read: (i32, Option<i32>)| #[trigger]
        call_ensures(fd_flag_from_bits, (flags,), read) && cleared == match read.1 {
            Some(known) => Some(with_flag(known, read.0, false)),
            None => None,
        };
    let c = choose|read: (i32, i32, Option<i32>)| #[trigger]
        call_ensures(o_flag_from_bits, (flags,), read) && match read.2 {
            Some(known) => status == Ok::<i32, String>(with_flag(known, read.1, nonblocking)),
            None => status matches Err(message) && message@
                == "fcntl F_GETFL returned invalid flags"@,
        };
    law_one_flag_changes(flags, a.0);
    law_one_flag_changes(flags, b.0);
    law_one_flag_changes(flags, c.1);
    law_flags_are_bits(a.0, flags, a.0);
    law_flags_are_bits(b.0, flags, b.0);
    law_flags_are_bits(c.1, flags, c.0);
    if flags == 0 {
        let known = c.0;
        let one = a.0;
        let other = b.0;
        assert(0i32 & !known == 0) by (bit_vector);
        assert(0i32 & !one == 0) by (bit_vector);
        assert(0i32 & !other == 0) by (bit_vector);
    }
}

} // verus!
