//! Unsigned integers as bytes, most significant byte first.

use vstd::prelude::*;

verus! {

/// The low `width` bytes of `n`, most significant first.
pub open spec fn be_bytes(n: nat, width: nat) -> Seq<u8>
    decreases width,
{
    if width == 0 {
        seq![]
    } else {
        be_bytes(n / 256, (width - 1) as nat).push((n % 256) as u8)
    }
}

/// The number that bytes stand for, most significant first.
pub open spec fn be_value(bytes: Seq<u8>) -> nat
    decreases bytes.len(),
{
    if bytes.len() == 0 {
        0
    } else {
        be_value(bytes.drop_last()) * 256 + bytes.last() as nat
    }
}

/// How many numbers fit in `width` bytes.
pub open spec fn be_limit(width: nat) -> nat
    decreases width,
{
    if width == 0 {
        1
    } else {
        256 * be_limit((width - 1) as nat)
    }
}

pub proof fn lemma_be_bytes_len(n: nat, width: nat)
    ensures
        be_bytes(n, width).len() == width,
    decreases width,
{
    if width > 0 {
        lemma_be_bytes_len(n / 256, (width - 1) as nat);
    }
}

/// Reading back what was written gives the number that was written.
pub proof fn lemma_be_round_trip(n: nat, width: nat)
    requires
        n < be_limit(width),
    ensures
        be_value(be_bytes(n, width)) == n,
    decreases width,
{
    if width > 0 {
        let bytes = be_bytes(n, width);
        assert(n / 256 < be_limit((width - 1) as nat));
        lemma_be_round_trip(n / 256, (width - 1) as nat);
        assert(bytes.drop_last() =~= be_bytes(n / 256, (width - 1) as nat));
    }
}

/// Writing what was read gives the bytes that were read.
pub proof fn lemma_be_canonical(bytes: Seq<u8>)
    ensures
        be_bytes(be_value(bytes), bytes.len()) == bytes,
        be_value(bytes) < be_limit(bytes.len()),
    decreases bytes.len(),
{
    if bytes.len() > 0 {
        lemma_be_canonical(bytes.drop_last());
        let n = be_value(bytes);
        assert(n / 256 == be_value(bytes.drop_last()));
        assert(n % 256 == bytes.last());
        assert(be_bytes(n, bytes.len()) =~= bytes);
    }
}

pub proof fn lemma_be_limits()
    ensures
        be_limit(2) == 0x1_0000,
        be_limit(4) == 0x1_0000_0000,
        be_limit(8) == 0x1_0000_0000_0000_0000,
{
    reveal_with_fuel(be_limit, 9);
}

/// Appends the low `width` bytes of `value`, most significant first.
pub fn push_be(out: &mut Vec<u8>, value: u64, width: usize)
    ensures
        final(out)@ == old(out)@ + be_bytes(value as nat, width as nat),
    decreases width,
{
    if width > 0 {
        push_be(out, value / 256, width - 1);
        out.push((value % 256) as u8);
    }
}

/// The number that the `width` bytes from `start` on stand for, most significant first.
pub fn read_be(bytes: &[u8], start: usize, width: usize) -> (value: u64)
    requires
        width <= 8,
        start + width <= bytes@.len(),
    ensures
        value == be_value(bytes@.subrange(start as int, start + width)),
        value < be_limit(width as nat),
{
    let len: usize = bytes.len();
    let mut value: u64 = 0;
    let mut i: usize = 0;
    while i < width
        invariant
            i <= width <= 8,
            start + width <= len == bytes@.len(),
            value == be_value(bytes@.subrange(start as int, start + i)),
        decreases width - i,
    {
        proof {
            let next = bytes@.subrange(start as int, start + i + 1);
            assert(next.drop_last() =~= bytes@.subrange(start as int, start + i));
            lemma_be_canonical(bytes@.subrange(start as int, start + i));
            reveal_with_fuel(be_limit, 9);
            assert(value < 0x100_0000_0000_0000);
        }
        value = value * 256 + bytes[start + i] as u64;
        i = i + 1;
    }
    proof {
        lemma_be_canonical(bytes@.subrange(start as int, start + width));
    }
    value
}

/// What bytes stand for: none of them for zero, and a further one for 256 times as much and itself.
pub proof fn law_bytes_have_a_value(bytes: Seq<u8>, last: u8)
    ensures
        be_value(seq![]) == 0,
        be_value(bytes.push(last)) == 256 * be_value(bytes) + last,
{
    assert(bytes.push(last).drop_last() =~= bytes);
}

/// Of a number as many bytes are written as there is room for, and they stand for the number, or for
/// what is left of it modulo the numbers that fit.
pub proof fn law_numbers_are_written_in_bytes(n: nat, width: nat)
    ensures
        be_bytes(n, width).len() == width,
        be_value(be_bytes(n, width)) == n % be_limit(width),
        be_limit(width) > 0,
        be_limit(0) == 1,
        be_limit(width + 1) == 256 * be_limit(width),
    decreases width,
{
    if width > 0 {
        let rest = (width - 1) as nat;
        law_numbers_are_written_in_bytes(n / 256, rest);
        assert(be_bytes(n, width).drop_last() =~= be_bytes(n / 256, rest));
        vstd::arithmetic::div_mod::lemma_mod_breakdown(n as int, 256, be_limit(rest) as int);
    } else {
        assert(be_bytes(n, 0) =~= seq![]);
    }
}

} // verus!
