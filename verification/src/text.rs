//! Numbers and lists as text.

use vstd::prelude::*;
use vstd::string::*;

verus! {

/// The character of a decimal digit.
pub open spec fn digit_char(d: nat) -> char
    recommends
        d < 10,
{
    (48 + d) as char
}

/// A natural number in decimal, without leading zeros.
pub open spec fn decimal(n: nat) -> Seq<char>
    decreases n,
{
    if n < 10 {
        seq![digit_char(n)]
    } else {
        decimal(n / 10).push(digit_char(n % 10))
    }
}

/// An integer in decimal, with a minus sign where it is negative.
pub open spec fn signed_decimal(n: int) -> Seq<char> {
    if n < 0 {
        seq!['-'] + decimal((-n) as nat)
    } else {
        decimal(n as nat)
    }
}

fn digit_str(d: u64) -> (s: &'static str)
    requires
        d < 10,
    ensures
        s@ == seq![digit_char(d as nat)],
{
    proof {
        reveal_strlit("0");
        reveal_strlit("1");
        reveal_strlit("2");
        reveal_strlit("3");
        reveal_strlit("4");
        reveal_strlit("5");
        reveal_strlit("6");
        reveal_strlit("7");
        reveal_strlit("8");
        reveal_strlit("9");
    }
    match d {
        0 => "0",
        1 => "1",
        2 => "2",
        3 => "3",
        4 => "4",
        5 => "5",
        6 => "6",
        7 => "7",
        8 => "8",
        _ => "9",
    }
}

/// Appends a number in decimal.
pub fn push_decimal(out: &mut String, n: u64)
    ensures
        final(out)@ == old(out)@ + decimal(n as nat),
    decreases n,
{
    if n >= 10 {
        push_decimal(out, n / 10);
    }
    out.append(digit_str(n % 10));
}

/// Appends a signed number in decimal.
pub fn push_signed(out: &mut String, n: i32)
    ensures
        final(out)@ == old(out)@ + signed_decimal(n as int),
{
    if n < 0 {
        proof {
            reveal_strlit("-");
        }
        out.append("-");
        push_decimal(out, (-(n as i64)) as u64);
    } else {
        push_decimal(out, n as u64);
    }
}

/// The characters of a string.
pub fn chars_of(s: &str) -> (chars: Vec<char>)
    ensures
        chars@ == s@,
{
    let mut chars: Vec<char> = Vec::new();
    for c in it: s.chars()
        invariant
            it.seq() == s@,
            chars@ == s@.take(it.index()),
    {
        chars.push(c);
    }
    assert(s@.take(s@.len() as int) == s@);
    chars
}

pub open spec fn is_digit(c: char) -> bool {
    48 <= c as u32 <= 57
}

/// The number that digits stand for.
pub open spec fn digits_value(digits: Seq<char>) -> nat
    decreases digits.len(),
{
    if digits.len() == 0 {
        0
    } else {
        digits_value(digits.drop_last()) * 10 + (digits.last() as u32 - 48) as nat
    }
}

/// The digits that text starts with.
pub open spec fn leading_digits(s: Seq<char>) -> Seq<char>
    decreases s.len(),
{
    if s.len() == 0 || !is_digit(s[0]) {
        seq![]
    } else {
        seq![s[0]] + leading_digits(s.drop_first())
    }
}

/// Why text is not a number.
#[derive(Clone, Copy, Debug, Eq, PartialEq, Structural)]
pub enum NumberFault {
    Empty,
    InvalidDigit,
    PosOverflow,
    NegOverflow,
}

/// A number without its sign.
pub open spec fn without_sign(s: Seq<char>) -> Seq<char> {
    if s.len() > 0 && (s[0] == '+' || s[0] == '-') {
        s.drop_first()
    } else {
        s
    }
}

/// The number that text stands for: an optional sign and at least one digit, nothing else, and
/// within the range of `i32`. Digits that leave the range are found before anything that follows
/// them.
pub open spec fn parsed_i32(s: Seq<char>) -> Result<int, NumberFault> {
    let digits = without_sign(s);
    let lead = leading_digits(digits);
    if s.len() == 0 {
        Err(NumberFault::Empty)
    } else if s[0] == '-' && digits_value(lead) > 0x8000_0000 {
        Err(NumberFault::NegOverflow)
    } else if s[0] != '-' && digits_value(lead) > 0x7fff_ffff {
        Err(NumberFault::PosOverflow)
    } else if digits.len() == 0 || lead != digits {
        Err(NumberFault::InvalidDigit)
    } else if s[0] == '-' {
        Ok(-digits_value(lead))
    } else {
        Ok(digits_value(lead) as int)
    }
}

/// Leading digits are the longest prefix that holds nothing but digits.
proof fn lemma_leading_digits(s: Seq<char>)
    ensures
        leading_digits(s).len() <= s.len(),
        leading_digits(s) == s.take(leading_digits(s).len() as int),
        forall|i: int| 0 <= i < leading_digits(s).len() ==> is_digit(#[trigger] s[i]),
        leading_digits(s).len() < s.len() ==> !is_digit(s[leading_digits(s).len() as int]),
    decreases s.len(),
{
    if s.len() > 0 && is_digit(s[0]) {
        let rest = s.drop_first();
        lemma_leading_digits(rest);
        let n = leading_digits(rest).len() as int;
        assert(leading_digits(s) =~= s.take(n + 1));
        assert forall|i: int| 0 <= i < n + 1 implies is_digit(#[trigger] s[i]) by {
            if i > 0 {
                assert(rest[i - 1] == s[i]);
            }
        }
        if n < rest.len() {
            assert(rest[n] == s[n + 1]);
        }
    } else {
        assert(leading_digits(s) =~= s.take(0));
    }
}

proof fn lemma_value_grows(s: Seq<char>, k: int, n: int)
    requires
        0 <= k <= n <= s.len(),
    ensures
        digits_value(s.take(k)) <= digits_value(s.take(n)),
    decreases n - k,
{
    if k < n {
        lemma_value_grows(s, k, n - 1);
        assert(s.take(n).drop_last() =~= s.take(n - 1));
    }
}

/// The number that text stands for.
pub fn parse_i32(s: &str) -> (r: Result<i32, NumberFault>)
    ensures
        match r {
            Ok(n) => parsed_i32(s@) == Ok::<int, NumberFault>(n as int),
            Err(fault) => parsed_i32(s@) == Err::<int, NumberFault>(fault),
        },
{
    let chars: Vec<char> = chars_of(s);
    if chars.len() == 0 {
        return Err(NumberFault::Empty);
    }
    let negative: bool = chars[0] == '-';
    let start: usize = if chars[0] == '+' || chars[0] == '-' {
        1
    } else {
        0
    };
    let ghost digits = without_sign(s@);
    let largest: u64 = if negative {
        0x8000_0000
    } else {
        0x7fff_ffff
    };
    let mut value: u64 = 0;
    let mut i: usize = start;
    proof {
        lemma_leading_digits(digits);
        assert(digits.take(0) =~= Seq::<char>::empty());
    }
    while i < chars.len()
        invariant
            chars@ == s@,
            start <= i <= chars.len(),
            start <= 1,
            digits == s@.skip(start as int),
            digits.len() == s@.len() - start,
            forall|k: int| 0 <= k < digits.len() ==> #[trigger] digits[k] == s@[k + start],
            value == digits_value(digits.take(i - start)),
            i - start <= leading_digits(digits).len() <= digits.len(),
            leading_digits(digits) == digits.take(leading_digits(digits).len() as int),
            leading_digits(digits).len() < digits.len() ==> !is_digit(
                digits[leading_digits(digits).len() as int],
            ),
            s@.len() > 0,
            digits == without_sign(s@),
            negative == (s@[0] == '-'),
            largest == (if negative {
                0x8000_0000u64
            } else {
                0x7fff_ffffu64
            }),
            value <= largest,
        decreases chars.len() - i,
    {
        let c: char = chars[i];
        assert(digits[i - start] == c);
        let code: u32 = c as u32;
        if code < 48 || code > 57 {
            proof {
                lemma_leading_digits(digits);
                lemma_value_grows(digits, i - start, leading_digits(digits).len() as int);
                assert(leading_digits(digits).len() == i - start);
            }
            return Err(NumberFault::InvalidDigit);
        }
        proof {
            assert(is_digit(digits[i - start]));
            assert(digits.take(i - start + 1).drop_last() =~= digits.take(i - start));
            lemma_value_grows(digits, i - start + 1, leading_digits(digits).len() as int);
        }
        value = value * 10 + (code as u64 - 48);
        if value > largest {
            return Err(
                if negative {
                    NumberFault::NegOverflow
                } else {
                    NumberFault::PosOverflow
                },
            );
        }
        i = i + 1;
    }
    proof {
        assert(leading_digits(digits).len() == digits.len());
        assert(digits.take(digits.len() as int) =~= digits);
    }
    if i == start {
        return Err(NumberFault::InvalidDigit);
    }
    if negative {
        Ok((-(value as i64)) as i32)
    } else {
        Ok(value as i32)
    }
}

proof fn lemma_decimal(n: nat)
    ensures
        decimal(n).len() > 0,
        forall|i: int| 0 <= i < decimal(n).len() ==> is_digit(#[trigger] decimal(n)[i]),
        digits_value(decimal(n)) == n,
    decreases n,
{
    if n < 10 {
        assert(decimal(n).drop_last() =~= Seq::<char>::empty());
        assert(digits_value(Seq::<char>::empty()) == 0);
    } else {
        lemma_decimal(n / 10);
        assert(decimal(n).drop_last() =~= decimal(n / 10));
    }
}

/// Reading back a number that was written gives the same number.
pub proof fn law_number_round_trip(n: i32)
    ensures
        parsed_i32(signed_decimal(n as int)) == Ok::<int, NumberFault>(n as int),
{
    let magnitude: nat = if n < 0 {
        (-n) as nat
    } else {
        n as nat
    };
    let digits = decimal(magnitude);
    lemma_decimal(magnitude);
    lemma_leading_digits(digits);
    let lead = leading_digits(digits);
    assert(lead.len() == digits.len());
    assert(lead =~= digits);
    let s = signed_decimal(n as int);
    if n < 0 {
        assert(s.drop_first() =~= digits);
    } else {
        assert(is_digit(s[0]));
    }
}

/// The pieces of text between separators. There is one more than there are separators, and a piece
/// may be empty.
pub open spec fn split_on(s: Seq<char>, separator: char) -> Seq<Seq<char>>
    decreases s.len(),
{
    if s.len() == 0 {
        seq![seq![]]
    } else {
        let before = split_on(s.drop_last(), separator);
        if s.last() == separator {
            before.push(seq![])
        } else {
            before.drop_last().push(before.last().push(s.last()))
        }
    }
}

/// Pieces of text with a separator between each two.
pub open spec fn join_with(pieces: Seq<Seq<char>>, separator: Seq<char>) -> Seq<char>
    decreases pieces.len(),
{
    if pieces.len() == 0 {
        seq![]
    } else if pieces.len() == 1 {
        pieces[0]
    } else {
        join_with(pieces.drop_last(), separator) + separator + pieces.last()
    }
}

/// Splitting takes text apart at its separators and loses nothing: no piece holds a separator, and
/// joining the pieces gives the text back.
pub proof fn law_split_is_exact(s: Seq<char>, separator: char)
    ensures
        split_on(s, separator).len() > 0,
        forall|i: int|
            0 <= i < split_on(s, separator).len() ==> !(#[trigger] split_on(
                s,
                separator,
            )[i]).contains(separator),
        join_with(split_on(s, separator), seq![separator]) == s,
    decreases s.len(),
{
    let pieces = split_on(s, separator);
    if s.len() > 0 {
        let rest = s.drop_last();
        let before = split_on(rest, separator);
        law_split_is_exact(rest, separator);
        assert(s =~= rest.push(s.last()));
        if s.last() == separator {
            assert(pieces.drop_last() =~= before);
            assert(join_with(pieces, seq![separator]) =~= s);
        } else {
            assert(pieces.drop_last() =~= before.drop_last());
            assert(join_with(pieces, seq![separator]) =~= s);
            let last = before.last();
            assert(!last.contains(separator));
            assert forall|k: int| 0 <= k < pieces.last().len() implies #[trigger] pieces.last()[k]
                != separator by {
                if k < last.len() {
                    assert(last[k] == pieces.last()[k]);
                }
            }
        }
    } else {
        assert(pieces[0] =~= Seq::<char>::empty());
    }
}

/// What strings hold.
pub open spec fn contents(strings: Seq<String>) -> Seq<Seq<char>> {
    strings.map_values(|s: String| s@)
}

/// The pieces of a string between separators.
pub fn split(s: &str, separator: char) -> (pieces: Vec<String>)
    ensures
        contents(pieces@) == split_on(s@, separator),
{
    let chars: Vec<char> = chars_of(s);
    let mut pieces: Vec<String> = Vec::new();
    let mut start: usize = 0;
    let mut i: usize = 0;
    assert(contents(pieces@) =~= Seq::<Seq<char>>::empty());
    assert(s@.take(0) =~= Seq::<char>::empty());
    assert(split_on(s@.take(0), separator) =~= contents(pieces@).push(s@.subrange(0, 0)));
    while i < chars.len()
        invariant
            chars@ == s@,
            start <= i <= chars.len(),
            split_on(s@.take(i as int), separator) == contents(pieces@).push(
                s@.subrange(start as int, i as int),
            ),
        decreases chars.len() - i,
    {
        let ghost before = contents(pieces@);
        let ghost piece = s@.subrange(start as int, i as int);
        assert(s@.take(i + 1).drop_last() =~= s@.take(i as int));
        if chars[i] == separator {
            pieces.push(s.substring_char(start, i).to_owned());
            start = i + 1;
            assert(contents(pieces@) =~= before.push(piece));
            assert(s@.subrange(start as int, i + 1) =~= Seq::<char>::empty());
        } else {
            assert(s@.subrange(start as int, i + 1) =~= piece.push(s@[i as int]));
            assert(before.push(piece).drop_last() =~= before);
        }
        i = i + 1;
    }
    let ghost before = contents(pieces@);
    pieces.push(s.substring_char(start, i).to_owned());
    assert(s@.take(i as int) =~= s@);
    assert(contents(pieces@) =~= before.push(s@.subrange(start as int, i as int)));
    pieces
}

/// A number is written digit by digit: what has one digit is that digit, and a further digit stands
/// behind those of the number before it. What is negative has a minus sign in front, and nothing
/// else has a sign.
pub proof fn law_numbers_are_written_in_decimal(n: nat, d: nat)
    requires
        d < 10,
    ensures
        decimal(d) == seq![(0x30 + d) as char],
        n > 0 ==> decimal(10 * n + d) == decimal(n).push((0x30 + d) as char),
        signed_decimal(n as int) == decimal(n),
        n > 0 ==> signed_decimal(-n) == seq!['-'] + decimal(n),
{
    if n > 0 {
        let m: nat = 10 * n + d;
        assert(m / 10 == n && m % 10 == d);
    }
}

/// Digits stand for the number that they are written for: none of them for zero, and a further one
/// for ten times as much and itself.
pub proof fn law_digits_have_a_value(digits: Seq<char>, d: nat)
    requires
        d < 10,
    ensures
        digits_value(seq![]) == 0,
        digits_value(digits.push((0x30 + d) as char)) == 10 * digits_value(digits) + d,
{
    assert(digits.push((0x30 + d) as char).drop_last() =~= digits);
}

/// Nothing but digits.
pub open spec fn all_digits(s: Seq<char>) -> bool {
    forall|i: int| 0 <= i < s.len() ==> 0x30 <= (#[trigger] s[i]) as u32 <= 0x39
}

proof fn lemma_leading_is_prefix(digits: Seq<char>, rest: Seq<char>)
    requires
        all_digits(digits),
        rest.len() > 0 ==> !(0x30 <= rest[0] as u32 <= 0x39),
    ensures
        leading_digits(digits + rest) == digits,
{
    let s = digits + rest;
    lemma_leading_digits(s);
    let lead = leading_digits(s);
    if lead.len() < digits.len() {
        assert(s[lead.len() as int] == digits[lead.len() as int]);
        assert(is_digit(digits[lead.len() as int]));
    }
    if lead.len() > digits.len() {
        assert(s[digits.len() as int] == rest[0]);
        assert(is_digit(s[digits.len() as int]));
    }
    assert(lead.len() == digits.len());
    assert(s.take(digits.len() as int) =~= digits);
}

/// What is read from a text that starts with a sign or none, goes on with digits, and then ends or
/// goes on with something that is no digit; every text is of this shape. It is a number if and only
/// if there are digits, nothing stands behind them, and their value is within the range of `i32`.
/// Otherwise the fault is that there is nothing at all, or that the digits leave the range, or else
/// that something other than a digit stands where one is due.
pub proof fn law_numbers_are_read(
    text: &str,
    sign: Seq<char>,
    digits: Seq<char>,
    rest: Seq<char>,
    r: Result<i32, NumberFault>,
)
    requires
        call_ensures(parse_i32, (text,), r),
        text@ == sign + digits + rest,
        sign == seq!['-'] || sign == seq!['+'] || (sign.len() == 0 && !(digits.len() == 0
            && rest.len() > 0 && (rest[0] == '-' || rest[0] == '+'))),
        all_digits(digits),
        rest.len() > 0 ==> !(0x30 <= rest[0] as u32 <= 0x39),
    ensures
        ({
            let value = digits_value(digits);
            let negative = sign == seq!['-'];
            if text@.len() == 0 {
                r == Err::<i32, NumberFault>(NumberFault::Empty)
            } else if negative && value > 2147483648 {
                r == Err::<i32, NumberFault>(NumberFault::NegOverflow)
            } else if !negative && value > 2147483647 {
                r == Err::<i32, NumberFault>(NumberFault::PosOverflow)
            } else if digits.len() == 0 || rest.len() > 0 {
                r == Err::<i32, NumberFault>(NumberFault::InvalidDigit)
            } else {
                r matches Ok(n) && n == (if negative {
                    -value
                } else {
                    value as int
                })
            }
        }),
{
    let s = text@;
    if sign.len() == 1 {
        assert(s.drop_first() =~= digits + rest);
        assert(s[0] == sign[0]);
    } else {
        assert(s =~= digits + rest);
        if digits.len() > 0 {
            assert(s[0] == digits[0]);
        } else if rest.len() > 0 {
            assert(s[0] == rest[0]);
        }
    }
    assert(without_sign(s) == digits + rest);
    lemma_leading_is_prefix(digits, rest);
    if rest.len() == 0 {
        assert(digits + rest =~= digits);
    } else {
        assert((digits + rest).len() > digits.len());
    }
    if digits.len() == 0 {
        assert(digits =~= seq![]);
    }
}

/// Joining puts the separator between the pieces: nothing gives nothing, one piece gives itself, and
/// a further piece follows behind a separator.
pub proof fn law_pieces_are_joined(
    pieces: Seq<Seq<char>>,
    piece: Seq<char>,
    separator: Seq<char>,
)
    ensures
        join_with(seq![], separator) == Seq::<char>::empty(),
        join_with(seq![piece], separator) == piece,
        pieces.len() > 0 ==> join_with(pieces.push(piece), separator) == join_with(
            pieces,
            separator,
        ) + separator + piece,
{
    assert(pieces.push(piece).drop_last() =~= pieces);
}

/// A string is taken apart at every separator and nowhere else, and nothing of it is lost.
pub proof fn law_strings_are_split(text: &str, separator: char, pieces: Vec<String>)
    requires
        call_ensures(split, (text, separator), pieces),
    ensures
        pieces@.len() > 0,
        forall|i: int| 0 <= i < pieces@.len() ==> !(#[trigger] pieces@[i])@.contains(separator),
        join_with(
            pieces@.map_values(|piece: String| piece@),
            seq![separator],
        ) == text@,
{
    law_split_is_exact(text@, separator);
    let views = pieces@.map_values(|piece: String| piece@);
    assert(views =~= contents(pieces@));
    assert forall|i: int| 0 <= i < pieces@.len() implies !(#[trigger] pieces@[i])@.contains(
        separator,
    ) by {
        assert(split_on(text@, separator)[i] == pieces@[i]@);
    }
}

} // verus!
