//! What holds of texts and numbers: white space, decimal and hexadecimal digits,
//! the order of texts, and the bytes of numbers.

use crate::bytes;
use crate::text;
use vstd::prelude::*;

verus! {

/// Which characters are white space, by their numbers.
pub proof fn white_space(c: char)
    ensures
        text::is_white(c) <==> {
            let n = c as int;
            ||| 9 <= n <= 13
            ||| n == 0x20
            ||| n == 0x85
            ||| n == 0xa0
            ||| n == 0x1680
            ||| 0x2000 <= n <= 0x200a
            ||| n == 0x2028
            ||| n == 0x2029
            ||| n == 0x202f
            ||| n == 0x205f
            ||| n == 0x3000
        },
{
}

/// What is cut off the end of a text is white space, all of it is cut off, and
/// nothing else of the text changes.
pub proof fn end_is_trimmed(t: Seq<char>)
    ensures
        text::trimmed_end(t).len() <= t.len(),
        text::trimmed_end(t) == t.take(text::trimmed_end(t).len() as int),
        forall|i: int|
            text::trimmed_end(t).len() <= i < t.len() ==> text::is_white(#[trigger] t[i]),
        text::trimmed_end(t).len() > 0 ==> !text::is_white(text::trimmed_end(t).last()),
    decreases t.len(),
{
    if t.len() > 0 && text::is_white(t.last()) {
        let shorter = t.drop_last();
        end_is_trimmed(shorter);
        let n = text::trimmed_end(shorter).len() as int;
        assert(shorter.take(n) =~= t.take(n));
        assert forall|i: int| n <= i < t.len() implies text::is_white(#[trigger] t[i]) by {
            if i < t.len() - 1 {
                assert(shorter[i] == t[i]);
            }
        }
    } else {
        assert(t.take(t.len() as int) =~= t);
    }
}

/// A text that does not end in white space is not cut at its end.
pub proof fn text_without_white_end_is_not_trimmed(t: Seq<char>)
    requires
        t.len() > 0 ==> !text::is_white(t.last()),
    ensures
        text::trimmed_end(t) == t,
{
}

/// What is cut off the start of a text is white space, and all of it.
proof fn start_is_trimmed(t: Seq<char>)
    ensures
        text::trimmed_start(t).len() <= t.len(),
        text::trimmed_start(t) == t.skip(t.len() - text::trimmed_start(t).len()),
        forall|i: int|
            0 <= i < t.len() - text::trimmed_start(t).len() ==> text::is_white(#[trigger] t[i]),
        text::trimmed_start(t).len() > 0 ==> !text::is_white(text::trimmed_start(t).first()),
    decreases t.len(),
{
    if t.len() > 0 && text::is_white(t.first()) {
        let shorter = t.drop_first();
        start_is_trimmed(shorter);
        let n = text::trimmed_start(shorter).len() as int;
        assert(shorter.skip(shorter.len() - n) =~= t.skip(t.len() - n));
        assert forall|i: int| 0 <= i < t.len() - n implies text::is_white(#[trigger] t[i]) by {
            if i > 0 {
                assert(shorter[i - 1] == t[i]);
            }
        }
    } else {
        assert(t.skip(0) =~= t);
    }
}

/// A text is white space, then what is left when both ends are trimmed, then
/// white space; and what is left neither starts nor ends with white space.
pub proof fn both_ends_are_trimmed(t: Seq<char>) -> (parts: (Seq<char>, Seq<char>))
    ensures
        t == parts.0 + text::trimmed(t) + parts.1,
        text::is_blank(parts.0),
        text::is_blank(parts.1),
        text::trimmed(t).len() > 0 ==> !text::is_white(text::trimmed(t).first())
            && !text::is_white(text::trimmed(t).last()),
{
    let cut = text::trimmed_end(t);
    let left = text::trimmed(t);
    end_is_trimmed(t);
    start_is_trimmed(cut);
    let n = cut.len() - left.len();
    let before = cut.take(n);
    let after = t.skip(cut.len() as int);
    assert(t =~= before + left + after);
    assert forall|i: int| 0 <= i < after.len() implies text::is_white(#[trigger] after[i]) by {
        assert(after[i] == t[cut.len() + i]);
    }
    assert forall|i: int| 0 <= i < before.len() implies text::is_white(#[trigger] before[i]) by {
        assert(before[i] == cut[i]);
    }
    (before, after)
}

/// A text is blank exactly when nothing is left of it once it is trimmed.
pub proof fn blank_text_has_nothing_left(t: Seq<char>)
    ensures
        text::is_blank(t) <==> text::trimmed_end(t).len() == 0,
{
    end_is_trimmed(t);
    let n = text::trimmed_end(t).len() as int;
    if n > 0 {
        assert(text::trimmed_end(t).last() == t[n - 1]);
    }
}

/// The ten digits, by their numbers.
pub proof fn digits(c: char)
    ensures
        text::is_digit(c) <==> 48 <= c as int <= 57,
        text::is_hex_digit(c) <==> 48 <= c as int <= 57 || 97 <= c as int <= 102 || 65 <= c as int
            <= 70,
        text::is_lower_hex_digit(c) <==> 48 <= c as int <= 57 || 97 <= c as int <= 102,
        text::lowered(c) as int == if 65 <= c as int <= 90 {
            c as int + 32
        } else {
            c as int
        },
        text::is_hex_digit(c) ==> text::hex_digit_value(c) == if c as int <= 57 {
            c as int - 48
        } else if c as int <= 70 {
            c as int - 55
        } else {
            c as int - 87
        },
{
}

/// A digit of either case stands for the same number in lowercase.
pub proof fn lowering_keeps_the_value(c: char)
    requires
        text::is_hex_digit(c),
    ensures
        text::is_lower_hex_digit(text::lowered(c)),
        text::hex_digit_value(text::lowered(c)) == text::hex_digit_value(c),
        text::is_lower_hex_digit(c) ==> text::lowered(c) == c,
{
}

/// One more digit makes ten times the number and the digit.
pub proof fn value_of_digits(t: Seq<char>, c: char)
    requires
        48 <= c as int <= 57,
    ensures
        text::value_of(Seq::empty()) == 0,
        text::value_of(t.push(c)) == 10 * text::value_of(t) + (c as int - 48),
{
    assert(t.push(c).drop_last() =~= t);
}

/// A number in decimal is digits that spell it, the first of them not zero
/// unless the number is.
pub proof fn decimal_reads_back(n: nat)
    ensures
        text::decimal(n).len() > 0,
        forall|i: int|
            0 <= i < text::decimal(n).len() ==> text::is_digit(#[trigger] text::decimal(n)[i]),
        text::value_of(text::decimal(n)) == n,
        n > 0 ==> text::decimal(n)[0] != '0',
        n < 10 ==> text::decimal(n).len() == 1,
    decreases n,
{
    if n < 10 {
        let c = text::decimal(n)[0];
        assert(text::decimal(n) =~= Seq::<char>::empty().push(c));
        value_of_digits(Seq::empty(), c);
    } else {
        decimal_reads_back(n / 10);
        let c = text::decimal(n).last();
        assert(text::decimal(n) =~= text::decimal(n / 10).push(c));
        value_of_digits(text::decimal(n / 10), c);
    }
}

/// A text is a port exactly when it is one digit or more, after a plus sign or
/// none, that spell a number up to 65535; and that number is the port.
pub proof fn port_is_its_digits(digits: Seq<char>)
    requires
        digits.len() > 0,
        forall|i: int| 0 <= i < digits.len() ==> text::is_digit(#[trigger] digits[i]),
    ensures
        text::port_of(digits) == (if text::value_of(digits) <= 65535 {
            Some(text::value_of(digits) as u16)
        } else {
            None
        }),
        text::port_of(seq!['+'] + digits) == text::port_of(digits),
{
    assert(text::is_digit(digits[0]));
    assert((seq!['+'] + digits).drop_first() =~= digits);
}

/// A text with anything else in it is no port.
pub proof fn other_text_is_no_port(t: Seq<char>, at: int)
    requires
        0 <= at < t.len(),
        !text::is_digit(t[at]),
        at > 0 || t[at] != '+',
    ensures
        text::port_of(t) is None,
        text::port_of(Seq::empty()) is None,
        text::port_of(seq!['+']) is None,
{
    let digits = text::port_digits(t);
    if t[0] == '+' {
        assert(digits[at - 1] == t[at]);
    } else {
        assert(digits[at] == t[at]);
    }
    assert(seq!['+'].drop_first() =~= Seq::<char>::empty());
}

/// A port in decimal is read back as that port.
pub proof fn port_reads_back(port: u16)
    ensures
        text::port_of(text::decimal(port as nat)) == Some(port),
{
    decimal_reads_back(port as nat);
    port_is_its_digits(text::decimal(port as nat));
}

/// The two digits of each byte, the high one first, and what they stand for.
pub proof fn hexadecimal_of_bytes(b: Seq<u8>)
    ensures
        text::hex(b).len() == 2 * b.len(),
        forall|i: int|
            0 <= i < b.len() ==> {
                &&& text::is_lower_hex_digit(text::hex(b)[2 * i])
                &&& text::is_lower_hex_digit(text::hex(b)[2 * i + 1])
                &&& #[trigger] b[i] == 16 * text::hex_digit_value(text::hex(b)[2 * i])
                    + text::hex_digit_value(text::hex(b)[2 * i + 1])
            },
{
}

/// The bytes that digits spell, and which texts spell any.
pub proof fn bytes_of_hexadecimal(t: Seq<char>)
    ensures
        text::is_hex(t) <==> t.len() % 2 == 0 && (forall|i: int|
            0 <= i < t.len() ==> text::is_hex_digit(#[trigger] t[i])),
        text::bytes_of_hex(t).len() == t.len() / 2,
        text::is_hex(t) ==> forall|i: int|
            0 <= i < t.len() / 2 ==> #[trigger] text::bytes_of_hex(t)[i] == 16
                * text::hex_digit_value(t[2 * i]) + text::hex_digit_value(t[2 * i + 1]),
{
}

/// Different bytes have different hexadecimal digits.
pub proof fn hexadecimal_tells_bytes_apart(a: Seq<u8>, b: Seq<u8>)
    requires
        text::hex(a) == text::hex(b),
    ensures
        a == b,
{
    text::hex_reads_back(a);
    text::hex_reads_back(b);
}

/// What two texts start with in common has no part in their order; a text comes
/// before every longer one that starts with it; and the first characters that
/// differ decide.
pub proof fn first_difference_decides(common: Seq<char>, a: Seq<char>, b: Seq<char>)
    ensures
        text::precedes(common + a, common + b) == text::precedes(a, b),
        text::precedes(common, common + a) <==> a.len() > 0,
        a.len() > 0 && b.len() > 0 && a[0] != b[0] ==> (text::precedes(a, b) <==> (a[0] as int) < (
        b[0] as int)),
    decreases common.len(),
{
    if common.len() == 0 {
        assert(common + a =~= a);
        assert(common + b =~= b);
    } else {
        let rest = common.drop_first();
        first_difference_decides(rest, a, b);
        assert((common + a).drop_first() =~= rest + a);
        assert((common + b).drop_first() =~= rest + b);
    }
}

/// No text comes both before and after another.
pub proof fn order_goes_one_way(a: Seq<char>, b: Seq<char>)
    requires
        text::precedes(a, b),
    ensures
        !text::precedes(b, a),
        a != b,
{
    text::precedes_is_irreflexive(a);
    if text::precedes(b, a) {
        text::precedes_is_transitive(a, b, a);
    }
}

/// The four bytes of a number, and the number that four bytes make.
pub proof fn four_bytes_of_a_number(n: u32, b: Seq<u8>)
    requires
        b.len() == 4,
    ensures
        bytes::u32_be(n).len() == 4,
        n == 16777216 * bytes::u32_be(n)[0] + 65536 * bytes::u32_be(n)[1] + 256 * bytes::u32_be(n)[2]
            + bytes::u32_be(n)[3],
        bytes::u32_of_be(b) == 16777216 * b[0] + 65536 * b[1] + 256 * b[2] + b[3],
{
}

/// The eight bytes of a number: the high half in four bytes, then the low half.
pub proof fn eight_bytes_of_a_number(high: u32, low: u32)
    ensures
        bytes::u64_be((high as int * 0x1_0000_0000 + low as int) as u64) == bytes::u32_be(high)
            + bytes::u32_be(low),
{
    let n = (high as int * 0x1_0000_0000 + low as int) as u64;
    assert(n / 0x1_0000_0000 == high);
    assert(n % 0x1_0000_0000 == low);
}

/// Bytes are all zero exactly when they are that many zeros.
pub proof fn only_zeros_are_all_zero(b: Seq<u8>)
    ensures
        bytes::all_zero(b) <==> b == Seq::new(b.len(), |i: int| 0u8),
{
    let zeros = Seq::new(b.len(), |i: int| 0u8);
    if bytes::all_zero(b) {
        assert(b =~= zeros);
    }
    if b == zeros {
        assert forall|i: int| 0 <= i < b.len() implies b[i] == 0 by {
            assert(zeros[i] == 0u8);
        }
    }
}

} // verus!
