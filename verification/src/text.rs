//! Building and inspecting text one character at a time.

use crate::bytes::bytes_equal;
use vstd::prelude::*;
use vstd::string::*;
use vstd::utf8::*;

verus! {

/// Trusted: `String::push` appends the given character to the end of the string.
pub assume_specification[ String::push ](s: &mut String, c: char)
    ensures
        final(s)@ == old(s)@.push(c),
;

/// The lower-case digit for a value below sixteen.
pub open spec fn digit(d: nat) -> char
    recommends
        d < 16,
{
    seq![
        '0',
        '1',
        '2',
        '3',
        '4',
        '5',
        '6',
        '7',
        '8',
        '9',
        'a',
        'b',
        'c',
        'd',
        'e',
        'f',
    ][d as int]
}

/// A number written in decimal, without leading zeros.
pub open spec fn decimal(n: nat) -> Seq<char>
    decreases n,
{
    if n < 10 {
        seq![digit(n)]
    } else {
        decimal(n / 10).push(digit(n % 10))
    }
}

/// The lowest `width` hexadecimal digits of a number, most significant first.
pub open spec fn hex_digits(n: nat, width: nat) -> Seq<char>
    decreases width,
{
    if width == 0 {
        Seq::empty()
    } else {
        hex_digits(n / 16, (width - 1) as nat).push(digit(n % 16))
    }
}

/// Returns the lower-case digit for a value below sixteen.
pub fn digit_char(d: u8) -> (c: char)
    requires
        d < 16,
    ensures
        c == digit(d as nat),
{
    match d {
        0 => '0',
        1 => '1',
        2 => '2',
        3 => '3',
        4 => '4',
        5 => '5',
        6 => '6',
        7 => '7',
        8 => '8',
        9 => '9',
        10 => 'a',
        11 => 'b',
        12 => 'c',
        13 => 'd',
        14 => 'e',
        _ => 'f',
    }
}

/// Appends a number in decimal.
pub fn push_decimal(out: &mut String, n: u64)
    ensures
        final(out)@ == old(out)@ + decimal(n as nat),
    decreases n,
{
    if n >= 10 {
        push_decimal(out, n / 10);
    }
    out.push(digit_char((n % 10) as u8));
}

/// Appends the lowest `width` hexadecimal digits of a number.
pub fn push_hex(out: &mut String, n: u32, width: u8)
    ensures
        final(out)@ == old(out)@ + hex_digits(n as nat, width as nat),
    decreases width,
{
    if width > 0 {
        push_hex(out, n / 16, width - 1);
        out.push(digit_char((n % 16) as u8));
    }
}

/// Whether two texts are equal.
pub fn text_equal(a: &str, b: &str) -> (r: bool)
    ensures
        r == (a@ == b@),
{
    proof {
        encode_utf8_decode_utf8(a@);
        encode_utf8_decode_utf8(b@);
    }
    bytes_equal(a.as_bytes(), b.as_bytes())
}

/// Whether `text` starts with `prefix`.
pub fn starts_with(text: &str, prefix: &str) -> (b: bool)
    ensures
        b == prefix@.is_prefix_of(text@),
{
    let n: usize = prefix.unicode_len();
    if text.unicode_len() < n {
        return false;
    }
    let mut i: usize = 0;
    while i < n
        invariant
            i <= n,
            n == prefix@.len(),
            n <= text@.len(),
            forall|j: int| 0 <= j < i ==> prefix@[j] == text@[j],
        decreases n - i,
    {
        if prefix.get_char(i) != text.get_char(i) {
            assert(prefix@[i as int] != text@.subrange(0, n as int)[i as int]);
            return false;
        }
        i += 1;
    }
    assert(prefix@ =~= text@.subrange(0, n as int));
    true
}

/// Whether `text` ends with `suffix`.
pub fn ends_with(text: &str, suffix: &str) -> (b: bool)
    ensures
        b == suffix@.is_suffix_of(text@),
{
    let n: usize = suffix.unicode_len();
    let m: usize = text.unicode_len();
    if m < n {
        return false;
    }
    let mut i: usize = 0;
    while i < n
        invariant
            i <= n <= m,
            n == suffix@.len(),
            m == text@.len(),
            forall|j: int| 0 <= j < i ==> suffix@[j] == text@[m - n + j],
        decreases n - i,
    {
        if suffix.get_char(i) != text.get_char(m - n + i) {
            assert(suffix@[i as int] != text@.subrange(m - n, m as int)[i as int]);
            return false;
        }
        i += 1;
    }
    assert(suffix@ =~= text@.subrange(m - n, m as int));
    true
}

/// The value of a lower-case digit, or nothing for any other character.
pub open spec fn digit_number(c: char) -> Option<nat> {
    if '0' <= c <= '9' {
        Some((c as int - '0' as int) as nat)
    } else if 'a' <= c <= 'f' {
        Some((c as int - 'a' as int + 10) as nat)
    } else {
        None
    }
}

/// The number that a text of decimal digits stands for, or nothing if there are other characters.
pub open spec fn decimal_number(text: Seq<char>) -> Option<nat>
    decreases text.len(),
{
    if text.len() == 0 {
        Some(0)
    } else {
        match (decimal_number(text.drop_last()), digit_number(text.last())) {
            (Some(n), Some(d)) => if d < 10 {
                Some(n * 10 + d)
            } else {
                None
            },
            _ => None,
        }
    }
}

/// The number that a text of lower-case hexadecimal digits stands for, or nothing if there are
/// other characters.
pub open spec fn hex_number(text: Seq<char>) -> Option<nat>
    decreases text.len(),
{
    if text.len() == 0 {
        Some(0)
    } else {
        match (hex_number(text.drop_last()), digit_number(text.last())) {
            (Some(n), Some(d)) => Some(n * 16 + d),
            _ => None,
        }
    }
}

/// How many numbers have at most the given number of hexadecimal digits.
pub open spec fn hex_limit(width: nat) -> nat
    decreases width,
{
    if width == 0 {
        1
    } else {
        16 * hex_limit((width - 1) as nat)
    }
}

/// A number in decimal reads back as the same number, and has no needless zero in front.
pub proof fn law_decimal_reads_back(n: nat)
    ensures
        decimal_number(decimal(n)) == Some(n),
        decimal(n).len() > 0,
        decimal(n)[0] == '0' ==> n == 0,
        n == 0 ==> decimal(n).len() == 1,
    decreases n,
{
    let text = decimal(n);
    if n < 10 {
        assert(text.drop_last() =~= Seq::empty());
        assert(decimal_number(text.drop_last()) == Some(0nat));
        assert(digit_number(digit(n)) == Some(n));
    } else {
        law_decimal_reads_back(n / 10);
        assert(text.drop_last() =~= decimal(n / 10));
        assert(digit_number(digit(n % 10)) == Some(n % 10));
    }
}

/// A number in hexadecimal has as many digits as it is given room for, and reads back as the same
/// number if it has no more digits than that.
pub proof fn law_hex_digits_read_back(n: nat, width: nat)
    requires
        n < hex_limit(width),
    ensures
        hex_number(hex_digits(n, width)) == Some(n),
        hex_digits(n, width).len() == width,
    decreases width,
{
    if width > 0 {
        law_hex_digits_read_back(n / 16, (width - 1) as nat);
        let text = hex_digits(n, width);
        assert(text.drop_last() =~= hex_digits(n / 16, (width - 1) as nat));
        assert(digit_number(digit(n % 16)) == Some(n % 16));
    }
}

/// A number is appended in decimal, without needless zeros, and in hexadecimal with the given
/// number of digits. What was there before stays.
pub proof fn law_numbers_are_appended(
    out: &mut String,
    n: u64,
    hex_out: &mut String,
    hex_n: u32,
    width: u8,
)
    requires
        call_ensures(push_decimal, (out, n), ()),
        call_ensures(push_hex, (hex_out, hex_n, width), ()),
        hex_n < hex_limit(width as nat),
    ensures
        final(out)@.len() > old(out)@.len(),
        final(out)@.take(old(out)@.len() as int) == old(out)@,
        decimal_number(final(out)@.skip(old(out)@.len() as int)) == Some(n as nat),
        final(out)@[old(out)@.len() as int] == '0' ==> final(out)@.len() == old(out)@.len() + 1,
        final(hex_out)@.len() == old(hex_out)@.len() + width,
        final(hex_out)@.take(old(hex_out)@.len() as int) == old(hex_out)@,
        hex_number(final(hex_out)@.skip(old(hex_out)@.len() as int)) == Some(hex_n as nat),
{
    law_decimal_reads_back(n as nat);
    law_hex_digits_read_back(hex_n as nat, width as nat);
    assert(final(out)@.skip(old(out)@.len() as int) =~= decimal(n as nat));
    assert(final(out)@.take(old(out)@.len() as int) =~= old(out)@);
    assert(final(hex_out)@.skip(old(hex_out)@.len() as int) =~= hex_digits(
        hex_n as nat,
        width as nat,
    ));
    assert(final(hex_out)@.take(old(hex_out)@.len() as int) =~= old(hex_out)@);
}

/// Texts are compared character by character, from the beginning or from the end.
pub proof fn law_texts_are_compared(
    text: &str,
    other: &str,
    equal: bool,
    starts: bool,
    ends: bool,
)
    requires
        call_ensures(text_equal, (text, other), equal),
        call_ensures(starts_with, (text, other), starts),
        call_ensures(ends_with, (text, other), ends),
    ensures
        equal <==> text@.len() == other@.len() && forall|i: int|
            0 <= i < other@.len() ==> text@[i] == #[trigger] other@[i],
        starts <==> text@.len() >= other@.len() && forall|i: int|
            0 <= i < other@.len() ==> text@[i] == #[trigger] other@[i],
        ends <==> text@.len() >= other@.len() && forall|i: int|
            0 <= i < other@.len() ==> text@[text@.len() - other@.len() + i] == #[trigger] other@[i],
{
    let n = other@.len() as int;
    if text@.len() == n && (forall|i: int| 0 <= i < n ==> text@[i] == #[trigger] other@[i]) {
        assert(text@ =~= other@);
    }
    if text@.len() >= n {
        let front = text@.subrange(0, n);
        let back = text@.subrange(text@.len() - n, text@.len() as int);
        if forall|i: int| 0 <= i < n ==> text@[i] == #[trigger] other@[i] {
            assert(front =~= other@);
        }
        if forall|i: int| 0 <= i < n ==> text@[text@.len() - n + i] == #[trigger] other@[i] {
            assert(back =~= other@);
        }
        if starts {
            assert forall|i: int| 0 <= i < n implies text@[i] == #[trigger] other@[i] by {
                assert(front[i] == other@[i]);
            }
        }
        if ends {
            assert forall|i: int| 0 <= i < n implies text@[text@.len() - n + i]
                == #[trigger] other@[i] by {
                assert(back[i] == other@[i]);
            }
        }
    }
}

} // verus!
