//! Numbers, lines and encodings as text.

#![allow(unused_imports)]

use crate::text::{
    describe_error, encode_utf16, first_line, has_nul, parse_u32, push_decimal, push_signed,
    push_status_hex, same_text, text_of_c_buffer,
};
use vstd::prelude::*;
use vstd::string::*;

verus! {

/// Texts are the same when they have the same characters.
pub proof fn law_same_text_is_equality(a: &str, b: &str, same: bool)
    requires
        call_ensures(same_text, (a, b), same),
    ensures
        same <==> a@ == b@,
{
}

/// A text has a NUL when one of its characters is one.
pub proof fn law_nul_is_found_wherever_it_is(s: &str, found: bool)
    requires
        call_ensures(has_nul, (s,), found),
    ensures
        found <==> exists|i: int| 0 <= i < s@.len() && s@[i] as int == 0,
{
    if found {
        let i = choose|i: int| 0 <= i < s@.len() && s@[i] == '\0';
        assert(s@[i] as int == 0);
    }
    if exists|i: int| 0 <= i < s@.len() && s@[i] as int == 0 {
        let i = choose|i: int| 0 <= i < s@.len() && s@[i] as int == 0;
        assert(s@[i] == '\0');
    }
}

/// Writing a number appends its decimal digits and nothing else.
pub proof fn law_numbers_are_appended(out: &mut String, n: u64)
    requires
        call_ensures(push_decimal, (out, n), ()),
    ensures
        final(out)@ == old(out)@ + crate::text::decimal(n as nat),
{
}

/// One digit is written as itself, and a number with one more digit as the
/// number followed by that digit.
pub proof fn law_decimal_grows_digit_by_digit(n: nat, d: nat)
    requires
        d < 10,
    ensures
        crate::text::decimal(d) == seq![(0x30 + d) as char],
        n > 0 ==> crate::text::decimal(10 * n + d) == crate::text::decimal(n).push(
            (0x30 + d) as char,
        ),
{
    if n > 0 {
        assert((10 * n + d) / 10 == n);
        assert((10 * n + d) % 10 == d);
    }
}

/// A negative number is a minus sign and its magnitude, any other just its
/// digits.
pub proof fn law_signed_numbers_are_appended(out: &mut String, n: i32)
    requires
        call_ensures(push_signed, (out, n), ()),
    ensures
        n >= 0 ==> final(out)@ == old(out)@ + crate::text::decimal(n as nat),
        n < 0 ==> final(out)@ == old(out)@.push('-') + crate::text::decimal((-n) as nat),
{
    assert(old(out)@.push('-') + crate::text::decimal((-n) as nat) =~= old(out)@ + (seq!['-']
        + crate::text::decimal((-n) as nat)));
}

/// The character for a hexadecimal digit, in upper case.
pub open spec fn is_upper_hex(c: char, d: int) -> bool {
    0 <= d < 10 && c as int == 0x30 + d || 10 <= d < 16 && c as int == 0x41 + (d - 10)
}

/// A status is written as `0x` and eight upper-case hexadecimal digits, the
/// most significant first, of the number modulo two to the thirty-second.
pub proof fn law_statuses_are_eight_hex_digits(out: &mut String, code: i32)
    requires
        call_ensures(push_status_hex, (out, code), ()),
    ensures
        ({
            let n = old(out)@.len() as int;
            let bits = code as int % 0x1_0000_0000;
            let text = final(out)@;
            &&& text.len() == n + 10
            &&& text.take(n) == old(out)@
            &&& text[n] == '0'
            &&& text[n + 1] == 'x'
            &&& is_upper_hex(text[n + 2], bits / 0x1000_0000)
            &&& is_upper_hex(text[n + 3], bits / 0x100_0000 % 16)
            &&& is_upper_hex(text[n + 4], bits / 0x10_0000 % 16)
            &&& is_upper_hex(text[n + 5], bits / 0x1_0000 % 16)
            &&& is_upper_hex(text[n + 6], bits / 0x1000 % 16)
            &&& is_upper_hex(text[n + 7], bits / 0x100 % 16)
            &&& is_upper_hex(text[n + 8], bits / 0x10 % 16)
            &&& is_upper_hex(text[n + 9], bits % 16)
        }),
{
    let n = old(out)@.len() as int;
    let bits = code as int % 0x1_0000_0000;
    let text = final(out)@;
    let status = crate::text::status_hex(code);
    reveal_strlit("0x");
    assert(text == old(out)@ + status);
    assert(bits == if code < 0 { code + 0x1_0000_0000 } else { code as int });
    let b = bits as nat;
    reveal_with_fuel(crate::text::hex_digits, 9);
    let digits = crate::text::hex_digits(b, 8);
    assert(status == "0x"@ + digits);
    assert(digits.len() == 8);
    assert(b / 16 / 16 == b / 0x100);
    assert(b / 0x100 / 16 == b / 0x1000);
    assert(b / 0x1000 / 16 == b / 0x1_0000);
    assert(b / 0x1_0000 / 16 == b / 0x10_0000);
    assert(b / 0x10_0000 / 16 == b / 0x100_0000);
    assert(b / 0x100_0000 / 16 == b / 0x1000_0000);
    assert(b / 0x1000_0000 < 16);
    assert(text.take(n) =~= old(out)@);
    assert(text[n + 2] == digits[0]);
    assert(text[n + 3] == digits[1]);
    assert(text[n + 4] == digits[2]);
    assert(text[n + 5] == digits[3]);
    assert(text[n + 6] == digits[4]);
    assert(text[n + 7] == digits[5]);
    assert(text[n + 8] == digits[6]);
    assert(text[n + 9] == digits[7]);
}

/// Reading is what [`parse_u32`] returns.
pub proof fn law_reading_a_number(s: &str, value: Option<u32>)
    requires
        call_ensures(parse_u32, (s,), value),
    ensures
        value == crate::text::parsed_u32(s@),
{
}

/// A single digit reads as its value; any other single character does not
/// read, nor does the empty text.
pub proof fn law_one_digit_reads_as_its_value(c: char)
    ensures
        crate::text::parsed_u32(Seq::<char>::empty()) is None,
        0x30 <= c as int <= 0x39 ==> crate::text::parsed_u32(seq![c]) == Some(
            (c as int - 0x30) as u32,
        ),
        !(0x30 <= c as int <= 0x39) ==> crate::text::parsed_u32(seq![c]) is None,
{
    let s = seq![c];
    assert(s.drop_last() =~= Seq::<char>::empty());
    assert(crate::text::digits_value(s.drop_last()) == 0);
    assert(s.skip(1) =~= Seq::<char>::empty());
    assert(s[0] == c);
}

/// One more digit makes ten times the number and the digit, as long as that
/// fits; anything that is not a digit makes it unreadable. What does not
/// read with a digit less does not read with it.
pub proof fn law_one_more_digit_is_ten_times(s: Seq<char>, c: char)
    requires
        s.len() > 0,
        s != seq!['+'],
    ensures
        match crate::text::parsed_u32(s) {
            Some(v) => if 0x30 <= c as int <= 0x39 && 10 * v + (c as int - 0x30) <= 0xFFFF_FFFF {
                crate::text::parsed_u32(s.push(c)) == Some((10 * v + (c as int - 0x30)) as u32)
            } else {
                crate::text::parsed_u32(s.push(c)) is None
            },
            None => crate::text::parsed_u32(s.push(c)) is None,
        },
{
    let longer = s.push(c);
    assert(longer[0] == s[0]);
    let (short, long) = if s[0] == '+' {
        assert(longer.skip(1) =~= s.skip(1).push(c));
        assert(s.skip(1).len() > 0) by {
            if s.len() == 1 {
                assert(s =~= seq!['+']);
            }
        }
        (s.skip(1), longer.skip(1))
    } else {
        (s, longer)
    };
    assert(long.drop_last() =~= short);
    assert(long.last() == c);
    assert(long =~= short.push(c));
    let fine = forall|i: int| 0 <= i < short.len() ==> crate::text::is_digit(short[i]);
    if crate::text::is_digit(c) && fine {
        assert forall|i: int| 0 <= i < long.len() implies crate::text::is_digit(long[i]) by {
            if i < short.len() {
                assert(long[i] == short[i]);
            }
        }
        assert(crate::text::digits_value(long) == 10 * crate::text::digits_value(short) + (c as int
            - 0x30));
    } else if !fine {
        let i = choose|i: int| 0 <= i < short.len() && !crate::text::is_digit(short[i]);
        assert(!crate::text::is_digit(long[i]));
    } else {
        assert(!crate::text::is_digit(long[long.len() - 1]));
    }
}

/// One plus sign in front changes nothing; a second one does not read.
pub proof fn law_a_plus_sign_is_skipped(s: Seq<char>)
    requires
        s.len() > 0,
    ensures
        s[0] != '+' ==> crate::text::parsed_u32(seq!['+'] + s) == crate::text::parsed_u32(s),
        s[0] == '+' ==> crate::text::parsed_u32(seq!['+'] + s) is None,
{
    let signed = seq!['+'] + s;
    assert(signed.skip(1) =~= s);
    assert(!crate::text::is_digit('+'));
    if s[0] == '+' {
        assert(!crate::text::is_digit(s[0]));
    }
}

/// The first line of a text without a line feed is the text; of one with a
/// line feed, it is what stands before the first one, without the carriage
/// return that belongs to it. An empty text has no line.
pub proof fn law_the_first_line_ends_at_the_first_feed(
    s: &str,
    line: Option<String>,
    head: Seq<char>,
    rest: Seq<char>,
)
    requires
        call_ensures(first_line, (s,), line),
        forall|i: int| 0 <= i < head.len() ==> head[i] != '\n',
    ensures
        s@.len() == 0 <==> line is None,
        s@ == head && head.len() > 0 ==> line is Some && line->0@ == head,
        s@ == head.push('\n') + rest && !(head.len() > 0 && head.last() == '\r') ==> line is Some
            && line->0@ == head,
        s@ == head.push('\r').push('\n') + rest ==> line is Some && line->0@ == head,
{
    if s@ == head && head.len() > 0 {
        crate::text::lemma_run_before(s@, '\n', head.len());
        assert(s@.take(head.len() as int) =~= head);
    }
    if s@ == head.push('\n') + rest {
        assert forall|j: int| 0 <= j < head.len() implies s@[j] != '\n' by {
            assert(s@[j] == head[j]);
        }
        assert(s@[head.len() as int] == '\n');
        crate::text::lemma_run_before(s@, '\n', head.len());
        assert(s@.take(head.len() as int) =~= head);
        if head.len() > 0 {
            assert(s@[head.len() - 1] == head.last());
        }
    }
    if s@ == head.push('\r').push('\n') + rest {
        let n = head.len() + 1;
        assert forall|j: int| 0 <= j < n implies s@[j] != '\n' by {
            if j < head.len() {
                assert(s@[j] == head[j]);
            } else {
                assert(s@[j] == '\r');
            }
        }
        assert(s@[n as int] == '\n');
        assert(s@[n - 1] == '\r');
        crate::text::lemma_run_before(s@, '\n', n as nat);
        assert(s@.take(n - 1) =~= head);
    }
}

/// The text of a C string is that of the bytes before its first zero, or of
/// all of them when it has none.
pub proof fn law_c_strings_end_at_the_first_zero(
    buf: &[u8],
    text: String,
    head: Seq<u8>,
    rest: Seq<u8>,
)
    requires
        call_ensures(text_of_c_buffer, (buf,), text),
        forall|i: int| 0 <= i < head.len() ==> head[i] != 0,
        buf@ == head || buf@ == head.push(0u8) + rest,
    ensures
        text@ == crate::text::utf8_lossy(head),
{
    assert forall|j: int| 0 <= j < head.len() implies buf@[j] != 0u8 by {
        assert(buf@[j] == head[j]);
    }
    if buf@ != head {
        assert(buf@[head.len() as int] == 0u8);
    }
    crate::text::lemma_run_before(buf@, 0u8, head.len());
    assert(buf@.take(head.len() as int) =~= head);
}

/// A library that has a text for its error is quoted; for one that has
/// none, its label and the code stand in.
pub proof fn law_errors_are_told_in_the_librarys_words(
    said: Option<&[u8]>,
    label: &str,
    code: i32,
    text: String,
)
    requires
        call_ensures(describe_error, (said, label, code), text),
    ensures
        said matches Some(raw) ==> text@ == crate::text::utf8_lossy(raw@),
        said is None && code >= 0 ==> text@ == label@ + " error "@ + crate::text::decimal(
            code as nat,
        ),
        said is None && code < 0 ==> text@ == label@ + " error "@ + seq!['-']
            + crate::text::decimal((-code) as nat),
{
    if said is None && code < 0 {
        assert(text@ =~= label@ + " error "@ + seq!['-'] + crate::text::decimal((-code) as nat));
    }
}

/// Encoding goes character by character.
pub proof fn law_utf16_goes_character_by_character(s: &str, units: Vec<u16>, a: Seq<char>, c: char)
    requires
        call_ensures(encode_utf16, (s,), units),
    ensures
        units@ == crate::text::utf16_units(s@),
        crate::text::utf16_units(Seq::<char>::empty()) == Seq::<u16>::empty(),
        crate::text::utf16_units(a.push(c)) == crate::text::utf16_units(a)
            + crate::text::char_units(c),
{
    assert(a.push(c).drop_last() =~= a);
}

/// A character of the basic plane is one unit, its code; any other is a
/// high and a low surrogate that carry ten bits each of what it is above
/// that plane.
pub proof fn law_characters_are_one_unit_or_a_pair(c: char)
    ensures
        ({
            let code = c as int;
            let units = crate::text::char_units(c);
            &&& code < 0x1_0000 ==> units.len() == 1 && units[0] == code
            &&& code >= 0x1_0000 ==> {
                &&& units.len() == 2
                &&& 0xD800 <= units[0] < 0xDC00
                &&& 0xDC00 <= units[1] < 0xE000
                &&& code == 0x1_0000 + (units[0] - 0xD800) * 0x400 + (units[1] - 0xDC00)
            }
        }),
{
}

/// Decoding turns a unit of the basic plane into its character, a surrogate
/// pair into the character it carries, and a surrogate that is no part of a
/// pair into U+FFFD; and goes on behind it.
pub proof fn law_utf16_decoding_goes_unit_by_unit(a: u16, b: u16, rest: Seq<u16>)
    ensures
        crate::text::utf16_lossy(Seq::<u16>::empty()) == Seq::<char>::empty(),
        !(0xD800 <= a < 0xE000) ==> crate::text::utf16_lossy(seq![a] + rest) == seq![a as char]
            + crate::text::utf16_lossy(rest),
        0xD800 <= a < 0xDC00 && 0xDC00 <= b < 0xE000 ==> crate::text::utf16_lossy(
            seq![a, b] + rest,
        ) == seq![(0x1_0000 + (a - 0xD800) * 0x400 + (b - 0xDC00)) as char]
            + crate::text::utf16_lossy(rest),
        0xDC00 <= a < 0xE000 ==> crate::text::utf16_lossy(seq![a] + rest) == seq!['\u{FFFD}']
            + crate::text::utf16_lossy(rest),
        0xD800 <= a < 0xDC00 && !(rest.len() > 0 && 0xDC00 <= rest[0] < 0xE000)
            ==> crate::text::utf16_lossy(seq![a] + rest) == seq!['\u{FFFD}']
            + crate::text::utf16_lossy(rest),
{
    let one = seq![a] + rest;
    let two = seq![a, b] + rest;
    assert(one.skip(1) =~= rest);
    assert(two.skip(2) =~= rest);
    assert(one[0] == a);
    assert(two[0] == a && two[1] == b);
    if rest.len() > 0 {
        assert(one[1] == rest[0]);
    }
}

} // verus!
