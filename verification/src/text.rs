//! Text handling shared by the backends: number formatting, device-id
//! parsing, and the few string predicates the routing rules need.

use vstd::prelude::*;
use vstd::string::*;

verus! {

/// The decimal digit character of `d`.
pub open spec fn digit_char(d: nat) -> char {
    (48 + d) as char
}

/// Decimal notation of `n`, without leading zeros.
pub open spec fn decimal(n: nat) -> Seq<char>
    decreases n,
{
    if n < 10 {
        seq![digit_char(n)]
    } else {
        decimal(n / 10).push(digit_char(n % 10))
    }
}

/// Decimal notation of a signed number: a `-` in front of the magnitude
/// when it is negative.
pub open spec fn signed_decimal(n: int) -> Seq<char> {
    if n < 0 {
        seq!['-'] + decimal((-n) as nat)
    } else {
        decimal(n as nat)
    }
}

/// The upper-case hexadecimal digit character of `d`.
pub open spec fn hex_char(d: nat) -> char {
    if d < 10 {
        (48 + d) as char
    } else {
        (55 + d) as char
    }
}

/// The `width` low hexadecimal digits of `n`, most significant first.
pub open spec fn hex_digits(n: nat, width: nat) -> Seq<char>
    decreases width,
{
    if width == 0 {
        seq![]
    } else {
        hex_digits(n / 16, (width - 1) as nat).push(hex_char(n % 16))
    }
}

/// A 32-bit status in the notation of its vendor's headers: `0x` and the
/// eight hexadecimal digits of its two's-complement bit pattern.
pub open spec fn status_hex(code: i32) -> Seq<char> {
    "0x"@ + hex_digits(if code < 0 { (code + 0x1_0000_0000) as nat } else { code as nat }, 8)
}

/// `a == b` on text.
pub fn same_text(a: &str, b: &str) -> (same: bool)
    ensures
        same == (a@ == b@),
{
    let n: usize = a.unicode_len();
    if n != b.unicode_len() {
        return false;
    }
    let mut i: usize = 0;
    while i < n
        invariant
            n == a@.len(),
            n == b@.len(),
            i <= n,
            forall|j: int| 0 <= j < i ==> a@[j] == b@[j],
        decreases n - i,
    {
        if a.get_char(i) != b.get_char(i) {
            return false;
        }
        i = i + 1;
    }
    assert(a@ =~= b@);
    true
}

fn hex_str(d: u32) -> (s: &'static str)
    requires
        d < 16,
    ensures
        s@ == seq![hex_char(d as nat)],
{
    proof {
        reveal_strlit("0");
        reveal_strlit("1");
        reveal_strlit("2");
        reveal_strlit("3");
        reveal_strlit("4");
        reveal_strlit("5");
        reveal_strlit("6");
        reveal_strlit("7");
        reveal_strlit("8");
        reveal_strlit("9");
        reveal_strlit("A");
        reveal_strlit("B");
        reveal_strlit("C");
        reveal_strlit("D");
        reveal_strlit("E");
        reveal_strlit("F");
    }
    let s = match d {
        0 => "0",
        1 => "1",
        2 => "2",
        3 => "3",
        4 => "4",
        5 => "5",
        6 => "6",
        7 => "7",
        8 => "8",
        9 => "9",
        10 => "A",
        11 => "B",
        12 => "C",
        13 => "D",
        14 => "E",
        _ => "F",
    };
    assert(s@ =~= seq![hex_char(d as nat)]);
    s
}

/// Appends the decimal notation of `n`.
pub fn push_decimal(out: &mut String, n: u64)
    ensures
        final(out)@ == old(out)@ + decimal(n as nat),
    decreases n,
{
    if n >= 10 {
        push_decimal(out, n / 10);
    }
    let ghost before = out@;
    out.append(hex_str((n % 10) as u32));
    proof {
        let d = seq![digit_char((n % 10) as nat)];
        if n >= 10 {
            assert(before + d =~= old(out)@ + decimal((n / 10) as nat).push(
                digit_char((n % 10) as nat),
            ));
        }
    }
}

/// Appends the decimal notation of a signed `n`.
pub fn push_signed(out: &mut String, n: i32)
    ensures
        final(out)@ == old(out)@ + signed_decimal(n as int),
{
    if n < 0 {
        out.append("-");
        proof {
            reveal_strlit("-");
            assert("-"@ =~= seq!['-']);
        }
        let magnitude: u64 = (-(n as i64)) as u64;
        push_decimal(out, magnitude);
        assert(out@ =~= old(out)@ + signed_decimal(n as int));
    } else {
        push_decimal(out, n as u64);
    }
}

fn push_hex(out: &mut String, n: u32, width: u32)
    requires
        width <= 8,
    ensures
        final(out)@ == old(out)@ + hex_digits(n as nat, width as nat),
    decreases width,
{
    if width > 0 {
        push_hex(out, n / 16, width - 1);
        out.append(hex_str(n % 16));
        assert(out@ =~= old(out)@ + hex_digits(n as nat, width as nat));
    }
}

/// Appends a 32-bit status as `0x` and eight hexadecimal digits.
pub fn push_status_hex(out: &mut String, code: i32)
    ensures
        final(out)@ == old(out)@ + status_hex(code),
{
    out.append("0x");
    let bits: u32 = if code < 0 {
        (code as i64 + 0x1_0000_0000) as u32
    } else {
        code as u32
    };
    push_hex(out, bits, 8);
    assert(out@ =~= old(out)@ + status_hex(code));
}

/// How many items of `s` stand before the first `stop`; all of them when
/// there is none.
pub open spec fn run_before<T>(s: Seq<T>, stop: T) -> nat
    decreases s.len(),
{
    if s.len() == 0 || s[0] == stop {
        0
    } else {
        1 + run_before(s.drop_first(), stop)
    }
}

/// `run_before` is the one index with no `stop` below it that is either
/// the end or a `stop`.
pub proof fn lemma_run_before<T>(s: Seq<T>, stop: T, n: nat)
    requires
        n <= s.len(),
        forall|j: int| 0 <= j < n ==> s[j] != stop,
        n == s.len() || s[n as int] == stop,
    ensures
        run_before(s, stop) == n,
    decreases s.len(),
{
    if n > 0 {
        let rest = s.drop_first();
        assert forall|j: int| 0 <= j < n - 1 implies rest[j] != stop by {
            assert(rest[j] == s[j + 1]);
        }
        lemma_run_before(rest, stop, (n - 1) as nat);
    }
}

/// The first line of `s`: what stands before the first line feed, without
/// a carriage return that directly precedes it. An empty text has no line.
pub open spec fn first_line_of(s: Seq<char>) -> Option<Seq<char>> {
    let n = run_before(s, '\n');
    if s.len() == 0 {
        None
    } else if 0 < n < s.len() && s[n - 1] == '\r' {
        Some(s.take(n - 1))
    } else {
        Some(s.take(n as int))
    }
}

/// The first line of `s`, if it has one.
pub fn first_line(s: &str) -> (line: Option<String>)
    ensures
        match line {
            Some(l) => first_line_of(s@) == Some(l@),
            None => first_line_of(s@) is None,
        },
{
    let len: usize = s.unicode_len();
    if len == 0 {
        return None;
    }
    let mut n: usize = 0;
    while n < len && s.get_char(n) != '\n'
        invariant
            len == s@.len(),
            n <= len,
            forall|j: int| 0 <= j < n ==> s@[j] != '\n',
        decreases len - n,
    {
        n = n + 1;
    }
    proof {
        lemma_run_before(s@, '\n', n as nat);
    }
    if n > 0 && n < len && s.get_char(n - 1) == '\r' {
        Some(s.substring_char(0, n - 1).to_owned())
    } else {
        Some(s.substring_char(0, n).to_owned())
    }
}

/// Whether `s` holds a NUL character, which no C string can carry.
pub fn has_nul(s: &str) -> (found: bool)
    ensures
        found == s@.contains('\0'),
{
    let len: usize = s.unicode_len();
    let mut i: usize = 0;
    while i < len
        invariant
            len == s@.len(),
            i <= len,
            forall|j: int| 0 <= j < i ==> s@[j] != '\0',
        decreases len - i,
    {
        if s.get_char(i) == '\0' {
            return true;
        }
        i = i + 1;
    }
    false
}

/// Whether `c` is one of the ten decimal digits.
pub open spec fn is_digit(c: char) -> bool {
    '0' <= c && c <= '9'
}

/// The number that a sequence of decimal digits writes.
pub open spec fn digits_value(s: Seq<char>) -> nat
    decreases s.len(),
{
    if s.len() == 0 {
        0
    } else {
        10 * digits_value(s.drop_last()) + ((s.last() as int - 48) as nat)
    }
}

/// The unsigned 32-bit number that one or more decimal digits write, if
/// they are all digits and it fits.
pub open spec fn digits_u32(digits: Seq<char>) -> Option<u32> {
    if digits.len() > 0 && (forall|i: int| 0 <= i < digits.len() ==> is_digit(digits[i]))
        && digits_value(digits) <= u32::MAX {
        Some(digits_value(digits) as u32)
    } else {
        None
    }
}

/// The unsigned 32-bit number that `s` writes in decimal: one or more
/// digits, after at most one `+`, whose value fits.
pub open spec fn parsed_u32(s: Seq<char>) -> Option<u32> {
    if s.len() > 0 && s[0] == '+' {
        digits_u32(s.skip(1))
    } else {
        digits_u32(s)
    }
}

proof fn lemma_value_of_prefix(s: Seq<char>, n: int)
    requires
        0 <= n <= s.len(),
    ensures
        digits_value(s.take(n)) <= digits_value(s),
    decreases s.len(),
{
    if n == s.len() {
        assert(s.take(n) =~= s);
    } else {
        assert(s.drop_last().take(n) =~= s.take(n));
        lemma_value_of_prefix(s.drop_last(), n);
    }
}

/// Reads `s` as an unsigned 32-bit decimal number.
pub fn parse_u32(s: &str) -> (value: Option<u32>)
    ensures
        value == parsed_u32(s@),
{
    let len: usize = s.unicode_len();
    let start: usize = if len > 0 && s.get_char(0) == '+' {
        1
    } else {
        0
    };
    let ghost digits = if start == 1 {
        s@.skip(1)
    } else {
        s@
    };
    assert(s@.skip(0) =~= s@);
    if start == len {
        return None;
    }
    let mut value: u64 = 0;
    let mut i: usize = start;
    while i < len
        invariant
            start <= i <= len,
            len == s@.len(),
            start <= 1,
            digits == s@.skip(start as int),
            parsed_u32(s@) == digits_u32(digits),
            value <= u32::MAX,
            value == digits_value(digits.take(i - start)),
            forall|j: int| 0 <= j < i - start ==> is_digit(digits[j]),
        decreases len - i,
    {
        let c = s.get_char(i);
        assert(c == digits[i - start]);
        if c < '0' || c > '9' {
            assert(!is_digit(digits[i - start]));
            assert(digits_u32(digits) is None);
            return None;
        }
        let ghost prefix = digits.take(i - start + 1);
        assert(prefix.drop_last() =~= digits.take(i - start));
        assert(prefix.last() == c);
        value = value * 10 + (c as u64 - 48);
        if value > 0xFFFF_FFFF {
            proof {
                lemma_value_of_prefix(digits, i - start + 1);
            }
            return None;
        }
        i = i + 1;
    }
    assert(digits.take(len - start) =~= digits);
    Some(value as u32)
}

/// The text that the standard library's lossy UTF-8 decoding makes of
/// `bytes`.
pub uninterp spec fn utf8_lossy(bytes: Seq<u8>) -> Seq<char>;

/// Calls `String::from_utf8_lossy`. Its result is a function of the bytes;
/// on well-formed UTF-8 it is the encoded text.
#[verifier::external_body]
pub(crate) fn decode_utf8_lossy(bytes: &[u8]) -> (text: String)
    ensures
        text@ == utf8_lossy(bytes@),
        vstd::utf8::valid_utf8(bytes@) ==> text@ == vstd::utf8::decode_utf8(bytes@),
{
    String::from_utf8_lossy(bytes).into_owned()
}

/// Whether a UTF-16 code unit begins a surrogate pair.
pub open spec fn is_high_surrogate(unit: u16) -> bool {
    0xD800 <= unit < 0xDC00
}

/// Whether a UTF-16 code unit ends a surrogate pair.
pub open spec fn is_low_surrogate(unit: u16) -> bool {
    0xDC00 <= unit < 0xE000
}

/// The number of code units that the first character of a UTF-16 text takes
/// up; none when it is an unpaired surrogate.
pub open spec fn first_width(units: Seq<u16>) -> nat {
    if units.len() == 0 {
        0
    } else if !is_high_surrogate(units[0]) && !is_low_surrogate(units[0]) {
        1
    } else if is_high_surrogate(units[0]) && units.len() > 1 && is_low_surrogate(units[1]) {
        2
    } else {
        0
    }
}

/// The first character of a UTF-16 text that begins with one.
pub open spec fn first_char(units: Seq<u16>) -> char {
    if first_width(units) == 2 {
        (0x1_0000 + (units[0] - 0xD800) * 0x400 + (units[1] - 0xDC00)) as char
    } else {
        units[0] as char
    }
}

/// The text of a sequence of UTF-16 code units, with each unpaired surrogate
/// replaced by U+FFFD.
pub open spec fn utf16_lossy(units: Seq<u16>) -> Seq<char>
    decreases units.len(),
{
    if units.len() == 0 {
        seq![]
    } else if first_width(units) > 0 {
        seq![first_char(units)] + utf16_lossy(units.skip(first_width(units) as int))
    } else {
        seq!['\u{FFFD}'] + utf16_lossy(units.skip(1))
    }
}

/// Whether a sequence of UTF-16 code units has no unpaired surrogate.
pub open spec fn valid_utf16(units: Seq<u16>) -> bool
    decreases units.len(),
{
    units.len() == 0 || (first_width(units) > 0 && valid_utf16(
        units.skip(first_width(units) as int),
    ))
}

/// Calls `String::from_utf16_lossy`, which decodes the code units and
/// replaces each unpaired surrogate with U+FFFD.
#[verifier::external_body]
pub(crate) fn decode_utf16_lossy(units: &[u16]) -> (text: String)
    ensures
        text@ == utf16_lossy(units@),
{
    String::from_utf16_lossy(units)
}

/// The UTF-16 code units of a character: itself, or a surrogate pair.
pub open spec fn char_units(c: char) -> Seq<u16> {
    let code = c as int;
    if code < 0x1_0000 {
        seq![code as u16]
    } else {
        seq![
            (0xD800 + (code - 0x1_0000) / 0x400) as u16,
            (0xDC00 + (code - 0x1_0000) % 0x400) as u16,
        ]
    }
}

/// The UTF-16 code units of a text.
pub open spec fn utf16_units(s: Seq<char>) -> Seq<u16>
    decreases s.len(),
{
    if s.len() == 0 {
        seq![]
    } else {
        utf16_units(s.drop_last()) + char_units(s.last())
    }
}

/// The UTF-16 code units of a text.
pub fn encode_utf16(s: &str) -> (units: Vec<u16>)
    ensures
        units@ == utf16_units(s@),
{
    let len: usize = s.unicode_len();
    let mut units: Vec<u16> = Vec::new();
    let mut i: usize = 0;
    assert(s@.take(0) =~= Seq::<char>::empty());
    while i < len
        invariant
            len == s@.len(),
            i <= len,
            units@ == utf16_units(s@.take(i as int)),
        decreases len - i,
    {
        let c = s.get_char(i);
        let code: u32 = c as u32;
        let ghost before = units@;
        if code < 0x1_0000 {
            units.push(code as u16);
            assert(units@ =~= before + char_units(c));
        } else {
            let offset: u32 = code - 0x1_0000;
            units.push((0xD800 + offset / 0x400) as u16);
            units.push((0xDC00 + offset % 0x400) as u16);
            assert(units@ =~= before + char_units(c));
        }
        proof {
            let prefix = s@.take(i + 1);
            assert(prefix.drop_last() =~= s@.take(i as int));
            assert(prefix.last() == c);
        }
        i = i + 1;
    }
    assert(s@.take(i as int) =~= s@);
    units
}

proof fn lemma_units_of_concat(a: Seq<char>, b: Seq<char>)
    ensures
        utf16_units(a + b) == utf16_units(a) + utf16_units(b),
    decreases b.len(),
{
    if b.len() == 0 {
        assert(a + b =~= a);
        assert(utf16_units(a) + utf16_units(b) =~= utf16_units(a));
    } else {
        lemma_units_of_concat(a, b.drop_last());
        assert((a + b).drop_last() =~= a + b.drop_last());
        assert(utf16_units(a + b) =~= utf16_units(a) + utf16_units(b));
    }
}

/// UTF-16 without unpaired surrogates is encoded back to what it was decoded
/// from.
pub proof fn law_utf16_round_trips(units: Seq<u16>)
    requires
        valid_utf16(units),
    ensures
        utf16_units(utf16_lossy(units)) == units,
    decreases units.len(),
{
    if units.len() > 0 {
        let width = first_width(units) as int;
        let rest = units.skip(width);
        let c = first_char(units);
        law_utf16_round_trips(rest);
        lemma_units_of_concat(seq![c], utf16_lossy(rest));
        let one = seq![c];
        assert(one.drop_last() =~= Seq::<char>::empty());
        assert(utf16_units(one.drop_last()) =~= Seq::<u16>::empty());
        assert(utf16_units(one) =~= char_units(c));
        assert(char_units(c) =~= units.take(width));
        assert(units =~= units.take(width) + rest);
    } else {
        assert(units =~= Seq::<u16>::empty());
    }
}

/// The quoted and escaped form that the standard library's `Debug`
/// formatting gives a text.
pub uninterp spec fn debug_quoted(s: Seq<char>) -> Seq<char>;

/// Formats `s` through `Debug` for `str`. Its result is a function of the
/// text alone.
#[verifier::external_body]
pub(crate) fn quote_debug(s: &str) -> (quoted: String)
    ensures
        quoted@ == debug_quoted(s@),
{
    format!("{s:?}")
}

/// What precedes the first zero byte of a C string buffer, decoded as
/// UTF-8 with replacement of what is malformed.
pub open spec fn c_buffer_text(buf: Seq<u8>) -> Seq<char> {
    utf8_lossy(buf.take(run_before(buf, 0u8) as int))
}

/// The text of a C string buffer: everything up to the first zero byte, or
/// all of it when there is none.
pub fn text_of_c_buffer(buf: &[u8]) -> (text: String)
    ensures
        text@ == c_buffer_text(buf@),
{
    let len: usize = buf.len();
    let mut n: usize = 0;
    while n < len && buf[n] != 0
        invariant
            len == buf@.len(),
            n <= len,
            forall|j: int| 0 <= j < n ==> buf@[j] != 0u8,
        decreases len - n,
    {
        n = n + 1;
    }
    proof {
        lemma_run_before(buf@, 0u8, n as nat);
    }
    let head = vstd::slice::slice_subrange(buf, 0, n);
    assert(head@ =~= buf@.take(n as int));
    decode_utf8_lossy(head)
}

/// The text for a vendor library's error code: what the library itself
/// says of it, or the library's label and the code when it says nothing.
pub open spec fn error_text(said: Option<Seq<u8>>, label: Seq<char>, code: i32) -> Seq<char> {
    match said {
        Some(raw) => utf8_lossy(raw),
        None => label + " error "@ + signed_decimal(code as int),
    }
}

/// The bytes of an optional C string.
pub open spec fn raw_text(raw: Option<&[u8]>) -> Option<Seq<u8>> {
    match raw {
        Some(bytes) => Some(bytes@),
        None => None,
    }
}

/// Renders a vendor library's error code. `said` is the library's own text
/// for it, if it has one.
pub fn describe_error(said: Option<&[u8]>, label: &str, code: i32) -> (text: String)
    ensures
        text@ == error_text(raw_text(said), label@, code),
{
    match said {
        Some(raw) => decode_utf8_lossy(raw),
        None => {
            let mut out = String::new();
            out.append(label);
            out.append(" error ");
            push_signed(&mut out, code);
            assert(out@ =~= label@ + " error "@ + signed_decimal(code as int));
            out
        },
    }
}

proof fn lemma_decimal_is_digits(n: nat)
    ensures
        decimal(n).len() > 0,
        forall|i: int| 0 <= i < decimal(n).len() ==> is_digit(decimal(n)[i]),
        digits_value(decimal(n)) == n,
    decreases n,
{
    if n < 10 {
        assert(decimal(n).drop_last() =~= Seq::<char>::empty());
        assert(digits_value(Seq::<char>::empty()) == 0);
    } else {
        lemma_decimal_is_digits(n / 10);
        assert(decimal(n).drop_last() =~= decimal(n / 10));
    }
}

/// A number written in decimal reads back as itself.
pub proof fn law_decimal_reads_back(n: u32)
    ensures
        parsed_u32(decimal(n as nat)) == Some(n),
{
    lemma_decimal_is_digits(n as nat);
    let s = decimal(n as nat);
    assert(is_digit(s[0]));
    assert(s[0] != '+');
}

} // verus!
