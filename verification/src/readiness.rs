//! The readiness line a backend prints once it accepts connections:
//! the marker `SERVER_PORT=`, then a 16-bit unsigned decimal number that
//! may be surrounded by whitespace.

use vstd::prelude::*;
use vstd::utf8::{encode_utf8, is_ascii_chars, is_ascii_chars_encode_utf8};

verus! {

/// The marker a readiness line starts with.
pub open spec fn ready_prefix() -> Seq<char> {
    "SERVER_PORT="@
}

/// The bytes of the marker: its characters in ASCII.
pub open spec fn ready_prefix_bytes() -> Seq<u8> {
    seq![
        0x53u8,
        0x45u8,
        0x52u8,
        0x56u8,
        0x45u8,
        0x52u8,
        0x5Fu8,
        0x50u8,
        0x4Fu8,
        0x52u8,
        0x54u8,
        0x3Du8,
    ]
}

/// Whether `c` is whitespace as Unicode defines it (`White_Space`).
pub open spec fn white_space(c: char) -> bool {
    let u = c as u32;
    ||| 0x09 <= u <= 0x0D
    ||| u == 0x20
    ||| u == 0x85
    ||| u == 0xA0
    ||| u == 0x1680
    ||| 0x2000 <= u <= 0x200A
    ||| u == 0x2028
    ||| u == 0x2029
    ||| u == 0x202F
    ||| u == 0x205F
    ||| u == 0x3000
}

/// Whether every character of `s` is whitespace.
pub open spec fn all_white_space(s: Seq<char>) -> bool {
    forall|i: int| 0 <= i < s.len() ==> white_space(#[trigger] s[i])
}

/// `s` without its leading whitespace.
pub open spec fn trim_start(s: Seq<char>) -> Seq<char>
    decreases s.len(),
{
    if s.len() > 0 && white_space(s[0]) {
        trim_start(s.drop_first())
    } else {
        s
    }
}

/// `s` without its trailing whitespace.
pub open spec fn trim_end(s: Seq<char>) -> Seq<char>
    decreases s.len(),
{
    if s.len() > 0 && white_space(s.last()) {
        trim_end(s.drop_last())
    } else {
        s
    }
}

/// `s` without its leading and trailing whitespace.
pub open spec fn trim(s: Seq<char>) -> Seq<char> {
    trim_end(trim_start(s))
}

/// Whether `c` is one of the ASCII digits `0` to `9`.
pub open spec fn decimal_digit(c: char) -> bool {
    0x30 <= c as u32 <= 0x39
}

/// Whether `s` consists of ASCII digits only.
pub open spec fn all_decimal_digits(s: Seq<char>) -> bool {
    forall|i: int| 0 <= i < s.len() ==> decimal_digit(#[trigger] s[i])
}

/// The number a digit stands for.
pub open spec fn digit_value(c: char) -> nat {
    (c as u32 - 0x30) as nat
}

/// The number that the digits of `s` write in base ten.
pub open spec fn decimal_value(s: Seq<char>) -> nat
    decreases s.len(),
{
    if s.len() == 0 {
        0
    } else {
        10 * decimal_value(s.drop_last()) + digit_value(s.last())
    }
}

/// `s` without the one plus sign that may precede a number.
pub open spec fn without_sign(s: Seq<char>) -> Seq<char> {
    if s.len() > 0 && s[0] == '+' {
        s.drop_first()
    } else {
        s
    }
}

/// The 16-bit unsigned number that `s` writes: an optional plus sign, then at
/// least one ASCII digit and nothing else, the value no larger than 65535.
/// Leading zeros are accepted. Anything else is no number.
pub open spec fn parse_u16(s: Seq<char>) -> Option<u16> {
    let digits = without_sign(s);
    if digits.len() > 0 && all_decimal_digits(digits) && decimal_value(digits) <= u16::MAX {
        Some(decimal_value(digits) as u16)
    } else {
        None
    }
}

/// The port that the line `text` announces, if it is a readiness line: it
/// starts with the marker, and what follows the marker is, once trimmed, a
/// 16-bit unsigned number.
pub open spec fn ready_port(text: Seq<char>) -> Option<u16> {
    if ready_prefix().is_prefix_of(text) {
        parse_u16(trim(text.skip(ready_prefix().len() as int)))
    } else {
        None
    }
}

/// The shortest decimal writing of `n`.
pub open spec fn decimal_digits(n: nat) -> Seq<char>
    decreases n,
{
    if n < 10 {
        seq![(0x30 + n) as u8 as char]
    } else {
        decimal_digits(n / 10).push((0x30 + n % 10) as u8 as char)
    }
}

/// The characters of `text`, in order.
fn chars_of(text: &str) -> (chars: Vec<char>)
    ensures
        chars@ == text@,
{
    let mut chars: Vec<char> = Vec::new();
    for c in it: text.chars()
        invariant
            it.seq() == text@,
            chars@ == text@.take(it.index() as int),
    {
        chars.push(c);
    }
    chars
}

/// Whether `c` is whitespace.
fn is_white_space(c: char) -> (b: bool)
    ensures
        b == white_space(c),
{
    let u: u32 = c as u32;
    (0x09 <= u && u <= 0x0D) || u == 0x20 || u == 0x85 || u == 0xA0 || u == 0x1680 || (0x2000 <= u
        && u <= 0x200A) || u == 0x2028 || u == 0x2029 || u == 0x202F || u == 0x205F || u == 0x3000
}

/// Whether `text` begins with `prefix`.
fn starts_with(text: &Vec<char>, prefix: &Vec<char>) -> (b: bool)
    ensures
        b == prefix@.is_prefix_of(text@),
{
    if text.len() < prefix.len() {
        return false;
    }
    let mut i: usize = 0;
    while i < prefix.len()
        invariant
            i <= prefix.len() <= text.len(),
            forall|k: int| 0 <= k < i ==> text@[k] == prefix@[k],
        decreases prefix.len() - i,
    {
        if text[i] != prefix[i] {
            return false;
        }
        i += 1;
    }
    true
}

/// The bounds of what is left of `chars[from..]` once it is trimmed.
fn trimmed_range(chars: &Vec<char>, from: usize) -> (range: (usize, usize))
    requires
        from <= chars.len(),
    ensures
        from <= range.0 <= range.1 <= chars.len(),
        chars@.subrange(range.0 as int, range.1 as int) == trim(chars@.skip(from as int)),
{
    let mut start: usize = from;
    while start < chars.len() && is_white_space(chars[start])
        invariant
            from <= start <= chars.len(),
            trim_start(chars@.skip(from as int)) == trim_start(chars@.skip(start as int)),
        decreases chars.len() - start,
    {
        assert(chars@.skip(start as int).drop_first() =~= chars@.skip(start as int + 1));
        start += 1;
    }
    let mut end: usize = chars.len();
    while end > start && is_white_space(chars[end - 1])
        invariant
            start <= end <= chars.len(),
            trim(chars@.skip(from as int)) == trim_end(chars@.subrange(start as int, end as int)),
        decreases end - start,
    {
        assert(chars@.subrange(start as int, end as int).drop_last() =~= chars@.subrange(
            start as int,
            end as int - 1,
        ));
        end -= 1;
    }
    (start, end)
}

/// Dropping digits from the end of a number does not make it larger.
proof fn lemma_decimal_value_of_prefix(s: Seq<char>, k: int)
    requires
        0 <= k <= s.len(),
    ensures
        decimal_value(s.take(k)) <= decimal_value(s),
    decreases s.len() - k,
{
    if k == s.len() {
        assert(s.take(k) =~= s);
    } else {
        lemma_decimal_value_of_prefix(s.drop_last(), k);
        assert(s.drop_last().take(k) =~= s.take(k));
    }
}

/// The number written in `chars[start..end]`, if it is one.
fn parse_range(chars: &Vec<char>, start: usize, end: usize) -> (value: Option<u16>)
    requires
        start <= end <= chars.len(),
    ensures
        value == parse_u16(chars@.subrange(start as int, end as int)),
{
    let mut i: usize = start;
    if i < end && chars[i] == '+' {
        i += 1;
    }
    let first: usize = i;
    let ghost digits = chars@.subrange(first as int, end as int);
    if i == end {
        return None;
    }
    let mut value: u32 = 0;
    while i < end
        invariant
            start <= first <= i <= end <= chars.len(),
            digits == chars@.subrange(first as int, end as int),
            digits == without_sign(chars@.subrange(start as int, end as int)),
            all_decimal_digits(digits.take(i - first)),
            value == decimal_value(digits.take(i - first)),
            value <= u16::MAX,
        decreases end - i,
    {
        let u: u32 = chars[i] as u32;
        let ghost seen = digits.take(i - first + 1);
        assert(seen.drop_last() =~= digits.take(i - first));
        if u < 0x30 || u > 0x39 {
            assert(!decimal_digit(digits[i - first]));
            return None;
        }
        value = value * 10 + (u - 0x30);
        if value > 0xFFFF {
            proof {
                lemma_decimal_value_of_prefix(digits, i - first + 1);
            }
            return None;
        }
        i += 1;
    }
    assert(digits.take(i - first) =~= digits);
    Some(value as u16)
}

/// Trimming the start removes a run of whitespace and stops at the first
/// character that is none.
pub proof fn lemma_trim_start_shape(s: Seq<char>) -> (k: int)
    ensures
        0 <= k <= s.len(),
        all_white_space(s.take(k)),
        trim_start(s) == s.skip(k),
        k < s.len() ==> !white_space(s[k]),
    decreases s.len(),
{
    if s.len() > 0 && white_space(s[0]) {
        let k = lemma_trim_start_shape(s.drop_first());
        assert forall|i: int| 0 <= i < k + 1 implies white_space(#[trigger] s.take(k + 1)[i]) by {
            if i > 0 {
                assert(s.take(k + 1)[i] == s.drop_first().take(k)[i - 1]);
            }
        }
        k + 1
    } else {
        0
    }
}

/// Trimming the end removes a run of whitespace and stops at the last
/// character that is none.
pub proof fn lemma_trim_end_shape(s: Seq<char>) -> (k: int)
    ensures
        0 <= k <= s.len(),
        all_white_space(s.skip(k)),
        trim_end(s) == s.take(k),
        k > 0 ==> !white_space(s[k - 1]),
    decreases s.len(),
{
    if s.len() > 0 && white_space(s.last()) {
        let k = lemma_trim_end_shape(s.drop_last());
        assert forall|i: int| 0 <= i < s.len() - k implies white_space(#[trigger] s.skip(k)[i]) by {
            if i < s.len() - k - 1 {
                assert(s.skip(k)[i] == s.drop_last().skip(k)[i]);
            }
        }
        k
    } else {
        s.len() as int
    }
}

/// What trimming leaves neither starts nor ends with whitespace, and it is
/// what stands between a run of whitespace at the start of `s` and one at its
/// end.
pub proof fn lemma_trim_shape(s: Seq<char>) -> (bounds: (int, int))
    ensures
        0 <= bounds.0 <= bounds.1 <= s.len(),
        trim(s) == s.subrange(bounds.0, bounds.1),
        all_white_space(s.take(bounds.0)),
        all_white_space(s.skip(bounds.1)),
        trim(s).len() > 0 ==> !white_space(trim(s)[0]) && !white_space(trim(s).last()),
{
    let a = lemma_trim_start_shape(s);
    let rest = s.skip(a);
    let b = lemma_trim_end_shape(rest);
    assert(rest.skip(b) =~= s.skip(a + b));
    (a, a + b)
}

/// Whitespace around a text that neither starts nor ends with whitespace is
/// exactly what trimming removes.
pub proof fn lemma_trim_padded(left: Seq<char>, core: Seq<char>, right: Seq<char>)
    requires
        all_white_space(left),
        all_white_space(right),
        core.len() > 0 ==> !white_space(core[0]) && !white_space(core.last()),
    ensures
        trim(left + core + right) == core,
{
    lemma_trim_start_padded(left, core + right);
    assert(left + core + right =~= left + (core + right));
    if core.len() > 0 {
        lemma_trim_end_padded(core, right);
    } else {
        lemma_trim_start_padded(right, Seq::<char>::empty());
    }
}

/// Leading whitespace does not change what trimming the start leaves.
proof fn lemma_trim_start_padded(left: Seq<char>, rest: Seq<char>)
    requires
        all_white_space(left),
    ensures
        trim_start(left + rest) == trim_start(rest),
    decreases left.len(),
{
    if left.len() > 0 {
        assert((left + rest).drop_first() =~= left.drop_first() + rest);
        assert(all_white_space(left.drop_first()));
        lemma_trim_start_padded(left.drop_first(), rest);
    }
}

/// Trailing whitespace after a text that does not end with whitespace is
/// what trimming the end removes.
proof fn lemma_trim_end_padded(core: Seq<char>, right: Seq<char>)
    requires
        all_white_space(right),
        core.len() > 0 ==> !white_space(core.last()),
    ensures
        trim_end(core + right) == core,
    decreases right.len(),
{
    if right.len() > 0 {
        assert((core + right).drop_last() =~= core + right.drop_last());
        assert(all_white_space(right.drop_last()));
        lemma_trim_end_padded(core, right.drop_last());
    }
}

/// The shortest decimal writing of a number is made of digits and writes
/// that number.
pub proof fn lemma_decimal_digits(n: nat)
    ensures
        decimal_digits(n).len() > 0,
        all_decimal_digits(decimal_digits(n)),
        decimal_value(decimal_digits(n)) == n,
    decreases n,
{
    if n < 10 {
        let s = decimal_digits(n);
        assert(decimal_value(s.drop_last()) == 0);
    } else {
        lemma_decimal_digits(n / 10);
        let s = decimal_digits(n);
        assert(s.drop_last() =~= decimal_digits(n / 10));
        assert(all_decimal_digits(s));
    }
}

/// Every 16-bit port, written in decimal, is read back as that port.
pub proof fn lemma_parse_u16_decimal_digits(port: u16)
    ensures
        parse_u16(decimal_digits(port as nat)) == Some(port),
{
    lemma_decimal_digits(port as nat);
}

/// Whether `text` is a readiness line for `port`: the marker, then a number
/// that writes `port`, with nothing but whitespace before and after it.
pub open spec fn is_ready_line(text: Seq<char>, port: u16) -> bool {
    exists|left: Seq<char>, number: Seq<char>, right: Seq<char>|
        all_white_space(left) && all_white_space(right) && parse_u16(number) == Some(port)
            && #[trigger] (ready_prefix() + left + number + right) == text
}

/// A number starts and ends with a character that is no whitespace.
proof fn lemma_number_has_no_margin(number: Seq<char>)
    requires
        parse_u16(number) is Some,
    ensures
        number.len() > 0,
        !white_space(number[0]),
        !white_space(number.last()),
{
}

/// A line announces `port` exactly if it is a readiness line for `port`.
pub proof fn lemma_ready_port_is_ready_line(text: Seq<char>, port: u16)
    ensures
        ready_port(text) == Some(port) <==> is_ready_line(text, port),
{
    let marker = ready_prefix();
    if is_ready_line(text, port) {
        let (left, number, right) = choose|left: Seq<char>, number: Seq<char>, right: Seq<char>|
            all_white_space(left) && all_white_space(right) && parse_u16(number) == Some(port)
                && #[trigger] (ready_prefix() + left + number + right) == text;
        lemma_number_has_no_margin(number);
        lemma_trim_padded(left, number, right);
        assert(text.skip(marker.len() as int) =~= left + number + right);
    }
    if ready_port(text) == Some(port) {
        let rest = text.skip(marker.len() as int);
        let (a, b) = lemma_trim_shape(rest);
        let left = rest.take(a);
        let number = rest.subrange(a, b);
        let right = rest.skip(b);
        assert(marker + left + number + right =~= text);
    }
}

/// A line made of the marker and a port in decimal, with any whitespace
/// before and after the number, announces exactly that port.
pub proof fn lemma_ready_line_announces(port: u16, left: Seq<char>, right: Seq<char>)
    requires
        all_white_space(left),
        all_white_space(right),
    ensures
        ready_port(ready_prefix() + left + decimal_digits(port as nat) + right) == Some(port),
{
    let text = ready_prefix() + left + decimal_digits(port as nat) + right;
    lemma_parse_u16_decimal_digits(port);
    lemma_ready_port_is_ready_line(text, port);
}

/// The marker is encoded as its bytes.
pub proof fn lemma_ready_prefix_bytes()
    ensures
        encode_utf8(ready_prefix()) == ready_prefix_bytes(),
{
    reveal_strlit("SERVER_PORT=");
    let marker = ready_prefix();
    assert(is_ascii_chars(marker));
    is_ascii_chars_encode_utf8(marker);
    assert(encode_utf8(marker) =~= ready_prefix_bytes());
}

/// A line that does not start with the marker announces no port.
pub proof fn lemma_other_line_announces_nothing(text: Seq<char>)
    requires
        !ready_prefix().is_prefix_of(text),
    ensures
        ready_port(text) is None,
{
}

/// Reads the line `text` as a readiness line and returns the port it
/// announces, or `None` where it is no readiness line.
pub fn parse_ready_line(text: &str) -> (port: Option<u16>)
    ensures
        port == ready_port(text@),
{
    let chars = chars_of(text);
    let prefix = chars_of("SERVER_PORT=");
    if !starts_with(&chars, &prefix) {
        return None;
    }
    let (start, end) = trimmed_range(&chars, prefix.len());
    parse_range(&chars, start, end)
}

} // verus!
