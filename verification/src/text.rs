//! Text: trimming, searching, joining, numbers, and the way to and from bytes.
//!
//! Text is modelled by the sequence of its characters.

use vstd::prelude::*;
use vstd::string::*;
use vstd::utf8::*;
use zeroize::Zeroize;

verus! {

/// The text of an optional string.
pub open spec fn text_of(s: Option<String>) -> Option<Seq<char>> {
    match s {
        Some(s) => Some(s@),
        None => None,
    }
}

/// A text, or the message why there is none.
pub open spec fn told(r: Result<String, String>) -> Result<Seq<char>, Seq<char>> {
    match r {
        Ok(s) => Ok(s@),
        Err(e) => Err(e@),
    }
}

// --- whitespace -------------------------------------------------------------

/// The characters with the Unicode property `White_Space`.
pub open spec fn is_whitespace(c: char) -> bool {
    let n = c as u32;
    ||| 0x9 <= n <= 0xd
    ||| n == 0x20
    ||| n == 0x85
    ||| n == 0xa0
    ||| n == 0x1680
    ||| 0x2000 <= n <= 0x200a
    ||| n == 0x2028
    ||| n == 0x2029
    ||| n == 0x202f
    ||| n == 0x205f
    ||| n == 0x3000
}

/// Whether `c` is whitespace.
#[verifier::when_used_as_spec(is_whitespace)]
pub fn is_whitespace_char(c: char) -> (r: bool)
    ensures
        r == is_whitespace(c),
{
    let n: u32 = c as u32;
    (0x9 <= n && n <= 0xd) || n == 0x20 || n == 0x85 || n == 0xa0 || n == 0x1680 || (0x2000 <= n
        && n <= 0x200a) || n == 0x2028 || n == 0x2029 || n == 0x202f || n == 0x205f || n == 0x3000
}

/// Whether `c` ends a line.
pub open spec fn is_line_end(c: char) -> bool {
    c == '\n' || c == '\r'
}

/// `s` without the characters at its front that satisfy `drop`.
pub open spec fn strip_front(s: Seq<char>, drop: spec_fn(char) -> bool) -> Seq<char>
    decreases s.len(),
{
    if s.len() > 0 && drop(s[0]) {
        strip_front(s.drop_first(), drop)
    } else {
        s
    }
}

/// `s` without the characters at its back that satisfy `drop`.
pub open spec fn strip_back(s: Seq<char>, drop: spec_fn(char) -> bool) -> Seq<char>
    decreases s.len(),
{
    if s.len() > 0 && drop(s.last()) {
        strip_back(s.drop_last(), drop)
    } else {
        s
    }
}

/// `s` without whitespace at either end.
pub open spec fn trimmed(s: Seq<char>) -> Seq<char> {
    strip_back(strip_front(s, |c: char| is_whitespace(c)), |c: char| is_whitespace(c))
}

/// `s` without the line ends at its back.
pub open spec fn without_line_end(s: Seq<char>) -> Seq<char> {
    strip_back(s, |c: char| is_line_end(c))
}

/// The characters of `s`, one by one.
pub fn chars_of(s: &str) -> (v: Vec<char>)
    ensures
        v@ == s@,
{
    let mut v: Vec<char> = Vec::with_capacity(s.unicode_len());
    for c in it: s.chars()
        invariant
            v@ == it.seq().take(it.index() as int),
            it.seq() == s@,
    {
        v.push(c);
    }
    v
}

/// `s` without whitespace at either end. It may be a secret, so no other copy of
/// it is left behind.
pub fn trim(s: &str) -> (r: String)
    ensures
        r@ == trimmed(s@),
{
    let ghost ws = |c: char| is_whitespace(c);
    let mut chars: Vec<char> = chars_of(s);
    let mut start: usize = 0;
    assert(s@.subrange(0, s@.len() as int) == s@);
    while start < chars.len() && is_whitespace_char(chars[start])
        invariant
            chars@ == s@,
            ws == (|c: char| is_whitespace(c)),
            start <= chars.len(),
            strip_front(s@, ws) == strip_front(s@.subrange(start as int, s@.len() as int), ws),
        decreases chars.len() - start,
    {
        assert(s@.subrange(start as int, s@.len() as int).drop_first() == s@.subrange(
            start + 1,
            s@.len() as int,
        ));
        start = start + 1;
    }
    let ghost front = strip_front(s@, ws);
    let mut end: usize = chars.len();
    while start < end && is_whitespace_char(chars[end - 1])
        invariant
            chars@ == s@,
            ws == (|c: char| is_whitespace(c)),
            start <= end <= chars.len(),
            strip_back(front, ws) == strip_back(s@.subrange(start as int, end as int), ws),
        decreases end - start,
    {
        assert(s@.subrange(start as int, end as int).drop_last() == s@.subrange(
            start as int,
            end - 1,
        ));
        end = end - 1;
    }
    wipe_chars(&mut chars);
    s.substring_char(start, end).to_owned()
}

/// `s` without the line ends at its back. It may be a secret, so no other copy of
/// it is left behind.
pub fn trim_line_end(s: &str) -> (r: String)
    ensures
        r@ == without_line_end(s@),
{
    let ghost eol = |c: char| is_line_end(c);
    let mut chars: Vec<char> = chars_of(s);
    let mut end: usize = chars.len();
    assert(s@.subrange(0, s@.len() as int) == s@);
    while 0 < end && (chars[end - 1] == '\n' || chars[end - 1] == '\r')
        invariant
            chars@ == s@,
            eol == (|c: char| is_line_end(c)),
            end <= chars.len(),
            strip_back(s@, eol) == strip_back(s@.subrange(0, end as int), eol),
        decreases end,
    {
        assert(s@.subrange(0, end as int).drop_last() == s@.subrange(0, end - 1));
        end = end - 1;
    }
    wipe_chars(&mut chars);
    s.substring_char(0, end).to_owned()
}

// --- comparing and searching ------------------------------------------------

/// Whether two byte strings are the same.
pub fn same_bytes(a: &[u8], b: &[u8]) -> (r: bool)
    ensures
        r == (a@ == b@),
{
    if a.len() != b.len() {
        return false;
    }
    let mut i: usize = 0;
    while i < a.len()
        invariant
            a@.len() == b@.len(),
            i <= a@.len(),
            forall|j: int| 0 <= j < i ==> a@[j] == b@[j],
        decreases a@.len() - i,
    {
        if a[i] != b[i] {
            return false;
        }
        i = i + 1;
    }
    assert(a@ =~= b@);
    true
}

/// Whether two texts are the same.
pub fn same_text(a: &str, b: &str) -> (r: bool)
    ensures
        r == (a@ == b@),
{
    proof {
        encode_utf8_decode_utf8(a@);
        encode_utf8_decode_utf8(b@);
    }
    same_bytes(a.as_bytes(), b.as_bytes())
}

/// Whether `s` begins with `prefix`.
pub open spec fn has_prefix(s: Seq<char>, prefix: Seq<char>) -> bool {
    prefix.len() <= s.len() && s.take(prefix.len() as int) == prefix
}

/// Whether `s` ends with `suffix`.
pub open spec fn has_suffix(s: Seq<char>, suffix: Seq<char>) -> bool {
    suffix.len() <= s.len() && s.skip(s.len() - suffix.len()) == suffix
}

/// Whether `s` begins with `prefix`.
pub fn starts_with(s: &str, prefix: &str) -> (r: bool)
    ensures
        r == has_prefix(s@, prefix@),
{
    let n: usize = prefix.unicode_len();
    if n > s.unicode_len() {
        return false;
    }
    assert(s@.subrange(0, n as int) == s@.take(n as int));
    same_text(s.substring_char(0, n), prefix)
}

/// Whether `s` ends with `suffix`.
pub fn ends_with(s: &str, suffix: &str) -> (r: bool)
    ensures
        r == has_suffix(s@, suffix@),
{
    let n: usize = suffix.unicode_len();
    let len: usize = s.unicode_len();
    if n > len {
        return false;
    }
    assert(s@.subrange(len - n, len as int) == s@.skip(len - n));
    same_text(s.substring_char(len - n, len), suffix)
}

// --- joining ----------------------------------------------------------------

/// `a` followed by `b`.
pub fn cat2(a: &str, b: &str) -> (r: String)
    ensures
        r@ == a@ + b@,
{
    let mut r: String = a.to_owned();
    r.append(b);
    r
}

/// `a`, `b` and `c` in a row.
pub fn cat3(a: &str, b: &str, c: &str) -> (r: String)
    ensures
        r@ == a@ + b@ + c@,
{
    let mut r: String = cat2(a, b);
    r.append(c);
    r
}

/// `a`, `b`, `c` and `d` in a row.
pub fn cat4(a: &str, b: &str, c: &str, d: &str) -> (r: String)
    ensures
        r@ == a@ + b@ + c@ + d@,
{
    let mut r: String = cat3(a, b, c);
    r.append(d);
    r
}

/// `a`, `b`, `c`, `d` and `e` in a row.
pub fn cat5(a: &str, b: &str, c: &str, d: &str, e: &str) -> (r: String)
    ensures
        r@ == a@ + b@ + c@ + d@ + e@,
{
    let mut r: String = cat4(a, b, c, d);
    r.append(e);
    r
}

/// The texts of `parts` with `sep` between each two of them.
pub open spec fn joined(parts: Seq<Seq<char>>, sep: Seq<char>) -> Seq<char>
    decreases parts.len(),
{
    if parts.len() == 0 {
        Seq::empty()
    } else if parts.len() == 1 {
        parts[0]
    } else {
        joined(parts.drop_last(), sep) + sep + parts.last()
    }
}

/// The texts of a list of strings.
pub open spec fn texts(v: Seq<String>) -> Seq<Seq<char>> {
    v.map_values(|s: String| s@)
}

/// The strings of `parts` with `sep` between each two of them.
pub fn join(parts: &Vec<String>, sep: &str) -> (r: String)
    ensures
        r@ == joined(texts(parts@), sep@),
{
    let mut r: String = String::new();
    let ghost all = texts(parts@);
    let mut i: usize = 0;
    while i < parts.len()
        invariant
            i <= parts.len(),
            all == texts(parts@),
            r@ == joined(all.take(i as int), sep@),
        decreases parts.len() - i,
    {
        assert(all.take(i + 1).drop_last() == all.take(i as int));
        if i > 0 {
            r.append(sep);
        }
        r.append(parts[i].as_str());
        i = i + 1;
    }
    assert(all.take(all.len() as int) == all);
    r
}

// --- numbers ----------------------------------------------------------------

/// The digit `d` (below ten) as a character.
pub open spec fn digit(d: nat) -> char {
    (48 + d) as char
}

/// `n` written in base `base`, most significant digit first.
pub open spec fn numeral(n: nat, base: nat) -> Seq<char>
    decreases n,
{
    if base < 2 || n < base {
        seq![digit(n)]
    } else {
        proof {
            vstd::arithmetic::div_mod::lemma_div_decreases(n as int, base as int);
        }
        numeral(n / base, base).push(digit(n % base))
    }
}

/// `n` in decimal.
pub open spec fn decimal(n: nat) -> Seq<char> {
    numeral(n, 10)
}

/// `n` written in base `base`, most significant digit first.
fn write_number(n: u64, base: u64) -> (r: String)
    requires
        2 <= base <= 10,
    ensures
        r@ == numeral(n as nat, base as nat),
    decreases n,
{
    let digits = "0123456789";
    proof {
        reveal_strlit("0123456789");
        vstd::arithmetic::div_mod::lemma_mod_bound(n as int, base as int);
    }
    if n < base {
        let d = digits.substring_char(n as usize, n as usize + 1);
        assert(d@ =~= seq![digit(n as nat)]);
        d.to_owned()
    } else {
        proof {
            vstd::arithmetic::div_mod::lemma_div_decreases(n as int, base as int);
        }
        let mut r: String = write_number(n / base, base);
        let low: usize = (n % base) as usize;
        let d = digits.substring_char(low, low + 1);
        assert(d@ =~= seq![digit(low as nat)]);
        r.append(d);
        assert(r@ =~= numeral(n as nat / base as nat, base as nat).push(digit(low as nat)));
        r
    }
}

/// `n` in decimal.
pub fn decimal_text(n: u64) -> (r: String)
    ensures
        r@ == decimal(n as nat),
{
    write_number(n, 10)
}

/// `n` in octal.
pub fn octal_text(n: u64) -> (r: String)
    ensures
        r@ == numeral(n as nat, 8),
{
    write_number(n, 8)
}

// --- bytes ------------------------------------------------------------------

/// What `String::from_utf8` says is wrong with a byte string.
pub uninterp spec fn utf8_error(bytes: Seq<u8>) -> Seq<char>;

/// Wraps `String::from_utf8`: the text that the bytes encode, or what is wrong
/// with them where they are not valid UTF-8.
#[verifier::external_body]
pub(crate) fn from_utf8(bytes: Vec<u8>) -> (r: Result<String, String>)
    ensures
        r is Ok <==> valid_utf8(bytes@),
        r matches Ok(s) ==> s@ == decode_utf8(bytes@),
        r matches Err(e) ==> e@ == utf8_error(bytes@),
{
    String::from_utf8(bytes).map_err(|e| e.to_string())
}

/// What `String::from_utf8_lossy` makes of a byte string.
pub uninterp spec fn utf8_lossy(bytes: Seq<u8>) -> Seq<char>;

/// Wraps `String::from_utf8_lossy`: the text that the bytes encode where they
/// are valid UTF-8; what stands in for invalid bytes is left to the name.
#[verifier::external_body]
pub(crate) fn from_utf8_lossy(bytes: &[u8]) -> (r: String)
    ensures
        r@ == utf8_lossy(bytes@),
        valid_utf8(bytes@) ==> r@ == decode_utf8(bytes@),
{
    String::from_utf8_lossy(bytes).into_owned()
}

/// Wraps `Zeroize::zeroize` on a string: its bytes are overwritten and the
/// string is left empty.
#[verifier::external_body]
pub(crate) fn wipe_text(text: &mut String)
    ensures
        final(text)@ == Seq::<char>::empty(),
{
    text.zeroize();
}

/// Wraps `Zeroize::zeroize` on a byte vector: its bytes are overwritten and the
/// vector is left empty.
#[verifier::external_body]
pub(crate) fn wipe_bytes(bytes: &mut Vec<u8>)
    ensures
        final(bytes)@ == Seq::<u8>::empty(),
{
    bytes.zeroize();
}

/// Wraps `Zeroize::zeroize` on a vector of characters: they are overwritten and
/// the vector is left empty.
#[verifier::external_body]
fn wipe_chars(chars: &mut Vec<char>)
    ensures
        final(chars)@ == Seq::<char>::empty(),
{
    chars.zeroize();
}

// --- laws -------------------------------------------------------------------

/// Among the characters of ASCII, the space, the tab and the ends of lines and
/// pages are whitespace, and no others; a letter or a digit never is. Beyond
/// ASCII the spaces of typography and the ends of lines and paragraphs are, up to
/// the ideographic space, and nothing after it.
pub proof fn whitespace_is_what_unicode_says(c: char)
    ensures
        (c as u32) < 0x80 ==> (is_whitespace(c) <==> c == ' ' || c == '\t' || c == '\n' || c
            == '\r' || c as u32 == 0xb || c as u32 == 0xc),
        0x80 <= c as u32 <= 0xff ==> (is_whitespace(c) <==> c == '\u{85}' || c == '\u{a0}'),
        c == '\u{1680}' || '\u{2000}' as u32 <= c as u32 <= '\u{200a}' as u32 ==> is_whitespace(c),
        c == '\u{2028}' || c == '\u{2029}' || c == '\u{202f}' || c == '\u{205f}' || c == '\u{3000}'
            ==> is_whitespace(c),
        c as u32 > 0x3000 ==> !is_whitespace(c),
{
}

/// What satisfies `drop` throughout is stripped off the front, and the rest is
/// left, where it does not go on like that.
proof fn front_is_stripped(head: Seq<char>, rest: Seq<char>, drop: spec_fn(char) -> bool)
    requires
        forall|i: int| 0 <= i < head.len() ==> drop(#[trigger] head[i]),
        rest.len() > 0 ==> !drop(rest[0]),
    ensures
        strip_front(head + rest, drop) == rest,
    decreases head.len(),
{
    let s = head + rest;
    if head.len() == 0 {
        assert(s =~= rest);
    } else {
        assert(s[0] == head[0]);
        assert(s.drop_first() =~= head.drop_first() + rest);
        front_is_stripped(head.drop_first(), rest, drop);
    }
}

/// What satisfies `drop` throughout is stripped off the back, and the rest is
/// left, where it does not end like that.
proof fn back_is_stripped(rest: Seq<char>, tail: Seq<char>, drop: spec_fn(char) -> bool)
    requires
        forall|i: int| 0 <= i < tail.len() ==> drop(#[trigger] tail[i]),
        rest.len() > 0 ==> !drop(rest.last()),
    ensures
        strip_back(rest + tail, drop) == rest,
    decreases tail.len(),
{
    let s = rest + tail;
    if tail.len() == 0 {
        assert(s =~= rest);
    } else {
        assert(s.last() == tail.last());
        assert(s.drop_last() =~= rest + tail.drop_last());
        back_is_stripped(rest, tail.drop_last(), drop);
    }
}

/// Trimming takes the whitespace off both ends of a text, however much there is,
/// and nothing else: what stands between is left as it is.
pub proof fn trimming_takes_whitespace_alone(head: Seq<char>, middle: Seq<char>, tail: Seq<char>)
    requires
        forall|i: int| 0 <= i < head.len() ==> is_whitespace(#[trigger] head[i]),
        forall|i: int| 0 <= i < tail.len() ==> is_whitespace(#[trigger] tail[i]),
        middle.len() > 0 ==> !is_whitespace(middle[0]) && !is_whitespace(middle.last()),
    ensures
        trimmed(head + middle + tail) == middle,
{
    let ws = |c: char| is_whitespace(c);
    if middle.len() == 0 {
        let all = head + middle + tail;
        assert forall|i: int| 0 <= i < all.len() implies is_whitespace(#[trigger] all[i]) by {
            if i < head.len() {
                assert(all[i] == head[i]);
            } else {
                assert(all[i] == tail[i - head.len()]);
            }
        }
        front_is_stripped(all, middle, ws);
        assert(all + middle =~= all);
        assert(strip_back(middle, ws) == middle);
    } else {
        assert(head + middle + tail =~= head + (middle + tail));
        front_is_stripped(head, middle + tail, ws);
        back_is_stripped(middle, tail, ws);
    }
}

/// The line ends at the back of a text are taken off, however many there are, and
/// nothing else is.
pub proof fn only_line_ends_are_taken_off(s: Seq<char>, tail: Seq<char>)
    requires
        forall|i: int| 0 <= i < tail.len() ==> (#[trigger] tail[i]) == '\n' || tail[i] == '\r',
        s.len() > 0 ==> s.last() != '\n' && s.last() != '\r',
    ensures
        without_line_end(s + tail) == s,
{
    back_is_stripped(s, tail, |c: char| is_line_end(c));
}

/// A text begins and ends with what it was put together from, and whatever it
/// begins or ends with stands there.
pub proof fn prefixes_and_suffixes_are_parts(a: Seq<char>, b: Seq<char>, s: Seq<char>)
    ensures
        has_prefix(a + b, a),
        has_suffix(a + b, b),
        has_prefix(s, a) ==> s == a + s.skip(a.len() as int),
        has_suffix(s, b) ==> s == s.take(s.len() - b.len()) + b,
{
    assert((a + b).take(a.len() as int) =~= a);
    assert((a + b).skip(a.len() as int) =~= b);
    if has_prefix(s, a) {
        assert(s =~= s.take(a.len() as int) + s.skip(a.len() as int));
    }
    if has_suffix(s, b) {
        assert(s =~= s.take(s.len() - b.len()) + s.skip(s.len() - b.len()));
    }
}

/// Joining the parts of two lists is joining each list, with the separator
/// between them; one part alone stays as it is, and no parts make no text.
pub proof fn joining_puts_all_parts_in_a_row(
    a: Seq<Seq<char>>,
    b: Seq<Seq<char>>,
    part: Seq<char>,
    sep: Seq<char>,
)
    ensures
        joined(Seq::empty(), sep) == Seq::<char>::empty(),
        joined(seq![part], sep) == part,
        a.len() > 0 && b.len() > 0 ==> joined(a + b, sep) == joined(a, sep) + sep + joined(b, sep),
    decreases b.len(),
{
    if a.len() > 0 && b.len() > 0 {
        let all = a + b;
        assert(all.last() == b.last());
        assert(all.drop_last() =~= a + b.drop_last());
        if b.len() == 1 {
            assert(all.drop_last() =~= a);
        } else {
            joining_puts_all_parts_in_a_row(a, b.drop_last(), part, sep);
            assert(joined(all, sep) =~= joined(a, sep) + sep + joined(b, sep));
        }
    }
}

/// The texts of a list of strings are those of its strings, in their order.
pub proof fn the_texts_are_those_of_the_strings(v: Seq<String>, i: int)
    ensures
        texts(v).len() == v.len(),
        0 <= i < v.len() ==> texts(v)[i] == v[i]@,
{
}

/// The number that a row of digits stands for in base `base`.
pub open spec fn number_in(digits: Seq<char>, base: nat) -> nat
    decreases digits.len(),
{
    if digits.len() == 0 {
        0
    } else {
        (number_in(digits.drop_last(), base) * base + (digits.last() as nat - '0' as nat)) as nat
    }
}

/// A number that was written is read again as it was: it is written with the
/// digits of its base alone, and without a zero in front unless it is zero.
pub proof fn numbers_are_written_as_they_are(n: nat, base: nat)
    requires
        2 <= base <= 10,
    ensures
        number_in(numeral(n, base), base) == n,
        numeral(n, base).len() > 0,
        forall|i: int|
            0 <= i < numeral(n, base).len() ==> '0' as nat <= (#[trigger] numeral(n, base)[i]) as nat
                && (numeral(n, base)[i] as nat) < '0' as nat + base,
        n > 0 ==> numeral(n, base)[0] != '0',
        decimal(n) == numeral(n, 10),
    decreases n,
{
    let s = numeral(n, base);
    if n < base {
        assert(s =~= seq![digit(n)]);
        assert(s.drop_last() =~= Seq::empty());
        assert(number_in(s.drop_last(), base) == 0);
        assert(0 * base == 0) by (nonlinear_arith);
    } else {
        vstd::arithmetic::div_mod::lemma_div_decreases(n as int, base as int);
        vstd::arithmetic::div_mod::lemma_fundamental_div_mod(n as int, base as int);
        vstd::arithmetic::div_mod::lemma_mod_bound(n as int, base as int);
        vstd::arithmetic::div_mod::lemma_div_non_zero(n as int, base as int);
        numbers_are_written_as_they_are(n / base, base);
        let high = numeral(n / base, base);
        assert(s.drop_last() =~= high);
        assert(s.last() == digit(n % base));
        assert((n / base) * base + n % base == n) by (nonlinear_arith)
            requires
                n == base * (n / base) + n % base,
        ;
        assert forall|i: int| 0 <= i < s.len() implies '0' as nat <= (#[trigger] s[i]) as nat && (
        s[i] as nat) < '0' as nat + base by {
            if i < high.len() {
                assert(s[i] == high[i]);
            }
        }
    }
}

/// A string that may be missing, or a message in its place, is taken with the text
/// that stands in it.
pub proof fn strings_are_taken_as_they_stand(s: String, e: String)
    ensures
        text_of(Some(s)) == Some(s@),
        text_of(None) is None,
        told(Ok(s)) == Ok::<Seq<char>, Seq<char>>(s@),
        told(Err(e)) == Err::<Seq<char>, Seq<char>>(e@),
{
}

/// The functions on text do what their models say: what is trimmed, joined, compared or
/// counted is what was given.
pub proof fn texts_are_worked_on_as_given(
    s: &str,
    head: Seq<char>,
    middle: Seq<char>,
    tail: Seq<char>,
    short: String,
    other: &str,
    same: bool,
    begins: bool,
    ends: bool,
    parts: &Vec<String>,
    whole: String,
    n: u64,
    number: String,
)
    requires
        s@ == head + middle + tail,
        forall|i: int| 0 <= i < head.len() ==> is_whitespace(#[trigger] head[i]),
        forall|i: int| 0 <= i < tail.len() ==> is_whitespace(#[trigger] tail[i]),
        middle.len() > 0 ==> !is_whitespace(middle[0]) && !is_whitespace(middle.last()),
        call_ensures(trim, (s,), short),
        call_ensures(same_text, (s, other), same),
        call_ensures(starts_with, (s, other), begins),
        call_ensures(ends_with, (s, other), ends),
        call_ensures(join, (parts, other), whole),
        call_ensures(decimal_text, (n,), number),
    ensures
        short@ == middle,
        same <==> s@ == other@,
        begins <==> has_prefix(s@, other@),
        ends <==> has_suffix(s@, other@),
        whole@ == joined(texts(parts@), other@),
        number_in(number@, 10) == n,
{
    trimming_takes_whitespace_alone(head, middle, tail);
    numbers_are_written_as_they_are(n as nat, 10);
}

} // verus!
