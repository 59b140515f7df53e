//! Small operations on text that the rest of the crate builds on.

use vstd::prelude::*;
use vstd::string::*;

verus! {

/// Every element of `parts` followed by one space, in order.
pub open spec fn spaced(parts: Seq<Seq<char>>) -> Seq<char>
    decreases parts.len(),
{
    if parts.len() == 0 {
        Seq::empty()
    } else {
        spaced(parts.drop_last()) + parts.last() + seq![' ']
    }
}

/// `lines` one after the other, each with `lead` in front of it.
pub open spec fn led(lead: Seq<char>, lines: Seq<Seq<char>>) -> Seq<char>
    decreases lines.len(),
{
    if lines.len() == 0 {
        Seq::empty()
    } else {
        led(lead, lines.drop_last()) + lead + lines.last()
    }
}

/// `text` as `Debug` writes a string: between double quotes, with what cannot
/// stand there as it is written as an escape.
pub uninterp spec fn quoted(text: Seq<char>) -> Seq<char>;

/// `text`, read as a path, as `Debug` writes a path: between double quotes,
/// with what cannot stand there as it is written as an escape.
pub uninterp spec fn quoted_path(text: Seq<char>) -> Seq<char>;

/// `Debug` of `str`, through `format!`: the text in quotes, which is
/// [`quoted`] of it.
#[verifier::external_body]
pub(crate) fn quote(text: &str) -> (r: String)
    ensures
        r@ == quoted(text@),
{
    format!("{:?}", text)
}

/// `Debug` of `std::path::Path`, through `format!`: the path in quotes, which
/// is [`quoted_path`] of its text.
#[verifier::external_body]
pub(crate) fn quote_path(text: &str) -> (r: String)
    ensures
        r@ == quoted_path(text@),
{
    format!("{:?}", std::path::Path::new(text))
}

/// Why bytes are no text.
#[verifier::external_type_specification]
#[verifier::external_body]
pub struct ExFromUtf8Error(std::string::FromUtf8Error);

/// `String::from_utf8`: the text whose bytes are `bytes`, where they are UTF-8.
#[verifier::external_body]
pub(crate) fn text_of(bytes: Vec<u8>) -> (r: Result<String, std::string::FromUtf8Error>)
    ensures
        r is Ok <==> vstd::utf8::valid_utf8(bytes@),
        r matches Ok(text) ==> vstd::utf8::encode_utf8(text@) == bytes@,
{
    String::from_utf8(bytes)
}

/// Whether two strings hold the same characters.
pub fn same_text(a: &str, b: &str) -> (r: bool)
    ensures
        r == (a@ == b@),
{
    let x = a.as_bytes();
    let y = b.as_bytes();
    proof {
        vstd::utf8::encode_utf8_decode_utf8(a@);
        vstd::utf8::encode_utf8_decode_utf8(b@);
    }
    if x.len() != y.len() {
        return false;
    }
    let n: usize = x.len();
    let mut i: usize = 0;
    while i < n
        invariant
            x@ == a.spec_bytes(),
            y@ == b.spec_bytes(),
            n == x@.len(),
            n == y@.len(),
            i <= n,
            x@.subrange(0, i as int) == y@.subrange(0, i as int),
        decreases n - i,
    {
        if x[i] != y[i] {
            assert(x@[i as int] != y@[i as int]);
            return false;
        }
        i += 1;
        assert(x@.subrange(0, i as int) =~= x@.subrange(0, i - 1).push(x@[i - 1]));
        assert(y@.subrange(0, i as int) =~= y@.subrange(0, i - 1).push(y@[i - 1]));
    }
    assert(x@ =~= x@.subrange(0, n as int));
    assert(y@ =~= y@.subrange(0, n as int));
    true
}

/// Renders `parts` as one line in which a space follows each part.
pub fn render_spaced(parts: &Vec<String>) -> (r: String)
    ensures
        r@ == spaced(parts.deep_view()),
{
    let mut out = String::new();
    let mut i: usize = 0;
    while i < parts.len()
        invariant
            i <= parts.len(),
            out@ == spaced(parts.deep_view().take(i as int)),
        decreases parts.len() - i,
    {
        out.append(parts[i].as_str());
        out.append(" ");
        proof {
            reveal_strlit(" ");
            let before = parts.deep_view().take(i as int);
            let now = parts.deep_view().take(i + 1);
            assert(now.drop_last() =~= before);
            assert(now.last() == parts[i as int]@);
            assert(" "@ =~= seq![' ']);
        }
        i += 1;
    }
    assert(parts.deep_view().take(i as int) =~= parts.deep_view());
    out
}

/// Renders `lines` one after the other, each with `lead` in front of it.
pub fn render_led(lead: &str, lines: &Vec<String>) -> (r: String)
    ensures
        r@ == led(lead@, lines.deep_view()),
{
    let mut out = String::new();
    let mut i: usize = 0;
    while i < lines.len()
        invariant
            i <= lines.len(),
            out@ == led(lead@, lines.deep_view().take(i as int)),
        decreases lines.len() - i,
    {
        out.append(lead);
        out.append(lines[i].as_str());
        proof {
            let before = lines.deep_view().take(i as int);
            let now = lines.deep_view().take(i + 1);
            assert(now.drop_last() =~= before);
            assert(now.last() == lines[i as int]@);
        }
        i += 1;
    }
    assert(lines.deep_view().take(i as int) =~= lines.deep_view());
    out
}

/// Whether `pattern` stands in `text` at `at`.
pub open spec fn occurs_at(text: Seq<char>, pattern: Seq<char>, at: int) -> bool {
    0 <= at && at + pattern.len() <= text.len() && text.subrange(at, at + pattern.len())
        == pattern
}

/// The first place at or after `from` at which `pattern` stands in `text`.
pub open spec fn find_from(text: Seq<char>, pattern: Seq<char>, from: int) -> Option<int>
    decreases text.len() + 1 - from,
{
    if from < 0 || from + pattern.len() > text.len() {
        None
    } else if occurs_at(text, pattern, from) {
        Some(from)
    } else {
        find_from(text, pattern, from + 1)
    }
}

/// The first place at which `pattern` stands in `text`.
pub open spec fn find(text: Seq<char>, pattern: Seq<char>) -> Option<int> {
    find_from(text, pattern, 0)
}

/// What [`find_from`] finds is the first occurrence: the pattern stands there
/// and nowhere between `from` and there; and where it finds nothing, the
/// pattern stands nowhere from `from` on.
pub proof fn lemma_find_from_is_first(text: Seq<char>, pattern: Seq<char>, from: int)
    requires
        0 <= from,
    ensures
        match find_from(text, pattern, from) {
            Some(at) => from <= at && occurs_at(text, pattern, at) && forall|k: int|
                from <= k < at ==> !occurs_at(text, pattern, k),
            None => forall|k: int| from <= k ==> !occurs_at(text, pattern, k),
        },
    decreases text.len() + 1 - from,
{
    if from + pattern.len() > text.len() {
    } else if occurs_at(text, pattern, from) {
    } else {
        lemma_find_from_is_first(text, pattern, from + 1);
    }
}

/// Whether `c` is white space, as Unicode's property `White_Space` has it.
pub open spec fn is_white_space(c: char) -> bool {
    let code = c as u32;
    ||| 0x09 <= code <= 0x0D
    ||| code == 0x20
    ||| code == 0x85
    ||| code == 0xA0
    ||| code == 0x1680
    ||| 0x2000 <= code <= 0x200A
    ||| code == 0x2028
    ||| code == 0x2029
    ||| code == 0x202F
    ||| code == 0x205F
    ||| code == 0x3000
}

/// `text` without the white space at its start.
pub open spec fn trimmed_start(text: Seq<char>) -> Seq<char>
    decreases text.len(),
{
    if text.len() > 0 && is_white_space(text.first()) {
        trimmed_start(text.drop_first())
    } else {
        text
    }
}

/// `text` without the white space at its end.
pub open spec fn trimmed_end(text: Seq<char>) -> Seq<char>
    decreases text.len(),
{
    if text.len() > 0 && is_white_space(text.last()) {
        trimmed_end(text.drop_last())
    } else {
        text
    }
}

/// `text` without the white space at its start and at its end.
pub open spec fn trimmed(text: Seq<char>) -> Seq<char> {
    trimmed_end(trimmed_start(text))
}

/// Trimming the end of a text leaves its start as it is.
proof fn lemma_trimmed_end_keeps_first(text: Seq<char>)
    ensures
        trimmed_end(text).len() <= text.len(),
        trimmed_end(text).len() > 0 ==> trimmed_end(text).first() == text.first(),
        trimmed_end(text).len() > 0 ==> !is_white_space(trimmed_end(text).last()),
    decreases text.len(),
{
    if text.len() > 0 && is_white_space(text.last()) {
        lemma_trimmed_end_keeps_first(text.drop_last());
    }
}

/// Trimming the start of a text leaves no white space at its start.
proof fn lemma_trimmed_start_is_bare(text: Seq<char>)
    ensures
        trimmed_start(text).len() > 0 ==> !is_white_space(trimmed_start(text).first()),
    decreases text.len(),
{
    if text.len() > 0 && is_white_space(text.first()) {
        lemma_trimmed_start_is_bare(text.drop_first());
    }
}

/// A trimmed text neither starts nor ends with white space.
pub proof fn lemma_trimmed_is_bare(text: Seq<char>)
    ensures
        trimmed(text).len() > 0 ==> !is_white_space(trimmed(text).first()) && !is_white_space(
            trimmed(text).last(),
        ),
{
    lemma_trimmed_start_is_bare(text);
    lemma_trimmed_end_keeps_first(trimmed_start(text));
}

/// The decimal digit `d` as a character.
pub open spec fn digit(d: nat) -> char {
    (('0' as u8) + d) as u8 as char
}

/// `n` in decimal notation, without leading zeros.
pub open spec fn decimal(n: nat) -> Seq<char>
    decreases n,
{
    if n < 10 {
        seq![digit(n)]
    } else {
        decimal(n / 10).push(digit(n % 10))
    }
}

/// Whether `c` is white space.
pub fn white_space(c: char) -> (r: bool)
    ensures
        r == is_white_space(c),
{
    let code: u32 = c as u32;
    (0x09 <= code && code <= 0x0D) || code == 0x20 || code == 0x85 || code == 0xA0 || code
        == 0x1680 || (0x2000 <= code && code <= 0x200A) || code == 0x2028 || code == 0x2029
        || code == 0x202F || code == 0x205F || code == 0x3000
}

/// The characters of `text`.
pub fn chars_of(text: &str) -> (r: Vec<char>)
    ensures
        r@ == text@,
{
    let mut out: Vec<char> = Vec::new();
    for c in it: text.chars()
        invariant
            out@ == it.seq().take(it.index@),
    {
        out.push(c);
    }
    out
}

/// Whether `pattern` stands in `text` at `at`.
fn stands_at(text: &Vec<char>, pattern: &Vec<char>, at: usize) -> (r: bool)
    requires
        at + pattern.len() <= text.len(),
    ensures
        r == occurs_at(text@, pattern@, at as int),
{
    let mut k: usize = 0;
    while k < pattern.len()
        invariant
            at + pattern.len() <= text.len(),
            k <= pattern.len(),
            text@.subrange(at as int, at + k) == pattern@.take(k as int),
        decreases pattern.len() - k,
    {
        if text[at + k] != pattern[k] {
            assert(text@.subrange(at as int, at + pattern.len())[k as int] != pattern@[k as int]);
            return false;
        }
        k += 1;
        assert(text@.subrange(at as int, at + k) =~= text@.subrange(at as int, at + k - 1).push(
            text@[at + k - 1],
        ));
        assert(pattern@.take(k as int) =~= pattern@.take(k - 1).push(pattern@[k - 1]));
    }
    assert(pattern@.take(k as int) =~= pattern@);
    true
}

/// The first place at which `pattern` stands in `text`.
pub fn search(text: &Vec<char>, pattern: &Vec<char>) -> (r: Option<usize>)
    ensures
        match find(text@, pattern@) {
            Some(at) => r matches Some(found) && found == at,
            None => r is None,
        },
        r matches Some(found) ==> found + pattern@.len() <= text@.len(),
{
    if pattern.len() > text.len() {
        return None;
    }
    let last: usize = text.len() - pattern.len();
    let mut at: usize = 0;
    while at < last
        invariant
            last == text.len() - pattern.len(),
            at <= last,
            find(text@, pattern@) == find_from(text@, pattern@, at as int),
        decreases last - at,
    {
        if stands_at(text, pattern, at) {
            return Some(at);
        }
        at += 1;
    }
    if stands_at(text, pattern, at) {
        Some(at)
    } else {
        assert(find_from(text@, pattern@, at + 1) is None);
        None
    }
}

/// The bounds of `text[from..]` without the white space at its start and at
/// its end.
pub(crate) fn trim_bounds(text: &Vec<char>, from: usize) -> (r: (usize, usize))
    requires
        from <= text.len(),
    ensures
        from <= r.0 <= r.1 <= text.len(),
        text@.subrange(r.0 as int, r.1 as int) == trimmed(text@.skip(from as int)),
{
    let mut start: usize = from;
    while start < text.len() && white_space(text[start])
        invariant
            from <= start <= text.len(),
            trimmed_start(text@.skip(from as int)) == trimmed_start(text@.skip(start as int)),
        decreases text.len() - start,
    {
        assert(text@.skip(start as int).drop_first() =~= text@.skip(start + 1));
        start += 1;
    }
    assert(trimmed_start(text@.skip(from as int)) == text@.skip(start as int));
    let mut end: usize = text.len();
    assert(text@.subrange(start as int, end as int) =~= text@.skip(start as int));
    while end > start && white_space(text[end - 1])
        invariant
            start <= end <= text.len(),
            trimmed(text@.skip(from as int)) == trimmed_end(
                text@.subrange(start as int, end as int),
            ),
        decreases end - start,
    {
        assert(text@.subrange(start as int, end as int).drop_last() =~= text@.subrange(
            start as int,
            end - 1,
        ));
        end -= 1;
    }
    (start, end)
}

/// The decimal digit `d` as a text.
fn digit_text(d: u8) -> (r: &'static str)
    requires
        d < 10,
    ensures
        r@ == seq![digit(d as nat)],
{
    proof {
        reveal_strlit("0");
        reveal_strlit("1");
        reveal_strlit("2");
        reveal_strlit("3");
        reveal_strlit("4");
        reveal_strlit("5");
        reveal_strlit("6");
        reveal_strlit("7");
        reveal_strlit("8");
        reveal_strlit("9");
    }
    let r = match d {
        0 => "0",
        1 => "1",
        2 => "2",
        3 => "3",
        4 => "4",
        5 => "5",
        6 => "6",
        7 => "7",
        8 => "8",
        _ => "9",
    };
    assert(r@ =~= seq![digit(d as nat)]);
    r
}

/// The digits that `digits` names, last first.
spec fn digits_reversed(digits: Seq<u8>) -> Seq<char> {
    Seq::new(digits.len(), |i: int| digit(digits[digits.len() - 1 - i] as nat))
}

/// `n` in decimal notation.
pub fn render_decimal(n: u64) -> (r: String)
    ensures
        r@ == decimal(n as nat),
{
    let mut rest: u64 = n;
    // The digits after the first, from the last one back.
    let mut digits: Vec<u8> = Vec::new();
    assert(decimal(n as nat) =~= decimal(rest as nat) + digits_reversed(digits@));
    while rest >= 10
        invariant
            forall|i: int| 0 <= i < digits@.len() ==> digits@[i] < 10,
            decimal(n as nat) == decimal(rest as nat) + digits_reversed(digits@),
        decreases rest,
    {
        let d: u8 = (rest % 10) as u8;
        let ghost before = digits@;
        digits.push(d);
        assert(digits_reversed(digits@) =~= seq![digit(d as nat)] + digits_reversed(before));
        assert(decimal(rest as nat) == decimal((rest / 10) as nat).push(digit(d as nat)));
        assert(decimal((rest / 10) as nat).push(digit(d as nat)) + digits_reversed(before)
            =~= decimal((rest / 10) as nat) + digits_reversed(digits@));
        rest = rest / 10;
    }
    let mut out = String::new();
    out.append(digit_text(rest as u8));
    let mut i: usize = digits.len();
    assert(out@ =~= decimal(rest as nat) + digits_reversed(digits@).take(0));
    while i > 0
        invariant
            i <= digits.len(),
            forall|k: int| 0 <= k < digits@.len() ==> digits@[k] < 10,
            out@ == decimal(rest as nat) + digits_reversed(digits@).take(digits.len() - i),
        decreases i,
    {
        i -= 1;
        out.append(digit_text(digits[i]));
        assert(digits_reversed(digits@).take(digits.len() - i) =~= digits_reversed(digits@).take(
            digits.len() - i - 1,
        ).push(digit(digits@[i as int] as nat)));
    }
    assert(digits_reversed(digits@).take(digits.len() as int) =~= digits_reversed(digits@));
    out
}

} // verus!
