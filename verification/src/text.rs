//! Text helpers shared by the header rules: ASCII case folding, prefix tests
//! and decimal rendering.

use vstd::prelude::*;

verus! {

/// The lower-case form of an ASCII upper-case letter; every other character unchanged.
pub open spec fn ascii_lower(c: char) -> char {
    if 'A' <= c && c <= 'Z' {
        ((c as u8) + 32u8) as char
    } else {
        c
    }
}

/// Two texts agree up to the case of their ASCII letters.
pub open spec fn eq_ignore_ascii_case(a: Seq<char>, b: Seq<char>) -> bool {
    &&& a.len() == b.len()
    &&& forall|i: int| 0 <= i < a.len() ==> ascii_lower(#[trigger] a[i]) == ascii_lower(b[i])
}

/// Compares two strings through `unicase::Ascii`, whose equality is
/// `str::eq_ignore_ascii_case`: same length, and character by character equal
/// once ASCII upper-case letters are lowered.
#[verifier::external_body]
pub(crate) fn ascii_eq(a: &str, b: &str) -> (r: bool)
    ensures
        r == eq_ignore_ascii_case(a@, b@),
{
    unicase::Ascii::new(a) == b
}

/// Whether two strings hold the same characters.
pub fn str_equal(a: &str, b: &str) -> (r: bool)
    ensures
        r == (a@ == b@),
{
    let n = a.unicode_len();
    if n != b.unicode_len() {
        return false;
    }
    let mut i: usize = 0;
    while i < n
        invariant
            i <= n,
            n == a@.len(),
            n == b@.len(),
            forall|j: int| 0 <= j < i ==> a@[j] == b@[j],
        decreases n - i,
    {
        if a.get_char(i) != b.get_char(i) {
            return false;
        }
        i += 1;
    }
    assert(a@ =~= b@);
    true
}

/// `prefix` stands at the start of `s`.
pub open spec fn has_prefix(s: Seq<char>, prefix: Seq<char>) -> bool {
    prefix.len() <= s.len() && s.take(prefix.len() as int) == prefix
}

/// Whether `s` starts with `prefix`.
pub fn starts_with(s: &str, prefix: &str) -> (r: bool)
    ensures
        r == has_prefix(s@, prefix@),
{
    let n = prefix.unicode_len();
    if n > s.unicode_len() {
        return false;
    }
    let mut i: usize = 0;
    while i < n
        invariant
            i <= n,
            n == prefix@.len(),
            n <= s@.len(),
            forall|j: int| 0 <= j < i ==> s@[j] == prefix@[j],
        decreases n - i,
    {
        if s.get_char(i) != prefix.get_char(i) {
            assert(s@.take(n as int)[i as int] != prefix@[i as int]);
            return false;
        }
        i += 1;
    }
    assert(s@.take(n as int) =~= prefix@);
    true
}

/// The text held by an optional string.
pub open spec fn option_text(text: Option<String>) -> Option<Seq<char>> {
    match text {
        Some(t) => Some(t@),
        None => None,
    }
}

/// The texts held by a list of strings, in order.
pub open spec fn strings_view(strings: Seq<String>) -> Seq<Seq<char>> {
    strings.map_values(|s: String| s@)
}

/// `pattern` stands in `text` at position `at`.
pub open spec fn matches_at(text: Seq<char>, pattern: Seq<char>, at: int) -> bool {
    &&& 0 <= at
    &&& at + pattern.len() <= text.len()
    &&& text.subrange(at, at + pattern.len()) == pattern
}

/// The first position from `from` on at which `pattern` stands in `text`,
/// or -1 where there is none.
pub open spec fn first_match(text: Seq<char>, pattern: Seq<char>, from: int) -> int
    decreases text.len() - from,
{
    if from < 0 || from + pattern.len() > text.len() {
        -1
    } else if pattern.len() == 0 || matches_at(text, pattern, from) {
        from
    } else {
        first_match(text, pattern, from + 1)
    }
}

/// The pieces of `text` that stand between the occurrences of `separator`,
/// found from left to right without overlap. A text without the separator
/// is one piece; a separator at either end leaves an empty piece there.
pub open spec fn split_by(text: Seq<char>, separator: Seq<char>) -> Seq<Seq<char>>
    decreases text.len(),
{
    let at = first_match(text, separator, 0);
    if separator.len() == 0 || at < 0 || at + separator.len() > text.len() {
        seq![text]
    } else {
        seq![text.take(at)] + split_by(text.skip(at + separator.len()), separator)
    }
}

/// Whether `pattern`, which is `m` characters long, stands in `text` at `at`.
fn stands_at(text: &str, pattern: &str, at: usize, m: usize) -> (r: bool)
    requires
        m == pattern@.len(),
        at + m <= text@.len(),
        text@.len() <= usize::MAX,
    ensures
        r == matches_at(text@, pattern@, at as int),
{
    let mut j: usize = 0;
    while j < m
        invariant
            j <= m,
            m == pattern@.len(),
            at + m <= text@.len(),
            text@.len() <= usize::MAX,
            forall|k: int| 0 <= k < j ==> text@[at + k] == pattern@[k],
        decreases m - j,
    {
        if text.get_char(at + j) != pattern.get_char(j) {
            assert(text@.subrange(at as int, at + m)[j as int] != pattern@[j as int]);
            return false;
        }
        j += 1;
    }
    assert(text@.subrange(at as int, at + m) =~= pattern@);
    true
}

/// Splits `text` at each occurrence of `separator`. Each step reads the
/// text by character position, so the cost grows with the square of its
/// length: meant for header values and paths, not for bodies.
pub(crate) fn split_text(text: &str, separator: &str) -> (r: Vec<String>)
    requires
        separator@.len() > 0,
    ensures
        strings_view(r@) == split_by(text@, separator@),
{
    let n = text.unicode_len();
    let m = separator.unicode_len();
    let mut out: Vec<String> = Vec::new();
    let mut start: usize = 0;
    let mut i: usize = 0;
    proof {
        assert(text@.skip(0) =~= text@);
        assert(strings_view(out@) + split_by(text@, separator@) =~= split_by(text@, separator@));
    }
    while m <= n && i <= n - m
        invariant
            n == text@.len(),
            m == separator@.len(),
            m > 0,
            start <= i,
            i <= n,
            split_by(text@, separator@) == strings_view(out@) + split_by(
                text@.skip(start as int),
                separator@,
            ),
            first_match(text@.skip(start as int), separator@, 0) == first_match(
                text@.skip(start as int),
                separator@,
                i - start,
            ),
        decreases n - i,
    {
        let ghost rest = text@.skip(start as int);
        let ghost before = out@;
        proof {
            assert(rest.subrange(i - start, i - start + m) =~= text@.subrange(i as int, i + m));
        }
        if stands_at(text, separator, i, m) {
            let piece = String::from_str(text.substring_char(start, i));
            proof {
                assert(matches_at(rest, separator@, i - start));
                assert(first_match(rest, separator@, i - start) == i - start);
                assert(rest.take(i - start) =~= piece@);
                assert(rest.skip(i - start + m) =~= text@.skip(i + m));
                assert(split_by(rest, separator@) == seq![piece@] + split_by(
                    text@.skip(i + m),
                    separator@,
                ));
            }
            out.push(piece);
            proof {
                assert(strings_view(out@) =~= strings_view(before) + seq![piece@]);
                assert(strings_view(out@) + split_by(text@.skip(i + m), separator@) =~= strings_view(
                    before,
                ) + (seq![piece@] + split_by(text@.skip(i + m), separator@)));
            }
            start = i + m;
            i = start;
        } else {
            proof {
                assert(!matches_at(rest, separator@, i - start));
            }
            i += 1;
        }
    }
    let ghost rest = text@.skip(start as int);
    let ghost before = out@;
    let piece = String::from_str(text.substring_char(start, n));
    proof {
        assert(first_match(rest, separator@, i - start) == -1);
        assert(rest =~= piece@);
        assert(split_by(rest, separator@) == seq![piece@]);
    }
    out.push(piece);
    proof {
        assert(strings_view(out@) =~= strings_view(before) + seq![piece@]);
    }
    out
}

/// The pieces put together again, with `separator` between neighbours.
pub open spec fn joined(parts: Seq<Seq<char>>, separator: Seq<char>) -> Seq<char>
    decreases parts.len(),
{
    if parts.len() == 0 {
        Seq::empty()
    } else if parts.len() == 1 {
        parts[0]
    } else {
        joined(parts.drop_last(), separator) + separator + parts.last()
    }
}

/// Concatenates `parts`, with `separator` between neighbours.
pub fn join_strings(parts: &Vec<String>, separator: &str) -> (r: String)
    ensures
        r@ == joined(strings_view(parts@), separator@),
{
    let mut out = String::new();
    let mut i: usize = 0;
    while i < parts.len()
        invariant
            i <= parts.len(),
            out@ == joined(strings_view(parts@).take(i as int), separator@),
        decreases parts.len() - i,
    {
        proof {
            let views = strings_view(parts@);
            assert(views.take(i + 1).drop_last() =~= views.take(i as int));
            assert(views.take(i + 1).last() == parts@[i as int]@);
            if i == 0 {
                assert(out@ =~= Seq::<char>::empty());
                assert(joined(views.take(1), separator@) == parts@[0]@);
            }
        }
        if i > 0 {
            out.append(separator);
        }
        out.append(parts[i].as_str());
        proof {
            if i == 0 {
                assert(out@ =~= parts@[0]@);
            }
        }
        i += 1;
    }
    proof {
        assert(strings_view(parts@).take(parts.len() as int) =~= strings_view(parts@));
    }
    out
}

/// The decimal digits of `n`, most significant first, without leading zeros.
pub open spec fn decimal(n: nat) -> Seq<char>
    decreases n,
{
    if n < 10 {
        seq![digit(n)]
    } else {
        decimal(n / 10).push(digit(n % 10))
    }
}

/// The character for a single decimal digit.
pub open spec fn digit(d: nat) -> char {
    if d == 0 {
        '0'
    } else if d == 1 {
        '1'
    } else if d == 2 {
        '2'
    } else if d == 3 {
        '3'
    } else if d == 4 {
        '4'
    } else if d == 5 {
        '5'
    } else if d == 6 {
        '6'
    } else if d == 7 {
        '7'
    } else if d == 8 {
        '8'
    } else {
        '9'
    }
}

fn digit_str(d: usize) -> (r: &'static str)
    requires
        d < 10,
    ensures
        r@ == seq![digit(d as nat)],
{
    proof {
        reveal_strlit("0");
        reveal_strlit("1");
        reveal_strlit("2");
        reveal_strlit("3");
        reveal_strlit("4");
        reveal_strlit("5");
        reveal_strlit("6");
        reveal_strlit("7");
        reveal_strlit("8");
        reveal_strlit("9");
    }
    let r = if d == 0 {
        "0"
    } else if d == 1 {
        "1"
    } else if d == 2 {
        "2"
    } else if d == 3 {
        "3"
    } else if d == 4 {
        "4"
    } else if d == 5 {
        "5"
    } else if d == 6 {
        "6"
    } else if d == 7 {
        "7"
    } else if d == 8 {
        "8"
    } else {
        "9"
    };
    assert(r@ =~= seq![digit(d as nat)]);
    r
}

/// Renders a length as decimal text.
pub fn decimal_string(n: usize) -> (r: String)
    ensures
        r@ == decimal(n as nat),
    decreases n,
{
    if n < 10 {
        String::from_str(digit_str(n))
    } else {
        let mut s = decimal_string(n / 10);
        s.append(digit_str(n % 10));
        assert(s@ =~= decimal((n / 10) as nat).push(digit((n % 10) as nat)));
        s
    }
}

/// The value of a decimal digit; none for any other character.
pub open spec fn digit_value(c: char) -> Option<nat> {
    if '0' <= c && c <= '9' {
        Some((c as u8 - 48u8) as nat)
    } else {
        None
    }
}

/// The number that a text of decimal digits writes; none for the empty
/// text and for a text with any other character in it.
pub open spec fn decimal_value(text: Seq<char>) -> Option<nat>
    decreases text.len(),
{
    if text.len() == 0 {
        None
    } else if digit_value(text.last()) is None {
        None
    } else if text.len() == 1 {
        digit_value(text.last())
    } else if decimal_value(text.drop_last()) is None {
        None
    } else {
        Some(decimal_value(text.drop_last())->Some_0 * 10 + digit_value(text.last())->Some_0)
    }
}

/// A text of digits writes a number at least as large as any shorter start of it.
proof fn lemma_decimal_value_grows(text: Seq<char>, i: int)
    requires
        0 < i <= text.len(),
        decimal_value(text) is Some,
    ensures
        decimal_value(text.take(i)) is Some,
        decimal_value(text.take(i))->Some_0 <= decimal_value(text)->Some_0,
    decreases text.len(),
{
    if i == text.len() {
        assert(text.take(i) =~= text);
    } else {
        assert(text.len() > 1);
        assert(text.drop_last().take(i) =~= text.take(i));
        lemma_decimal_value_grows(text.drop_last(), i);
    }
}

/// A text with a character that is no digit writes no number.
proof fn lemma_decimal_value_needs_digits(text: Seq<char>, i: int)
    requires
        0 <= i < text.len(),
        digit_value(text[i]) is None,
    ensures
        decimal_value(text) is None,
    decreases text.len(),
{
    if i < text.len() - 1 {
        lemma_decimal_value_needs_digits(text.drop_last(), i);
    }
}

/// Reads a number written in decimal digits. `None` for a text that is
/// empty, holds anything but digits, or writes a number over `u32::MAX`.
pub fn parse_u32(text: &str) -> (r: Option<u32>)
    ensures
        r is Some == (decimal_value(text@) is Some && decimal_value(text@)->Some_0 <= u32::MAX),
        r is Some ==> r->Some_0 == decimal_value(text@)->Some_0,
{
    let n = text.unicode_len();
    if n == 0 {
        return None;
    }
    let mut value: u64 = 0;
    let mut i: usize = 0;
    while i < n
        invariant
            i <= n,
            n == text@.len(),
            value <= u32::MAX,
            i > 0 ==> decimal_value(text@.take(i as int)) == Some(value as nat),
            i == 0 ==> value == 0,
        decreases n - i,
    {
        let c = text.get_char(i);
        proof {
            assert(text@.take(i + 1).drop_last() =~= text@.take(i as int));
            assert(text@.take(i + 1).last() == c);
        }
        if c < '0' || c > '9' {
            proof {
                lemma_decimal_value_needs_digits(text@, i as int);
            }
            return None;
        }
        let d = (c as u8 - 48u8) as u64;
        value = value * 10 + d;
        if value > 0xffff_ffff {
            proof {
                if decimal_value(text@) is Some {
                    lemma_decimal_value_grows(text@, i + 1);
                }
            }
            return None;
        }
        i += 1;
    }
    proof {
        assert(text@.take(n as int) =~= text@);
    }
    Some(value as u32)
}

} // verus!
