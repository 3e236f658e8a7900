//! Text as sequences of characters: searching, splitting, trimming, folding
//! case and writing numbers.

use vstd::prelude::*;
use vstd::string::*;

verus! {

/// The texts that a list of strings holds.
pub open spec fn texts(list: Seq<String>) -> Seq<Seq<char>> {
    list.map_values(|s: String| s@)
}

/// The text of an optional string.
pub open spec fn optional(s: Option<String>) -> Option<Seq<char>> {
    match s {
        Some(s) => Some(s@),
        None => None,
    }
}

// ---------------------------------------------------------------------------
// Searching
// ---------------------------------------------------------------------------

/// `needle` stands in `s` at position `i`.
pub open spec fn occurs_at(s: Seq<char>, needle: Seq<char>, i: int) -> bool {
    0 <= i && i + needle.len() <= s.len() && s.subrange(i, i + needle.len()) == needle
}

/// `needle` stands somewhere in `s`.
pub open spec fn occurs(s: Seq<char>, needle: Seq<char>) -> bool {
    exists|i: int| occurs_at(s, needle, i)
}

/// The characters of a string, one by one.
fn characters(s: &str) -> (list: Vec<char>)
    ensures
        list@ == s@,
{
    let mut list: Vec<char> = Vec::new();
    for c in iter: s.chars()
        invariant
            iter.seq() == s@,
            list@ == s@.take(iter.index()),
    {
        list.push(c);
    }
    list
}

/// Whether `needle` stands somewhere in `s`.
pub fn contains(s: &str, needle: &str) -> (found: bool)
    ensures
        found == occurs(s@, needle@),
{
    let hay = characters(s);
    let pin = characters(needle);
    let size: usize = hay.len();
    let width: usize = pin.len();
    if width == 0 {
        assert(occurs_at(s@, needle@, 0)) by {
            assert(s@.subrange(0, 0) =~= needle@);
        }
        return true;
    }
    let mut i: usize = 0;
    while i < size && width <= size - i
        invariant
            hay@ == s@,
            pin@ == needle@,
            size == s@.len(),
            width == needle@.len(),
            width > 0,
            i <= size,
            forall|k: int| 0 <= k < i ==> !occurs_at(s@, needle@, k),
        decreases size - i,
    {
        let mut j: usize = 0;
        while j < width && hay[i + j] == pin[j]
            invariant
                hay@ == s@,
                pin@ == needle@,
                size == s@.len(),
                width == needle@.len(),
                i + width <= size,
                j <= width,
                forall|k: int| 0 <= k < j ==> s@[i + k] == needle@[k],
            decreases width - j,
        {
            j += 1;
        }
        if j == width {
            assert(s@.subrange(i as int, i + needle@.len()) =~= needle@);
            assert(occurs_at(s@, needle@, i as int));
            return true;
        }
        assert(!occurs_at(s@, needle@, i as int)) by {
            if occurs_at(s@, needle@, i as int) {
                assert(s@.subrange(i as int, i + needle@.len())[j as int] == needle@[j as int]);
            }
        }
        i += 1;
    }
    false
}

// ---------------------------------------------------------------------------
// Splitting
// ---------------------------------------------------------------------------

/// What stands in `s` before the first `separator`: all of `s` if it has none.
pub open spec fn before(s: Seq<char>, separator: char) -> Seq<char>
    decreases s.len(),
{
    if s.len() == 0 || s[0] == separator {
        Seq::empty()
    } else {
        seq![s[0]] + before(s.drop_first(), separator)
    }
}

/// The pieces of `s` between one `separator` and the next. There is always at
/// least one piece, and pieces may be empty.
pub open spec fn pieces(s: Seq<char>, separator: char) -> Seq<Seq<char>>
    decreases s.len(),
{
    let first = before(s, separator);
    if first.len() >= s.len() {
        seq![s]
    } else {
        seq![first] + pieces(s.skip(first.len() as int + 1), separator)
    }
}

/// What stands before the first separator is the longest start of the text
/// that is free of it.
pub proof fn lemma_before(s: Seq<char>, separator: char)
    ensures
        before(s, separator).len() <= s.len(),
        before(s, separator) == s.take(before(s, separator).len() as int),
        !before(s, separator).contains(separator),
        before(s, separator).len() < s.len() ==> s[before(s, separator).len() as int] == separator,
    decreases s.len(),
{
    if s.len() > 0 && s[0] != separator {
        let rest = s.drop_first();
        let tail = before(rest, separator);
        let whole = before(s, separator);
        lemma_before(rest, separator);
        assert(whole =~= s.take(whole.len() as int));
        assert forall|i: int| 0 <= i < whole.len() implies whole[i] != separator by {
            if i > 0 {
                assert(whole[i] == tail[i - 1]);
                assert(tail.contains(tail[i - 1]));
            }
        }
        if whole.len() < s.len() {
            assert(s[whole.len() as int] == rest[tail.len() as int]);
        }
    }
}

/// Position `n` is where the first separator stands, or the end if there is none.
proof fn lemma_before_at(s: Seq<char>, separator: char, n: int)
    requires
        0 <= n <= s.len(),
        forall|i: int| 0 <= i < n ==> s[i] != separator,
        n < s.len() ==> s[n] == separator,
    ensures
        before(s, separator) == s.take(n),
{
    lemma_before(s, separator);
    let first = before(s, separator);
    if first.len() < n {
        assert(s[first.len() as int] != separator);
    } else if first.len() > n {
        assert(first[n] == s[n]);
        assert(first.contains(first[n]));
    }
    assert(first =~= s.take(n));
}

/// The pieces of a string between one separator and the next.
pub fn split(s: &str, separator: char) -> (list: Vec<String>)
    ensures
        texts(list@) == pieces(s@, separator),
        list@.len() >= 1,
{
    let all = characters(s);
    let size: usize = all.len();
    let mut list: Vec<String> = Vec::new();
    let mut start: usize = 0;
    let mut i: usize = 0;
    assert(s@.skip(0) =~= s@);
    assert(texts(list@) =~= Seq::empty());
    while i < size
        invariant
            all@ == s@,
            size == s@.len(),
            start <= i <= size,
            forall|k: int| start <= k < i ==> s@[k] != separator,
            texts(list@) + pieces(s@.skip(start as int), separator) == pieces(s@, separator),
        decreases size - i,
    {
        if all[i] == separator {
            let piece = s.substring_char(start, i).to_owned();
            proof {
                let rest = s@.skip(start as int);
                let n = i - start;
                lemma_before_at(rest, separator, n);
                assert(rest.take(n) =~= piece@);
                assert(rest.skip(n + 1) =~= s@.skip(i + 1));
                assert(texts(list@.push(piece)) =~= texts(list@).push(piece@));
                assert(texts(list@).push(piece@) + pieces(s@.skip(i + 1), separator) =~= texts(
                    list@,
                ) + (seq![piece@] + pieces(s@.skip(i + 1), separator)));
            }
            list.push(piece);
            start = i + 1;
        }
        i += 1;
    }
    let piece = s.substring_char(start, size).to_owned();
    proof {
        let rest = s@.skip(start as int);
        lemma_before_at(rest, separator, rest.len() as int);
        assert(rest =~= piece@);
        assert(pieces(rest, separator) =~= seq![piece@]);
        assert(texts(list@.push(piece)) =~= texts(list@) + seq![piece@]);
    }
    list.push(piece);
    list
}

// ---------------------------------------------------------------------------
// Trimming and folding case
// ---------------------------------------------------------------------------

/// The characters with the Unicode property `White_Space`.
pub open spec fn white_space(c: char) -> bool {
    ||| '\u{9}' <= c <= '\u{d}'
    ||| c == ' '
    ||| c == '\u{85}'
    ||| c == '\u{a0}'
    ||| c == '\u{1680}'
    ||| '\u{2000}' <= c <= '\u{200a}'
    ||| c == '\u{2028}'
    ||| c == '\u{2029}'
    ||| c == '\u{202f}'
    ||| c == '\u{205f}'
    ||| c == '\u{3000}'
}

/// `s` without the white space at its two ends.
pub open spec fn trimmed(s: Seq<char>) -> Seq<char>
    decreases s.len(),
{
    if s.len() > 0 && white_space(s[0]) {
        trimmed(s.drop_first())
    } else if s.len() > 0 && white_space(s.last()) {
        trimmed(s.drop_last())
    } else {
        s
    }
}

/// White space at the start of a text does not count.
proof fn lemma_trimmed_start(s: Seq<char>, n: int)
    requires
        0 <= n <= s.len(),
        forall|k: int| 0 <= k < n ==> white_space(#[trigger] s[k]),
    ensures
        trimmed(s) == trimmed(s.skip(n)),
    decreases n,
{
    if n == 0 {
        assert(s.skip(0) =~= s);
    } else {
        let rest = s.drop_first();
        assert(white_space(s[0]));
        assert forall|k: int| 0 <= k < n - 1 implies white_space(#[trigger] rest[k]) by {
            assert(rest[k] == s[k + 1]);
        }
        lemma_trimmed_start(rest, n - 1);
        assert(rest.skip(n - 1) =~= s.skip(n));
    }
}

/// Nor does white space at the end of a text that starts with something else.
proof fn lemma_trimmed_end(s: Seq<char>, n: int)
    requires
        0 < n <= s.len(),
        !white_space(s[0]),
        !white_space(s[n - 1]),
        forall|k: int| n <= k < s.len() ==> white_space(#[trigger] s[k]),
    ensures
        trimmed(s) == s.take(n),
    decreases s.len(),
{
    if n == s.len() {
        assert(s.take(n) =~= s);
    } else {
        let rest = s.drop_last();
        assert(white_space(s[s.len() - 1]));
        assert forall|k: int| n <= k < rest.len() implies white_space(#[trigger] rest[k]) by {
            assert(rest[k] == s[k]);
        }
        lemma_trimmed_end(rest, n);
        assert(rest.take(n) =~= s.take(n));
    }
}

/// Whether a character has the Unicode property `White_Space`.
fn is_white_space(c: char) -> (white: bool)
    ensures
        white == white_space(c),
{
    ('\u{9}' <= c && c <= '\u{d}') || c == ' ' || c == '\u{85}' || c == '\u{a0}' || c
        == '\u{1680}' || ('\u{2000}' <= c && c <= '\u{200a}') || c == '\u{2028}' || c
        == '\u{2029}' || c == '\u{202f}' || c == '\u{205f}' || c == '\u{3000}'
}

/// The text without the white space at its two ends.
pub fn trim(s: &str) -> (inner: &str)
    ensures
        inner@ == trimmed(s@),
{
    let all = characters(s);
    let size: usize = all.len();
    let mut start: usize = 0;
    while start < size && is_white_space(all[start])
        invariant
            all@ == s@,
            size == s@.len(),
            start <= size,
            forall|k: int| 0 <= k < start ==> white_space(#[trigger] s@[k]),
        decreases size - start,
    {
        start += 1;
    }
    let mut end: usize = size;
    while start < end && is_white_space(all[end - 1])
        invariant
            all@ == s@,
            size == s@.len(),
            start <= end <= size,
            start < size ==> !white_space(s@[start as int]),
            forall|k: int| end <= k < size ==> white_space(#[trigger] s@[k]),
        decreases end - start,
    {
        end -= 1;
    }
    proof {
        let rest = s@.skip(start as int);
        lemma_trimmed_start(s@, start as int);
        if start < size {
            assert(start < end);
            assert forall|k: int| end - start <= k < rest.len() implies white_space(
                #[trigger] rest[k],
            ) by {
                assert(rest[k] == s@[k + start]);
            }
            assert(rest[end - start - 1] == s@[end - 1]);
            lemma_trimmed_end(rest, end - start);
        }
        assert(rest.take(end - start) =~= s@.subrange(start as int, end as int));
    }
    s.substring_char(start, end)
}

/// What `str::to_lowercase` makes of a text.
pub uninterp spec fn lowercase(s: Seq<char>) -> Seq<char>;

/// The lower case of an ASCII letter; every other character as it is.
pub open spec fn ascii_lower(c: char) -> char {
    if 'A' <= c <= 'Z' {
        (c as u8 + 32) as char
    } else {
        c
    }
}

/// Each character of `s` in ASCII lower case.
pub open spec fn ascii_lowercase(s: Seq<char>) -> Seq<char> {
    s.map_values(|c: char| ascii_lower(c))
}

/// `str::to_lowercase`: a function of the text alone, which maps each letter
/// of an ASCII text to its lower case and keeps the rest of it.
#[verifier::external_body]
pub(crate) fn to_lowercase(s: &str) -> (lower: String)
    ensures
        lower@ == lowercase(s@),
        vstd::utf8::is_ascii_chars(s@) ==> lower@ == ascii_lowercase(s@),
{
    s.to_lowercase()
}

/// Whether two strings hold the same text.
pub fn same(a: &str, b: &str) -> (equal: bool)
    ensures
        equal == (a@ == b@),
{
    a.to_owned() == b.to_owned()
}

// ---------------------------------------------------------------------------
// Numbers
// ---------------------------------------------------------------------------

/// The character of a digit.
pub open spec fn digit(d: nat) -> char {
    ('0' as nat + d) as char
}

/// A number in decimal digits, without leading zeros.
pub open spec fn decimal(n: nat) -> Seq<char>
    decreases n,
{
    if n < 10 {
        seq![digit(n)]
    } else {
        decimal(n / 10).push(digit(n % 10))
    }
}

/// A number in decimal digits, with zeros before it up to `width` characters.
pub open spec fn padded(n: nat, width: nat) -> Seq<char> {
    if decimal(n).len() < width {
        Seq::new((width - decimal(n).len()) as nat, |i: int| '0') + decimal(n)
    } else {
        decimal(n)
    }
}

/// The text of one digit.
fn digit_text(d: u64) -> (text: &'static str)
    requires
        d < 10,
    ensures
        text@ == seq![digit(d as nat)],
{
    proof {
        reveal_strlit("0");
        reveal_strlit("1");
        reveal_strlit("2");
        reveal_strlit("3");
        reveal_strlit("4");
        reveal_strlit("5");
        reveal_strlit("6");
        reveal_strlit("7");
        reveal_strlit("8");
        reveal_strlit("9");
    }
    match d {
        0 => "0",
        1 => "1",
        2 => "2",
        3 => "3",
        4 => "4",
        5 => "5",
        6 => "6",
        7 => "7",
        8 => "8",
        _ => "9",
    }
}

/// A number in decimal digits.
pub fn number(n: u64) -> (text: String)
    ensures
        text@ == decimal(n as nat),
    decreases n,
{
    if n < 10 {
        digit_text(n).to_owned()
    } else {
        let mut text = number(n / 10);
        text.append(digit_text(n % 10));
        assert(text@ =~= decimal((n / 10) as nat).push(digit((n % 10) as nat)));
        text
    }
}

// ---------------------------------------------------------------------------
// Laws
// ---------------------------------------------------------------------------

/// The texts of a list of strings are those of its strings, one for one.
pub proof fn law_texts(list: Seq<String>)
    ensures
        texts(list).len() == list.len(),
        forall|i: int| 0 <= i < list.len() ==> #[trigger] texts(list)[i] == list[i]@,
{
}

/// An optional string has a text exactly where it is there, and that of the
/// string.
pub proof fn law_optional(s: Option<String>)
    ensures
        match s {
            Some(s) => optional(Some(s)) == Some(s@),
            None => optional(s) is None,
        },
{
}

/// A text is found wherever it stands, with anything before it and behind it.
pub proof fn law_found_where_it_stands(front: Seq<char>, needle: Seq<char>, back: Seq<char>)
    ensures
        occurs(front + needle + back, needle),
{
    let s = front + needle + back;
    let at = front.len() as int;
    assert(s.subrange(at, at + needle.len()) =~= needle);
    assert(occurs_at(s, needle, at));
}

/// What is found in a text stands in it, between what is before it and what is
/// behind it.
pub proof fn law_what_is_found_stands(s: Seq<char>, needle: Seq<char>)
    requires
        occurs(s, needle),
    ensures
        exists|front: Seq<char>, back: Seq<char>| s == #[trigger] (front + needle + back),
{
    let at = choose|at: int| occurs_at(s, needle, at);
    let front = s.take(at);
    let back = s.skip(at + needle.len());
    assert(s =~= front + s.subrange(at, at + needle.len()) + back);
    assert(s == front + needle + back);
}

/// A text without the separator is one piece. A separator ends the first piece,
/// and what is behind it is split in turn.
pub proof fn law_split(first: Seq<char>, separator: char, rest: Seq<char>)
    requires
        !first.contains(separator),
    ensures
        before(first, separator) == first,
        pieces(first, separator) == seq![first],
        before(first + seq![separator] + rest, separator) == first,
        pieces(first + seq![separator] + rest, separator) == seq![first] + pieces(rest, separator),
{
    assert forall|i: int| 0 <= i < first.len() implies first[i] != separator by {
        assert(first.contains(first[i]));
    }
    lemma_before_at(first, separator, first.len() as int);
    assert(first.take(first.len() as int) =~= first);
    let s = first + seq![separator] + rest;
    lemma_before_at(s, separator, first.len() as int);
    assert(s.take(first.len() as int) =~= first);
    assert(s.skip(first.len() as int + 1) =~= rest);
}

/// Trimming takes off exactly the white space at the two ends, however much of
/// it there is, and leaves what is between.
pub proof fn law_trim(lead: Seq<char>, core: Seq<char>, trail: Seq<char>)
    requires
        forall|k: int| 0 <= k < lead.len() ==> white_space(#[trigger] lead[k]),
        forall|k: int| 0 <= k < trail.len() ==> white_space(#[trigger] trail[k]),
        core.len() > 0 ==> !white_space(core[0]) && !white_space(core.last()),
    ensures
        trimmed(lead + core + trail) == core,
{
    let s = lead + core + trail;
    let n = lead.len() as int;
    if core.len() == 0 {
        assert forall|k: int| 0 <= k < s.len() implies white_space(#[trigger] s[k]) by {
            if k < n {
                assert(s[k] == lead[k]);
            } else {
                assert(s[k] == trail[k - n]);
            }
        }
        lemma_trimmed_start(s, s.len() as int);
        assert(s.skip(s.len() as int) =~= core);
    } else {
        assert forall|k: int| 0 <= k < n implies white_space(#[trigger] s[k]) by {
            assert(s[k] == lead[k]);
        }
        lemma_trimmed_start(s, n);
        let rest = s.skip(n);
        let m = core.len() as int;
        assert(rest =~= core + trail);
        assert forall|k: int| m <= k < rest.len() implies white_space(#[trigger] rest[k]) by {
            assert(rest[k] == trail[k - m]);
        }
        lemma_trimmed_end(rest, m);
        assert(rest.take(m) =~= core);
    }
}

/// White space is the tab, the line and page breaks, and the spaces of all
/// widths, by their code points.
pub proof fn law_white_space(c: char)
    ensures
        white_space(c) <==> {
            let n = c as int;
            9 <= n <= 13 || n == 32 || n == 133 || n == 160 || n == 5760 || 8192 <= n <= 8202 || n
                == 8232 || n == 8233 || n == 8239 || n == 8287 || n == 12288
        },
{
}

/// The number that decimal digits stand for.
pub open spec fn value(digits: Seq<char>) -> int
    decreases digits.len(),
{
    if digits.len() == 0 {
        0
    } else {
        value(digits.drop_last()) * 10 + (digits.last() as int - 48)
    }
}

/// A number that was written in decimal is read back as the same number. It is
/// written in digits alone, and does not start with a zero unless it is zero.
pub proof fn law_decimal_is_read_back(n: nat)
    ensures
        value(decimal(n)) == n,
        decimal(n).len() > 0,
        forall|i: int| 0 <= i < decimal(n).len() ==> 48 <= #[trigger] decimal(n)[i] as int <= 57,
        n > 0 ==> decimal(n)[0] != '0',
        n == 0 ==> decimal(n) == seq!['0'],
    decreases n,
{
    reveal_with_fuel(value, 2);
    if n >= 10 {
        let rest = (n / 10) as nat;
        law_decimal_is_read_back(rest);
        assert(decimal(n).drop_last() =~= decimal(rest));
        assert(decimal(n)[0] == decimal(rest)[0]);
    } else {
        assert(decimal(n).drop_last() =~= Seq::empty());
    }
}

/// Zeros before a number do not count.
proof fn lemma_leading_zeros(zeros: nat, digits: Seq<char>)
    ensures
        value(Seq::new(zeros, |i: int| '0') + digits) == value(digits),
    decreases zeros + digits.len(),
{
    let s = Seq::new(zeros, |i: int| '0') + digits;
    if digits.len() > 0 {
        assert(s.drop_last() =~= Seq::new(zeros, |i: int| '0') + digits.drop_last());
        lemma_leading_zeros(zeros, digits.drop_last());
    } else if zeros > 0 {
        assert(s.drop_last() =~= Seq::new((zeros - 1) as nat, |i: int| '0') + digits);
        lemma_leading_zeros((zeros - 1) as nat, digits);
    } else {
        assert(s =~= digits);
    }
}

/// A number that was padded is read back as the same number, and has the width
/// that was asked for or, where it does not fit, its own.
pub proof fn law_padded_is_read_back(n: nat, width: nat)
    ensures
        value(padded(n, width)) == n,
        padded(n, width).len() == if decimal(n).len() < width {
            width
        } else {
            decimal(n).len()
        },
        forall|i: int|
            0 <= i < padded(n, width).len() ==> 48 <= #[trigger] padded(n, width)[i] as int <= 57,
{
    law_decimal_is_read_back(n);
    if decimal(n).len() < width {
        let zeros = (width - decimal(n).len()) as nat;
        lemma_leading_zeros(zeros, decimal(n));
        assert forall|i: int| 0 <= i < padded(n, width).len() implies 48 <= #[trigger] padded(
            n,
            width,
        )[i] as int <= 57 by {
            if i >= zeros {
                assert(padded(n, width)[i] == decimal(n)[i - zeros]);
            }
        }
    }
}

/// A number below ten has one digit, and ten times as large a one has one more.
pub proof fn law_digits_grow(n: nat, d: nat)
    requires
        d < 10,
    ensures
        decimal(d).len() == 1,
        n > 0 ==> decimal(n * 10 + d).len() == decimal(n).len() + 1,
{
    if n > 0 {
        assert((n * 10 + d) / 10 == n);
    }
}

/// Folding ASCII letters to lower case goes letter by letter: capitals turn into
/// the letters that stand for them, and all else stays.
pub proof fn law_ascii_lowercase(s: Seq<char>, i: int)
    requires
        0 <= i < s.len(),
    ensures
        ascii_lowercase(s).len() == s.len(),
        65 <= s[i] as int <= 90 ==> ascii_lowercase(s)[i] as int == s[i] as int + 32,
        !(65 <= s[i] as int <= 90) ==> ascii_lowercase(s)[i] == s[i],
{
}

} // verus!
