//! Helpers on text: comparing, trimming, splitting and joining.
//!
//! Every contract speaks of a text as the sequence of its characters.

use vstd::prelude::*;
use vstd::string::StringExecFns;

verus! {

/// Whether a character is white space in the sense of Unicode: one of the
/// twenty-five characters that have the property `White_Space`. These are the
/// characters at which `char::is_whitespace` says yes.
pub open spec fn white_space(c: char) -> bool {
    ||| '\u{9}' <= c <= '\u{d}'
    ||| c == ' '
    ||| c == '\u{85}'
    ||| c == '\u{a0}'
    ||| c == '\u{1680}'
    ||| '\u{2000}' <= c <= '\u{200a}'
    ||| c == '\u{2028}'
    ||| c == '\u{2029}'
    ||| c == '\u{202f}'
    ||| c == '\u{205f}'
    ||| c == '\u{3000}'
}

/// Whether a character is white space in the sense of Unicode.
pub fn is_whitespace(c: char) -> (space: bool)
    ensures
        space == white_space(c),
{
    ('\u{9}' <= c && c <= '\u{d}') || c == ' ' || c == '\u{85}' || c == '\u{a0}' || c
        == '\u{1680}' || ('\u{2000}' <= c && c <= '\u{200a}') || c == '\u{2028}' || c
        == '\u{2029}' || c == '\u{202f}' || c == '\u{205f}' || c == '\u{3000}'
}

/// A text in lower case. This names the answer of `str::to_lowercase`; what
/// the lower case of a given text is is not stated here.
pub uninterp spec fn lowercase(s: Seq<char>) -> Seq<char>;

/// Hands a text to `str::to_lowercase`, which maps every character to its
/// lower case as Unicode defines it. Trusted, not proved: the answer is the
/// one that `lowercase` names, and depends on the text alone.
#[verifier::external_body]
pub(crate) fn to_lowercase(s: &str) -> (lower: String)
    ensures
        lower@ == lowercase(s@),
{
    s.to_lowercase()
}

/// The text without the white space at its start.
pub open spec fn skip_leading(s: Seq<char>) -> Seq<char>
    decreases s.len(),
{
    if s.len() > 0 && white_space(s[0]) {
        skip_leading(s.drop_first())
    } else {
        s
    }
}

/// The text without the white space at its end.
pub open spec fn skip_trailing(s: Seq<char>) -> Seq<char>
    decreases s.len(),
{
    if s.len() > 0 && white_space(s.last()) {
        skip_trailing(s.drop_last())
    } else {
        s
    }
}

/// The text without the white space at either end.
pub open spec fn trimmed(s: Seq<char>) -> Seq<char> {
    skip_trailing(skip_leading(s))
}

/// Whether a text holds nothing but white space.
pub open spec fn blank(s: Seq<char>) -> bool {
    trimmed(s).len() == 0
}

/// The pieces of `s` between the separators, where `current` holds the piece
/// that was begun before `s`.
pub open spec fn split_from(s: Seq<char>, sep: char, current: Seq<char>) -> Seq<Seq<char>>
    decreases s.len(),
{
    if s.len() == 0 {
        seq![current]
    } else if s[0] == sep {
        seq![current] + split_from(s.drop_first(), sep, Seq::empty())
    } else {
        split_from(s.drop_first(), sep, current.push(s[0]))
    }
}

/// The pieces of a text between the occurrences of a separator. A text
/// without the separator is one piece, an empty text one empty piece.
pub open spec fn split_on(s: Seq<char>, sep: char) -> Seq<Seq<char>> {
    split_from(s, sep, Seq::empty())
}

/// The words of `s`, where `current` holds the word that was begun before
/// `s`.
pub open spec fn words_from(s: Seq<char>, current: Seq<char>) -> Seq<Seq<char>>
    decreases s.len(),
{
    if s.len() == 0 {
        if current.len() > 0 {
            seq![current]
        } else {
            Seq::empty()
        }
    } else if white_space(s[0]) {
        if current.len() > 0 {
            seq![current] + words_from(s.drop_first(), Seq::empty())
        } else {
            words_from(s.drop_first(), Seq::empty())
        }
    } else {
        words_from(s.drop_first(), current.push(s[0]))
    }
}

/// The words of a text: its longest runs of characters that are no white
/// space, in order.
pub open spec fn words(s: Seq<char>) -> Seq<Seq<char>> {
    words_from(s, Seq::empty())
}

/// The parts put together with the separator between each two.
pub open spec fn joined(parts: Seq<Seq<char>>, sep: Seq<char>) -> Seq<char>
    decreases parts.len(),
{
    if parts.len() == 0 {
        Seq::empty()
    } else if parts.len() == 1 {
        parts[0]
    } else {
        joined(parts.drop_last(), sep) + sep + parts.last()
    }
}

/// Whether `needle` occurs in `hay` as a run of neighbouring characters.
pub open spec fn occurs_in(needle: Seq<char>, hay: Seq<char>) -> bool {
    exists|i: int|
        0 <= i && i + needle.len() <= hay.len() && #[trigger] hay.subrange(
            i,
            i + needle.len(),
        ) == needle
}

/// Whether `a` comes before `b`, or is `b`, in the order of a dictionary
/// whose letters are ordered by their code points.
pub open spec fn lex_le(a: Seq<char>, b: Seq<char>) -> bool
    decreases a.len(),
{
    if a.len() == 0 {
        true
    } else if b.len() == 0 {
        false
    } else if a[0] != b[0] {
        a[0] < b[0]
    } else {
        lex_le(a.drop_first(), b.drop_first())
    }
}

/// Whether two texts hold the same characters.
pub fn same_text(a: &str, b: &str) -> (same: bool)
    ensures
        same == (a@ == b@),
{
    let left = a.to_owned();
    let right = b.to_owned();
    left == right
}

/// The text `prefix` followed by `rest`.
pub fn prefixed(prefix: &str, rest: &str) -> (out: String)
    ensures
        out@ == prefix@ + rest@,
{
    prefix.to_owned().concat(rest)
}

/// Whether an optional text is present and holds exactly `wanted`.
pub fn holds_text(slot: &Option<String>, wanted: &str) -> (hit: bool)
    ensures
        hit == (slot.deep_view() == Some(wanted@)),
{
    match slot {
        Some(current) => same_text(current.as_str(), wanted),
        None => false,
    }
}

/// The characters of a text, one by one.
pub fn to_chars(s: &str) -> (out: Vec<char>)
    ensures
        out@ == s@,
{
    let mut out: Vec<char> = Vec::new();
    for c in it: s.chars()
        invariant
            out@ == it.seq().take(it.index()),
    {
        out.push(c);
    }
    out
}

/// Skipping the white space at the start of a text takes a run of white
/// space off it.
proof fn skip_leading_from(s: Seq<char>, from: int)
    requires
        0 <= from <= s.len(),
        forall|k: int| 0 <= k < from ==> white_space(s[k]),
    ensures
        skip_leading(s) == skip_leading(s.skip(from)),
    decreases from,
{
    if from > 0 {
        skip_leading_from(s.drop_first(), from - 1);
        assert(s.drop_first().skip(from - 1) =~= s.skip(from));
    } else {
        assert(s.skip(0) =~= s);
    }
}

/// Skipping the white space at the end of a text takes a run of white space
/// off it.
proof fn skip_trailing_to(s: Seq<char>, to: int)
    requires
        0 <= to <= s.len(),
        forall|k: int| to <= k < s.len() ==> white_space(s[k]),
    ensures
        skip_trailing(s) == skip_trailing(s.take(to)),
    decreases s.len() - to,
{
    if to < s.len() {
        skip_trailing_to(s.drop_last(), to);
        assert(s.drop_last().take(to) =~= s.take(to));
    } else {
        assert(s.take(to) =~= s);
    }
}

/// The text without the white space at either end.
pub fn trim<'a>(s: &'a str) -> (out: &'a str)
    ensures
        out@ == trimmed(s@),
{
    let chars = to_chars(s);
    let n = chars.len();
    let mut start: usize = 0;
    while start < n && is_whitespace(chars[start])
        invariant
            start <= n,
            n == chars.len(),
            forall|k: int| 0 <= k < start ==> white_space(chars@[k]),
        decreases n - start,
    {
        start += 1;
    }
    let mut end: usize = n;
    while end > start && is_whitespace(chars[end - 1])
        invariant
            start <= end <= n,
            n == chars.len(),
            forall|k: int| end <= k < n ==> white_space(chars@[k]),
        decreases end,
    {
        end -= 1;
    }
    proof {
        let rest = s@.skip(start as int);
        skip_leading_from(s@, start as int);
        assert(skip_leading(rest) == rest);
        skip_trailing_to(rest, end - start);
        assert(rest.take(end - start) =~= s@.subrange(start as int, end as int));
        let core = s@.subrange(start as int, end as int);
        if core.len() > 0 {
            assert(core.last() == chars@[end - 1]);
        }
        assert(skip_trailing(core) == core);
    }
    s.substring_char(start, end)
}

/// Whether a text holds nothing but white space.
pub fn is_blank(s: &str) -> (empty: bool)
    ensures
        empty == blank(s@),
{
    trim(s).unicode_len() == 0
}

/// Cutting a text at its separators, one character further along.
proof fn split_from_step(s: Seq<char>, sep: char, start: int, i: int)
    requires
        0 <= start <= i < s.len(),
    ensures
        s[i] == sep ==> split_from(s.skip(i), sep, s.subrange(start, i)) == seq![
            s.subrange(start, i),
        ] + split_from(s.skip(i + 1), sep, Seq::empty()),
        s[i] != sep ==> split_from(s.skip(i), sep, s.subrange(start, i)) == split_from(
            s.skip(i + 1),
            sep,
            s.subrange(start, i + 1),
        ),
{
    assert(s.skip(i).drop_first() =~= s.skip(i + 1));
    assert(s.subrange(start, i).push(s[i]) =~= s.subrange(start, i + 1));
}

/// The pieces of a text between the occurrences of a separator.
pub fn split(s: &str, sep: char) -> (pieces: Vec<String>)
    ensures
        pieces.deep_view() == split_on(s@, sep),
{
    let chars = to_chars(s);
    let n = chars.len();
    let mut pieces: Vec<String> = Vec::new();
    let mut start: usize = 0;
    let mut i: usize = 0;
    proof {
        assert(s@.skip(0) =~= s@);
        assert(s@.subrange(0, 0) =~= Seq::<char>::empty());
        assert(pieces.deep_view() =~= Seq::<Seq<char>>::empty());
    }
    while i < n
        invariant
            start <= i <= n,
            n == chars.len(),
            chars@ == s@,
            split_on(s@, sep) == pieces.deep_view() + split_from(
                s@.skip(i as int),
                sep,
                s@.subrange(start as int, i as int),
            ),
        decreases n - i,
    {
        proof {
            split_from_step(s@, sep, start as int, i as int);
        }
        if chars[i] == sep {
            let ghost before = pieces.deep_view();
            pieces.push(s.substring_char(start, i).to_owned());
            proof {
                assert(pieces.deep_view() =~= before + seq![s@.subrange(start as int, i as int)]);
                assert(s@.subrange(i + 1, i + 1) =~= Seq::<char>::empty());
            }
            start = i + 1;
        }
        i += 1;
    }
    let ghost before = pieces.deep_view();
    pieces.push(s.substring_char(start, n).to_owned());
    proof {
        assert(s@.skip(n as int).len() == 0);
        assert(pieces.deep_view() =~= before + seq![s@.subrange(start as int, n as int)]);
    }
    pieces
}

/// Reading the words of a text, one character further along.
proof fn words_from_step(s: Seq<char>, start: int, i: int)
    requires
        0 <= start <= i < s.len(),
    ensures
        white_space(s[i]) && start < i ==> words_from(s.skip(i), s.subrange(start, i)) == seq![
            s.subrange(start, i),
        ] + words_from(s.skip(i + 1), Seq::empty()),
        white_space(s[i]) && start == i ==> words_from(s.skip(i), s.subrange(start, i))
            == words_from(s.skip(i + 1), Seq::empty()),
        !white_space(s[i]) ==> words_from(s.skip(i), s.subrange(start, i)) == words_from(
            s.skip(i + 1),
            s.subrange(start, i + 1),
        ),
{
    assert(s.skip(i).drop_first() =~= s.skip(i + 1));
    assert(s.subrange(start, i).push(s[i]) =~= s.subrange(start, i + 1));
}

/// The words of a text: its longest runs of characters that are no white
/// space, in order.
pub fn split_whitespace(s: &str) -> (found: Vec<String>)
    ensures
        found.deep_view() == words(s@),
{
    let chars = to_chars(s);
    let n = chars.len();
    let mut found: Vec<String> = Vec::new();
    let mut start: usize = 0;
    let mut i: usize = 0;
    proof {
        assert(s@.skip(0) =~= s@);
        assert(s@.subrange(0, 0) =~= Seq::<char>::empty());
        assert(found.deep_view() =~= Seq::<Seq<char>>::empty());
    }
    while i < n
        invariant
            start <= i <= n,
            n == chars.len(),
            chars@ == s@,
            words(s@) == found.deep_view() + words_from(
                s@.skip(i as int),
                s@.subrange(start as int, i as int),
            ),
        decreases n - i,
    {
        proof {
            words_from_step(s@, start as int, i as int);
        }
        if is_whitespace(chars[i]) {
            if start < i {
                let ghost before = found.deep_view();
                found.push(s.substring_char(start, i).to_owned());
                proof {
                    assert(found.deep_view() =~= before + seq![
                        s@.subrange(start as int, i as int),
                    ]);
                }
            }
            proof {
                assert(s@.subrange(i + 1, i + 1) =~= Seq::<char>::empty());
            }
            start = i + 1;
        }
        i += 1;
    }
    proof {
        assert(s@.skip(n as int).len() == 0);
    }
    if start < n {
        let ghost before = found.deep_view();
        found.push(s.substring_char(start, n).to_owned());
        proof {
            assert(found.deep_view() =~= before + seq![s@.subrange(start as int, n as int)]);
        }
    } else {
        proof {
            assert(s@.subrange(start as int, n as int).len() == 0);
            assert(found.deep_view() + Seq::<Seq<char>>::empty() =~= found.deep_view());
        }
    }
    found
}

/// The parts put together with the separator between each two.
pub fn join(parts: &Vec<String>, sep: &str) -> (out: String)
    ensures
        out@ == joined(parts.deep_view(), sep@),
{
    let mut out = String::new();
    let mut i: usize = 0;
    while i < parts.len()
        invariant
            i <= parts.len(),
            out@ == joined(parts.deep_view().take(i as int), sep@),
        decreases parts.len() - i,
    {
        proof {
            let upto = parts.deep_view().take(i + 1);
            assert(upto.drop_last() =~= parts.deep_view().take(i as int));
            assert(upto.last() == parts[i as int]@);
            if i == 0 {
                assert(joined(upto, sep@) == parts[0]@);
                assert(Seq::<char>::empty() + parts[0]@ =~= parts[0]@);
            }
        }
        if i > 0 {
            out.append(sep);
        }
        out.append(parts[i].as_str());
        i += 1;
    }
    proof {
        assert(parts.deep_view().take(parts.len() as int) =~= parts.deep_view());
    }
    out
}

/// A text in which an underscore stands for every blank.
pub open spec fn underscored(s: Seq<char>) -> Seq<char> {
    s.map_values(
        |c: char|
            if c == ' ' {
                '_'
            } else {
                c
            },
    )
}

/// Puts an underscore in the place of every blank.
pub fn replace_blanks(s: &str) -> (out: String)
    ensures
        out@ == underscored(s@),
{
    let chars = to_chars(s);
    let n = chars.len();
    let mut out = String::new();
    let mut i: usize = 0;
    proof {
        reveal_strlit("_");
        assert(out@ =~= underscored(s@.take(0)));
    }
    while i < n
        invariant
            i <= n,
            n == chars.len(),
            chars@ == s@,
            "_"@ == seq!['_'],
            out@ == underscored(s@.take(i as int)),
        decreases n - i,
    {
        let ghost before = out@;
        if chars[i] == ' ' {
            out.append("_");
        } else {
            out.append(s.substring_char(i, i + 1));
            proof {
                assert(s@.subrange(i as int, i + 1) =~= seq![s@[i as int]]);
            }
        }
        proof {
            assert(out@ =~= underscored(s@.take(i + 1)));
        }
        i += 1;
    }
    proof {
        assert(s@.take(n as int) =~= s@);
    }
    out
}

/// Whether `needle` stands in `hay` at position `at`.
fn stands_at(needle: &Vec<char>, hay: &Vec<char>, at: usize) -> (hit: bool)
    requires
        at + needle.len() <= hay.len(),
    ensures
        hit == (hay@.subrange(at as int, at + needle.len()) == needle@),
{
    let mut k: usize = 0;
    while k < needle.len()
        invariant
            k <= needle.len(),
            at + needle.len() <= hay.len(),
            forall|j: int| 0 <= j < k ==> hay@[at + j] == needle@[j],
        decreases needle.len() - k,
    {
        if hay[at + k] != needle[k] {
            proof {
                assert(hay@.subrange(at as int, at + needle.len())[k as int] == hay@[at + k]);
            }
            return false;
        }
        k += 1;
    }
    proof {
        assert(hay@.subrange(at as int, at + needle.len()) =~= needle@);
    }
    true
}

/// Whether `needle` occurs in `hay`.
pub fn contains(hay: &str, needle: &str) -> (found: bool)
    ensures
        found == occurs_in(needle@, hay@),
{
    let hay_chars = to_chars(hay);
    let needle_chars = to_chars(needle);
    if needle_chars.len() > hay_chars.len() {
        return false;
    }
    let last = hay_chars.len() - needle_chars.len();
    let mut at: usize = 0;
    while at < last
        invariant
            at <= last,
            last + needle_chars.len() == hay_chars.len(),
            hay_chars@ == hay@,
            needle_chars@ == needle@,
            forall|i: int|
                0 <= i < at ==> #[trigger] hay@.subrange(i, i + needle@.len()) != needle@,
        decreases last - at,
    {
        if stands_at(&needle_chars, &hay_chars, at) {
            return true;
        }
        at += 1;
    }
    stands_at(&needle_chars, &hay_chars, last)
}

/// Whether `a` comes before `b`, or is `b`, in the order of a dictionary
/// whose letters are ordered by their code points. This is the order in
/// which two texts compare.
pub fn text_le(a: &str, b: &str) -> (le: bool)
    ensures
        le == lex_le(a@, b@),
{
    let left = to_chars(a);
    let right = to_chars(b);
    let mut i: usize = 0;
    proof {
        assert(a@.skip(0) =~= a@);
        assert(b@.skip(0) =~= b@);
    }
    while i < left.len() && i < right.len()
        invariant
            i <= left.len(),
            i <= right.len(),
            left@ == a@,
            right@ == b@,
            lex_le(a@, b@) == lex_le(a@.skip(i as int), b@.skip(i as int)),
        decreases left.len() - i,
    {
        proof {
            assert(a@.skip(i as int).drop_first() =~= a@.skip(i + 1));
            assert(b@.skip(i as int).drop_first() =~= b@.skip(i + 1));
        }
        if left[i] != right[i] {
            return left[i] < right[i];
        }
        i += 1;
    }
    i >= left.len()
}

} // verus!
