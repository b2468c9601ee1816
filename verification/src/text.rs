//! Characters and strings: the Unicode classifications that the standard
//! library computes from its tables, and a few verified scans over the
//! characters of a string.

use vstd::prelude::*;

verus! {

/// Whether `c` has the Unicode property `Uppercase`, as `char::is_uppercase`
/// reports it.
pub uninterp spec fn unicode_uppercase(c: char) -> bool;

/// Whether `c` has the Unicode property `Lowercase`, as `char::is_lowercase`
/// reports it.
pub uninterp spec fn unicode_lowercase(c: char) -> bool;

/// Whether `c` is alphabetic or numeric in Unicode's sense, as
/// `char::is_alphanumeric` reports it.
pub uninterp spec fn unicode_alphanumeric(c: char) -> bool;

/// Whether `c` has the Unicode property `White_Space`, as
/// `char::is_whitespace` reports it.
pub uninterp spec fn unicode_whitespace(c: char) -> bool;

/// The number that a text stands for in decimal notation, as `str::parse`
/// reads it for the type `i64`; `None` where it reads none.
pub uninterp spec fn decimal_i64(text: Seq<char>) -> Option<i64>;

/// The lowercase form of a string, as `str::to_lowercase` computes it.
pub uninterp spec fn lowercased(s: Seq<char>) -> Seq<char>;

/// `char::is_uppercase` is a function of the character alone; its table is
/// not restated here, its result is `unicode_uppercase`.
pub assume_specification[ char::is_uppercase ](c: char) -> (r: bool)
    ensures
        r == unicode_uppercase(c),
;

/// `char::is_lowercase` is a function of the character alone; its result is
/// `unicode_lowercase`.
pub assume_specification[ char::is_lowercase ](c: char) -> (r: bool)
    ensures
        r == unicode_lowercase(c),
;

/// `char::is_alphanumeric` is a function of the character alone; its result
/// is `unicode_alphanumeric`.
pub assume_specification[ char::is_alphanumeric ](c: char) -> (r: bool)
    ensures
        r == unicode_alphanumeric(c),
;

/// `char::is_whitespace` is a function of the character alone; its result is
/// `unicode_whitespace`.
pub assume_specification[ char::is_whitespace ](c: char) -> (r: bool)
    ensures
        r == unicode_whitespace(c),
;

/// The error of the standard library's parser of integers.
#[verifier::external_type_specification]
#[verifier::external_body]
pub struct ExParseIntError(std::num::ParseIntError);

/// Reads a decimal number with `str::parse`. Whether the text is accepted,
/// and as which number, depends on the text alone.
#[verifier::external_body]
pub(crate) fn parse_i64(text: &str) -> (r: Result<i64, std::num::ParseIntError>)
    ensures
        match r {
            Ok(n) => decimal_i64(text@) == Some(n),
            Err(_) => decimal_i64(text@) is None,
        },
{
    text.parse::<i64>()
}

/// `str::to_lowercase` returns a new string that depends on the characters of
/// its argument alone; its result is `lowercased`.
pub assume_specification[ str::to_lowercase ](s: &str) -> (r: String)
    ensures
        r@ == lowercased(s@),
;

/// Whether `c` is one of the ten ASCII digits.
pub open spec fn ascii_digit(c: char) -> bool {
    '0' <= c <= '9'
}

/// Whether `c` is one of the ten ASCII digits.
pub fn is_ascii_digit(c: char) -> (r: bool)
    ensures
        r == ascii_digit(c),
{
    c >= '0' && c <= '9'
}

/// Whether some character of `s` satisfies `p`.
pub open spec fn any_char(s: Seq<char>, p: spec_fn(char) -> bool) -> bool {
    exists|i: int| 0 <= i < s.len() && #[trigger] p(s[i])
}

/// A character appended to `s` adds itself to what `any_char` looks at, and
/// nothing else.
pub proof fn lemma_any_char_push(s: Seq<char>, c: char, p: spec_fn(char) -> bool)
    ensures
        any_char(s.push(c), p) == (any_char(s, p) || p(c)),
{
    let t = s.push(c);
    if any_char(s, p) {
        let i = choose|i: int| 0 <= i < s.len() && #[trigger] p(s[i]);
        assert(p(t[i]));
    }
    if p(c) {
        assert(p(t[s.len() as int]));
    }
    if any_char(t, p) {
        let i = choose|i: int| 0 <= i < t.len() && #[trigger] p(t[i]);
        if i < s.len() {
            assert(p(s[i]));
        }
    }
}

/// The number of bytes that `s` takes in UTF-8.
pub open spec fn utf8_len(s: Seq<char>) -> nat {
    vstd::utf8::encode_utf8(s).len()
}

/// Whether `c` occurs in `s`.
pub fn contains_char(s: &str, c: char) -> (r: bool)
    ensures
        r == s@.contains(c),
{
    let mut found = false;
    for d in it: s.chars()
        invariant
            it.seq() == s@,
            found == s@.take(it.index() as int).contains(c),
    {
        proof {
            let i = it.index() as int;
            assert(s@.take(i + 1) =~= s@.take(i).push(d));
            if s@.take(i).contains(c) {
                let j = choose|j: int| 0 <= j < i && s@.take(i)[j] == c;
                assert(s@.take(i + 1)[j] == c);
            }
            if d == c {
                assert(s@.take(i + 1)[i] == c);
            }
        }
        if d == c {
            found = true;
        }
    }
    assert(s@.take(s@.len() as int) =~= s@);
    found
}

/// Whether `s` begins with the characters of `prefix`.
pub fn starts_with(s: &str, prefix: &str) -> (r: bool)
    ensures
        r == prefix@.is_prefix_of(s@),
{
    let n = prefix.unicode_len();
    if s.unicode_len() < n {
        return false;
    }
    let mut i: usize = 0;
    while i < n
        invariant
            i <= n,
            n == prefix@.len(),
            n <= s@.len(),
            s@.take(i as int) == prefix@.take(i as int),
        decreases n - i,
    {
        if s.get_char(i) != prefix.get_char(i) {
            proof {
                if prefix@.is_prefix_of(s@) {
                    assert(s@.subrange(0, n as int)[i as int] == prefix@[i as int]);
                }
            }
            return false;
        }
        assert(s@.take(i + 1) =~= s@.take(i as int).push(s@[i as int]));
        assert(prefix@.take(i + 1) =~= prefix@.take(i as int).push(prefix@[i as int]));
        i += 1;
    }
    assert(prefix@.take(n as int) =~= prefix@);
    true
}

/// Whether two strings hold the same characters.
pub fn same_text(a: &str, b: &str) -> (r: bool)
    ensures
        r == (a@ == b@),
{
    let n = a.unicode_len();
    if b.unicode_len() != n {
        return false;
    }
    let r = starts_with(a, b);
    proof {
        assert(a@.subrange(0, n as int) =~= a@);
    }
    r
}

/// The first place from `from` on that holds no white space, or the end.
pub open spec fn trim_start_at(s: Seq<char>, from: int) -> int
    decreases s.len() - from,
{
    if 0 <= from < s.len() && unicode_whitespace(s[from]) {
        trim_start_at(s, from + 1)
    } else {
        from
    }
}

/// The place down from `to` before which the last character that is no
/// white space stands, or `start`.
pub open spec fn trim_end_at(s: Seq<char>, start: int, to: int) -> int
    decreases to - start,
{
    if start < to <= s.len() && unicode_whitespace(s[to - 1]) {
        trim_end_at(s, start, to - 1)
    } else {
        to
    }
}

/// A text without the white space at its two ends.
pub open spec fn trimmed(s: Seq<char>) -> Seq<char> {
    let start = trim_start_at(s, 0);
    s.subrange(start, trim_end_at(s, start, s.len() as int))
}

/// The pieces into which the separator cuts the part of `s` from `start`
/// on, when no separator stands between `start` and `i`.
pub open spec fn split_from(s: Seq<char>, separator: char, start: int, i: int) -> Seq<Seq<char>>
    decreases s.len() - i,
{
    if i >= s.len() {
        seq![s.subrange(start, s.len() as int)]
    } else if s[i] == separator {
        seq![s.subrange(start, i)] + split_from(s, separator, i + 1, i + 1)
    } else {
        split_from(s, separator, start, i + 1)
    }
}

/// The pieces into which the separator cuts a text, in their order.
pub open spec fn split_on(s: Seq<char>, separator: char) -> Seq<Seq<char>> {
    split_from(s, separator, 0, 0)
}

/// The texts of a list of string slices.
pub open spec fn slice_texts(pieces: Seq<&str>) -> Seq<Seq<char>> {
    pieces.map_values(|piece: &str| piece@)
}

/// The texts of a list of strings.
pub open spec fn string_texts(strings: Seq<String>) -> Seq<Seq<char>> {
    strings.map_values(|text: String| text@)
}

/// Cuts the white space off the two ends of a text.
pub fn trim(s: &str) -> (r: &str)
    ensures
        r@ == trimmed(s@),
{
    let n = s.unicode_len();
    let mut start: usize = 0;
    let mut scanning = true;
    while scanning && start < n
        invariant
            n == s@.len(),
            start <= n,
            trim_start_at(s@, 0) == trim_start_at(s@, start as int),
            !scanning ==> start < n && !unicode_whitespace(s@[start as int]),
        decreases n - start + (if scanning { 1int } else { 0int }),
    {
        if s.get_char(start).is_whitespace() {
            start += 1;
        } else {
            scanning = false;
        }
    }
    let mut end: usize = n;
    scanning = true;
    while scanning && end > start
        invariant
            n == s@.len(),
            start <= end <= n,
            trim_end_at(s@, start as int, n as int) == trim_end_at(s@, start as int, end as int),
            !scanning ==> end > start && !unicode_whitespace(s@[end - 1]),
        decreases end - start + (if scanning { 1int } else { 0int }),
    {
        if s.get_char(end - 1).is_whitespace() {
            end -= 1;
        } else {
            scanning = false;
        }
    }
    s.substring_char(start, end)
}

/// Cuts a text at every separator.
pub fn split(s: &str, separator: char) -> (pieces: Vec<&str>)
    ensures
        slice_texts(pieces@) == split_on(s@, separator),
{
    let n = s.unicode_len();
    let mut pieces: Vec<&str> = Vec::new();
    let mut start: usize = 0;
    let mut i: usize = 0;
    while i < n
        invariant
            n == s@.len(),
            start <= i <= n,
            slice_texts(pieces@) + split_from(s@, separator, start as int, i as int) == split_on(
                s@,
                separator,
            ),
        decreases n - i,
    {
        if s.get_char(i) == separator {
            let piece = s.substring_char(start, i);
            proof {
                let before = slice_texts(pieces@);
                let rest = split_from(s@, separator, i + 1, i + 1);
                assert(slice_texts(pieces@.push(piece)) =~= before.push(piece@));
                assert(before.push(piece@) + rest =~= before + (seq![piece@] + rest));
            }
            pieces.push(piece);
            start = i + 1;
        }
        i += 1;
    }
    let piece = s.substring_char(start, n);
    proof {
        let before = slice_texts(pieces@);
        assert(slice_texts(pieces@.push(piece)) =~= before.push(piece@));
        assert(before.push(piece@) =~= before + seq![piece@]);
    }
    pieces.push(piece);
    pieces
}

/// The pieces of a list put together again, with the separator between
/// each two of them.
pub open spec fn joined(pieces: Seq<Seq<char>>, separator: char) -> Seq<char>
    decreases pieces.len(),
{
    if pieces.len() == 0 {
        Seq::empty()
    } else if pieces.len() == 1 {
        pieces[0]
    } else {
        pieces[0] + seq![separator] + joined(pieces.drop_first(), separator)
    }
}

/// Where the scan for the start of a trimmed text ends: at or after the
/// place it began, with white space only in between, and not on white space.
pub proof fn lemma_trim_start_at(s: Seq<char>, from: int)
    requires
        0 <= from <= s.len(),
    ensures
        from <= trim_start_at(s, from) <= s.len(),
        forall|i: int| from <= i < trim_start_at(s, from) ==> unicode_whitespace(#[trigger] s[i]),
        trim_start_at(s, from) < s.len() ==> !unicode_whitespace(s[trim_start_at(s, from)]),
    decreases s.len() - from,
{
    if from < s.len() && unicode_whitespace(s[from]) {
        lemma_trim_start_at(s, from + 1);
    }
}

/// Where the scan for the end of a trimmed text ends: at or before the place
/// it began, with white space only in between, and not after white space.
pub proof fn lemma_trim_end_at(s: Seq<char>, start: int, to: int)
    requires
        0 <= start <= to <= s.len(),
    ensures
        start <= trim_end_at(s, start, to) <= to,
        forall|i: int| trim_end_at(s, start, to) <= i < to ==> unicode_whitespace(#[trigger] s[i]),
        trim_end_at(s, start, to) > start ==> !unicode_whitespace(s[trim_end_at(s, start, to) - 1]),
    decreases to - start,
{
    if start < to && unicode_whitespace(s[to - 1]) {
        lemma_trim_end_at(s, start, to - 1);
    }
}

/// A trimmed text is a stretch of the text it was made of, with nothing but
/// white space cut off before and after it, and it neither begins nor ends
/// with white space.
pub proof fn lemma_trimmed_has_clean_ends(s: Seq<char>)
    ensures
        exists|start: int, end: int|
            {
                &&& 0 <= start <= end <= s.len()
                &&& trimmed(s) == #[trigger] s.subrange(start, end)
                &&& forall|i: int| 0 <= i < start ==> unicode_whitespace(#[trigger] s[i])
                &&& forall|i: int| end <= i < s.len() ==> unicode_whitespace(#[trigger] s[i])
            },
        trimmed(s).len() > 0 ==> !unicode_whitespace(trimmed(s)[0]) && !unicode_whitespace(
            trimmed(s)[trimmed(s).len() - 1],
        ),
{
    let start = trim_start_at(s, 0);
    lemma_trim_start_at(s, 0);
    let end = trim_end_at(s, start, s.len() as int);
    lemma_trim_end_at(s, start, s.len() as int);
    assert(trimmed(s) == s.subrange(start, end));
}

/// Cutting never gives an empty list, no piece holds the separator, and the
/// pieces joined by the separator are the part of the text that was cut.
pub proof fn lemma_split_from(s: Seq<char>, separator: char, start: int, i: int)
    requires
        0 <= start <= i <= s.len(),
        forall|j: int| start <= j < i ==> s[j] != separator,
    ensures
        split_from(s, separator, start, i).len() >= 1,
        forall|k: int|
            0 <= k < split_from(s, separator, start, i).len() ==> !(#[trigger] split_from(
                s,
                separator,
                start,
                i,
            )[k]).contains(separator),
        joined(split_from(s, separator, start, i), separator) == s.subrange(start, s.len() as int),
    decreases s.len() - i,
{
    let pieces = split_from(s, separator, start, i);
    if i >= s.len() {
        assert(pieces[0] == s.subrange(start, s.len() as int));
    } else if s[i] == separator {
        lemma_split_from(s, separator, i + 1, i + 1);
        let first = s.subrange(start, i);
        let rest = split_from(s, separator, i + 1, i + 1);
        assert(pieces == seq![first] + rest);
        assert(pieces.drop_first() =~= rest);
        assert(pieces[0] == first);
        assert(first + seq![separator] + s.subrange(i + 1, s.len() as int) =~= s.subrange(
            start,
            s.len() as int,
        ));
        assert forall|k: int| 0 <= k < pieces.len() implies !(#[trigger] pieces[k]).contains(
            separator,
        ) by {
            if k > 0 {
                assert(pieces[k] == rest[k - 1]);
            }
        }
    } else {
        lemma_split_from(s, separator, start, i + 1);
    }
}

/// The pieces of a text never hold the separator, and joined by it they are
/// the text again.
pub proof fn lemma_split_then_join(s: Seq<char>, separator: char)
    ensures
        split_on(s, separator).len() >= 1,
        forall|k: int|
            0 <= k < split_on(s, separator).len() ==> !(#[trigger] split_on(s, separator)[k]).contains(
                separator,
            ),
        joined(split_on(s, separator), separator) == s,
{
    lemma_split_from(s, separator, 0, 0);
    assert(s.subrange(0, s.len() as int) =~= s);
}

} // verus!
