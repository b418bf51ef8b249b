//! Unicode text: trimming, lines, searching, decoding.

use vstd::prelude::*;

verus! {

/// The characters with the Unicode property `White_Space`.
pub open spec fn white_space(c: char) -> bool {
    ||| '\u{9}' <= c <= '\u{d}'
    ||| c == '\u{20}'
    ||| c == '\u{85}'
    ||| c == '\u{a0}'
    ||| c == '\u{1680}'
    ||| '\u{2000}' <= c <= '\u{200a}'
    ||| '\u{2028}' <= c <= '\u{2029}'
    ||| c == '\u{202f}'
    ||| c == '\u{205f}'
    ||| c == '\u{3000}'
}

/// Whether `c` is white space.
pub fn is_whitespace(c: char) -> (result: bool)
    ensures
        result == white_space(c),
{
    ('\u{9}' <= c && c <= '\u{d}') || c == '\u{20}' || c == '\u{85}' || c == '\u{a0}' || c
        == '\u{1680}' || ('\u{2000}' <= c && c <= '\u{200a}') || ('\u{2028}' <= c && c
        <= '\u{2029}') || c == '\u{202f}' || c == '\u{205f}' || c == '\u{3000}'
}

/// The characters of a string, in order.
pub fn chars_of(s: &str) -> (result: Vec<char>)
    ensures
        result@ == s@,
{
    let mut result: Vec<char> = Vec::new();
    for c in it: s.chars()
        invariant
            result@ == s@.take(it.index()),
            it.seq() == s@,
    {
        result.push(c);
        assert(s@.take(it.index() + 1) == s@.take(it.index()).push(c));
    }
    assert(s@.take(s@.len() as int) == s@);
    result
}

/// `s` without its leading white space.
pub open spec fn trimmed_start(s: Seq<char>) -> Seq<char>
    decreases s.len(),
{
    if s.len() > 0 && white_space(s.first()) {
        trimmed_start(s.drop_first())
    } else {
        s
    }
}

/// `s` without its trailing white space.
pub open spec fn trimmed_end(s: Seq<char>) -> Seq<char>
    decreases s.len(),
{
    if s.len() > 0 && white_space(s.last()) {
        trimmed_end(s.drop_last())
    } else {
        s
    }
}

/// `s` without leading and trailing white space.
pub open spec fn trimmed(s: Seq<char>) -> Seq<char> {
    trimmed_end(trimmed_start(s))
}

/// The part of `s` between its leading and its trailing white space.
pub fn trim(s: &str) -> (result: &str)
    ensures
        result@ == trimmed(s@),
{
    let chars = chars_of(s);
    let len: usize = chars.len();
    let mut from: usize = 0;
    assert(s@.subrange(0, len as int) == s@);
    while from < len && is_whitespace(chars[from])
        invariant
            chars@ == s@,
            len == s@.len(),
            from <= len,
            trimmed_start(s@.subrange(from as int, len as int)) == trimmed_start(s@),
        decreases len - from,
    {
        assert(s@.subrange(from as int, len as int).drop_first() == s@.subrange(
            from + 1,
            len as int,
        ));
        from = from + 1;
    }
    let ghost kept = s@.subrange(from as int, len as int);
    assert(trimmed_start(s@) == kept);
    let mut to: usize = len;
    while from < to && is_whitespace(chars[to - 1])
        invariant
            chars@ == s@,
            len == s@.len(),
            from <= to <= len,
            trimmed_end(s@.subrange(from as int, to as int)) == trimmed_end(kept),
        decreases to - from,
    {
        assert(s@.subrange(from as int, to as int).drop_last() == s@.subrange(
            from as int,
            to - 1,
        ));
        to = to - 1;
    }
    s.substring_char(from, to)
}

/// Whether `needle` stands in `hay` at position `at`.
pub open spec fn stands_at(needle: Seq<char>, hay: Seq<char>, at: int) -> bool {
    &&& 0 <= at
    &&& at + needle.len() <= hay.len()
    &&& hay.subrange(at, at + needle.len()) == needle
}

/// Whether `needle` stands anywhere in `hay`.
pub open spec fn occurs(needle: Seq<char>, hay: Seq<char>) -> bool {
    exists|at: int| stands_at(needle, hay, at)
}

fn matches_at(hay: &Vec<char>, needle: &Vec<char>, at: usize) -> (result: bool)
    requires
        at + needle@.len() <= hay@.len(),
    ensures
        result == stands_at(needle@, hay@, at as int),
{
    let mut i: usize = 0;
    while i < needle.len()
        invariant
            at + needle.len() <= hay.len(),
            i <= needle.len(),
            forall|j: int| 0 <= j < i ==> hay@[at + j] == #[trigger] needle@[j],
        decreases needle@.len() - i,
    {
        if hay[at + i] != needle[i] {
            assert(hay@.subrange(at as int, at + needle@.len())[i as int] != needle@[i as int]);
            return false;
        }
        i = i + 1;
    }
    assert(hay@.subrange(at as int, at + needle@.len()) =~= needle@);
    true
}

/// Whether `needle` is a part of `hay`.
pub fn contains(hay: &str, needle: &str) -> (result: bool)
    ensures
        result == occurs(needle@, hay@),
{
    let hay_chars = chars_of(hay);
    let needle_chars = chars_of(needle);
    if needle_chars.len() > hay_chars.len() {
        return false;
    }
    let last: usize = hay_chars.len() - needle_chars.len();
    let mut at: usize = 0;
    while at <= last
        invariant
            hay_chars@ == hay@,
            needle_chars@ == needle@,
            last == hay@.len() - needle@.len(),
            at <= last + 1,
            forall|i: int| 0 <= i < at ==> !#[trigger] stands_at(needle@, hay@, i),
        decreases last + 1 - at,
    {
        if matches_at(&hay_chars, &needle_chars, at) {
            return true;
        }
        if at == last {
            return false;
        }
        at = at + 1;
    }
    false
}

/// What follows `prefix` in `s`, if `s` begins with it.
pub open spec fn after_prefix(s: Seq<char>, prefix: Seq<char>) -> Option<Seq<char>> {
    if stands_at(prefix, s, 0) {
        Some(s.skip(prefix.len() as int))
    } else {
        None
    }
}

/// The rest of `s` behind `prefix`, if `s` begins with `prefix`.
pub fn strip_prefix<'a>(s: &'a str, prefix: &str) -> (result: Option<&'a str>)
    ensures
        match result {
            Some(rest) => after_prefix(s@, prefix@) == Some(rest@),
            None => after_prefix(s@, prefix@) is None,
        },
{
    let chars = chars_of(s);
    let prefix_chars = chars_of(prefix);
    if prefix_chars.len() > chars.len() || !matches_at(&chars, &prefix_chars, 0) {
        return None;
    }
    Some(s.substring_char(prefix_chars.len(), chars.len()))
}

/// Whether two strings hold the same characters.
pub fn same_text(a: &str, b: &str) -> (result: bool)
    ensures
        result == (a@ == b@),
{
    a.to_owned() == b.to_owned()
}

/// How many characters of `s` stand in front of its first line feed.
pub open spec fn first_line_len(s: Seq<char>) -> nat
    decreases s.len(),
{
    if s.len() == 0 || s.first() == '\n' {
        0
    } else {
        1 + first_line_len(s.drop_first())
    }
}

/// A line without the carriage return in front of its line feed.
pub open spec fn without_return(line: Seq<char>) -> Seq<char> {
    if line.len() > 0 && line.last() == '\r' {
        line.drop_last()
    } else {
        line
    }
}

/// The lines of `s`: each ends with a line feed, or with a carriage return and a line
/// feed, that is not part of it; the last one may go without.
pub open spec fn lines_of(s: Seq<char>) -> Seq<Seq<char>>
    decreases s.len(),
    via lines_of_decreases
{
    if s.len() == 0 {
        Seq::empty()
    } else if first_line_len(s) == s.len() {
        seq![s]
    } else {
        seq![without_return(s.take(first_line_len(s) as int))] + lines_of(
            s.skip(first_line_len(s) as int + 1),
        )
    }
}

pub(crate) proof fn lemma_first_line_len(s: Seq<char>)
    ensures
        first_line_len(s) <= s.len(),
        first_line_len(s) < s.len() ==> s[first_line_len(s) as int] == '\n',
        forall|i: int| 0 <= i < first_line_len(s) ==> s[i] != '\n',
    decreases s.len(),
{
    if s.len() != 0 && s.first() != '\n' {
        lemma_first_line_len(s.drop_first());
        assert forall|i: int| 0 <= i < first_line_len(s) implies s[i] != '\n' by {
            if i > 0 {
                assert(s.drop_first()[i - 1] == s[i]);
            }
        }
    }
}

#[via_fn]
proof fn lines_of_decreases(s: Seq<char>) {
    lemma_first_line_len(s);
}

/// A position in front of which there is no line feed, and which is the end or holds
/// one, is where the first line ends.
pub(crate) proof fn lemma_first_line_ends(s: Seq<char>, n: int)
    requires
        0 <= n <= s.len(),
        n < s.len() ==> s[n] == '\n',
        forall|i: int| 0 <= i < n ==> s[i] != '\n',
    ensures
        first_line_len(s) == n,
    decreases s.len(),
{
    lemma_first_line_len(s);
    if n > 0 {
        assert(forall|i: int| 0 <= i < n - 1 ==> s.drop_first()[i] == s[i + 1]);
        lemma_first_line_ends(s.drop_first(), n - 1);
    }
}

/// The texts that strings hold.
pub open spec fn texts(strings: Seq<String>) -> Seq<Seq<char>> {
    Seq::new(strings.len(), |i: int| strings[i]@)
}

/// The lines of `s`, without their line ends.
pub fn lines(s: &str) -> (result: Vec<String>)
    ensures
        texts(result@) == lines_of(s@),
{
    let chars = chars_of(s);
    let len: usize = chars.len();
    let mut result: Vec<String> = Vec::new();
    let mut start: usize = 0;
    assert(s@.subrange(0, len as int) == s@);
    assert(texts(result@) + lines_of(s@) == lines_of(s@));
    while start < len
        invariant
            chars@ == s@,
            len == s@.len(),
            start <= len,
            texts(result@) + lines_of(s@.subrange(start as int, len as int)) == lines_of(s@),
        decreases len - start,
    {
        let ghost rest = s@.subrange(start as int, len as int);
        let mut end: usize = start;
        while end < len && chars[end] != '\n'
            invariant
                chars@ == s@,
                len == s@.len(),
                start <= end <= len,
                rest == s@.subrange(start as int, len as int),
                forall|i: int| 0 <= i < end - start ==> rest[i] != '\n',
            decreases len - end,
        {
            end = end + 1;
        }
        proof {
            lemma_first_line_ends(rest, end - start);
        }
        let ghost before = texts(result@);
        if end == len {
            let line = s.substring_char(start, len).to_owned();
            result.push(line);
            proof {
                assert(texts(result@) == before.push(rest));
                assert(s@.subrange(len as int, len as int) == Seq::<char>::empty());
                assert(before + seq![rest] == before.push(rest));
                assert(before.push(rest) + lines_of(Seq::empty()) == before.push(rest));
            }
            start = len;
        } else {
            let cut: usize = if end > start && chars[end - 1] == '\r' {
                end - 1
            } else {
                end
            };
            let line = s.substring_char(start, cut).to_owned();
            result.push(line);
            proof {
                assert(rest.take(end - start) == s@.subrange(start as int, end as int));
                assert(line@ == without_return(rest.take(end - start)));
                assert(texts(result@) == before.push(line@));
                let tail = lines_of(s@.subrange(end + 1, len as int));
                assert(rest.skip(end - start + 1) == s@.subrange(end + 1, len as int));
                assert(before + (seq![line@] + tail) == before.push(line@) + tail);
            }
            start = end + 1;
        }
    }
    assert(s@.subrange(len as int, len as int) == Seq::<char>::empty());
    assert(texts(result@) + Seq::<Seq<char>>::empty() == texts(result@));
    result
}

/// The lower case of an ASCII letter, any other character itself.
pub open spec fn ascii_lower(c: char) -> char {
    if 'A' <= c <= 'Z' {
        ((c as u32) + 32) as char
    } else {
        c
    }
}

/// A text with its ASCII letters in lower case.
pub open spec fn ascii_lowercase(s: Seq<char>) -> Seq<char> {
    Seq::new(s.len(), |i: int| ascii_lower(s[i]))
}

/// The lower case of a text, as `str::to_lowercase` gives it.
pub uninterp spec fn lowercase(s: Seq<char>) -> Seq<char>;

/// Calls `str::to_lowercase`. Its result depends on the text alone, and on a text of
/// ASCII characters it changes the letters `A` to `Z` and nothing else.
#[verifier::external_body]
pub(crate) fn to_lowercase(s: &str) -> (result: String)
    ensures
        result@ == lowercase(s@),
        vstd::utf8::is_ascii_chars(s@) ==> result@ == ascii_lowercase(s@),
{
    s.to_lowercase()
}

/// The text that `String::from_utf8_lossy` reads from bytes.
pub uninterp spec fn utf8_lossy(bytes: Seq<u8>) -> Seq<char>;

/// Calls `String::from_utf8_lossy`. Its result depends on the bytes alone; valid UTF-8
/// is decoded as it stands.
#[verifier::external_body]
pub(crate) fn from_utf8_lossy(bytes: &[u8]) -> (result: String)
    ensures
        result@ == utf8_lossy(bytes@),
        vstd::utf8::valid_utf8(bytes@) ==> result@ == vstd::utf8::decode_utf8(bytes@),
{
    String::from_utf8_lossy(bytes).into_owned()
}

/// Of the ASCII characters, the blank and the controls from tab to carriage return are white
/// space, and no others.
pub proof fn law_white_space_in_ascii(c: char)
    requires
        (c as int) < 128,
    ensures
        white_space(c) <==> c as int == 32 || 9 <= c as int <= 13,
{
}

proof fn lemma_trimmed_start(s: Seq<char>) -> (from: int)
    ensures
        0 <= from <= s.len(),
        trimmed_start(s) == s.skip(from),
        forall|i: int| 0 <= i < from ==> white_space(#[trigger] s[i]),
        from < s.len() ==> !white_space(s[from]),
    decreases s.len(),
{
    if s.len() > 0 && white_space(s.first()) {
        let rest = s.drop_first();
        let from = lemma_trimmed_start(rest);
        assert(rest.skip(from) == s.skip(from + 1));
        assert forall|i: int| 0 <= i < from + 1 implies white_space(#[trigger] s[i]) by {
            if i > 0 {
                assert(rest[i - 1] == s[i]);
            }
        }
        from + 1
    } else {
        assert(s.skip(0) == s);
        0
    }
}

proof fn lemma_trimmed_end(s: Seq<char>) -> (to: int)
    ensures
        0 <= to <= s.len(),
        trimmed_end(s) == s.take(to),
        forall|i: int| to <= i < s.len() ==> white_space(#[trigger] s[i]),
        to > 0 ==> !white_space(s[to - 1]),
    decreases s.len(),
{
    if s.len() > 0 && white_space(s.last()) {
        let rest = s.drop_last();
        let to = lemma_trimmed_end(rest);
        assert(rest.take(to) == s.take(to));
        assert forall|i: int| to <= i < s.len() implies white_space(#[trigger] s[i]) by {
            if i < s.len() - 1 {
                assert(rest[i] == s[i]);
            }
        }
        to
    } else {
        assert(s.take(s.len() as int) == s);
        s.len() as int
    }
}

/// Trimming cuts white space off both ends, all of it, and nothing else.
pub proof fn law_trimming_cuts_white_space(s: Seq<char>)
    ensures
        exists|from: int, to: int|
            {
                &&& 0 <= from <= to <= s.len()
                &&& #[trigger] s.subrange(from, to) == trimmed(s)
                &&& forall|i: int|
                    0 <= i < from || to <= i < s.len() ==> white_space(#[trigger] s[i])
            },
        trimmed(s).len() > 0 ==> !white_space(trimmed(s).first()) && !white_space(
            trimmed(s).last(),
        ),
{
    let from = lemma_trimmed_start(s);
    let rest = s.skip(from);
    let len = lemma_trimmed_end(rest);
    assert(rest.take(len) == s.subrange(from, from + len));
    assert forall|i: int| 0 <= i < from || from + len <= i < s.len() implies white_space(
        #[trigger] s[i],
    ) by {
        if i >= from {
            assert(rest[i - from] == s[i]);
        }
    }
    assert(s.subrange(from, from + len) == trimmed(s));
}

/// A text is a part of another exactly when the other can be cut around it.
pub proof fn law_parts_of_a_text(before: Seq<char>, needle: Seq<char>, after: Seq<char>, hay: Seq<char>)
    ensures
        occurs(needle, before + needle + after),
        occurs(needle, hay) ==> exists|front: Seq<char>, back: Seq<char>|
            #[trigger] (front + needle + back) == hay,
{
    let whole = before + needle + after;
    assert(whole.subrange(before.len() as int, (before.len() + needle.len()) as int) == needle);
    assert(stands_at(needle, whole, before.len() as int));
    if occurs(needle, hay) {
        let at = choose|at: int| stands_at(needle, hay, at);
        let front = hay.take(at);
        let back = hay.skip(at + needle.len());
        assert(front + needle + back =~= hay) by {
            assert(hay.subrange(at, at + needle.len()) == needle);
        }
    }
}

/// What follows a prefix is the rest, and a text that is not the prefix and a rest does not
/// begin with it.
pub proof fn law_prefix_and_rest(prefix: Seq<char>, rest: Seq<char>, s: Seq<char>)
    ensures
        after_prefix(prefix + rest, prefix) == Some(rest),
        after_prefix(s, prefix) matches Some(tail) ==> s == prefix + tail,
{
    let whole = prefix + rest;
    assert(whole.subrange(0, prefix.len() as int) == prefix);
    assert(whole.skip(prefix.len() as int) == rest);
    if stands_at(prefix, s, 0) {
        assert(s == s.subrange(0, prefix.len() as int) + s.skip(prefix.len() as int));
    }
}

/// A line ends at the first line feed, or with the text: what stands in front of it is the first
/// line, without a carriage return at its end, and what stands behind it has the other lines.
pub proof fn law_lines_end_at_line_feeds(line: Seq<char>, rest: Seq<char>)
    requires
        forall|i: int| 0 <= i < line.len() ==> line[i] != '\n',
    ensures
        lines_of(line + seq!['\n'] + rest) == seq![
            if line.len() > 0 && line.last() == '\r' {
                line.drop_last()
            } else {
                line
            },
        ] + lines_of(rest),
        lines_of(line) == if line.len() == 0 {
            Seq::<Seq<char>>::empty()
        } else {
            seq![line]
        },
{
    let whole = line + seq!['\n'] + rest;
    let n = line.len() as int;
    assert(whole[n] == '\n');
    lemma_first_line_ends(whole, n);
    lemma_first_line_ends(line, n);
    assert(whole.take(n) == line);
    assert(whole.skip(n + 1) == rest);
}

/// The texts of strings are their texts, one by one.
pub proof fn law_texts_one_by_one(strings: Seq<String>, at: int)
    requires
        0 <= at < strings.len(),
    ensures
        texts(strings).len() == strings.len(),
        texts(strings)[at] == strings[at]@,
{
}

/// Lower case turns each of the letters `A` to `Z` into the letter 32 places on, which is `a` to
/// `z`, and leaves every other character and the length alone.
pub proof fn law_lower_case_of_letters(s: Seq<char>, at: int)
    requires
        0 <= at < s.len(),
    ensures
        ascii_lowercase(s).len() == s.len(),
        'A' <= s[at] <= 'Z' ==> ascii_lowercase(s)[at] as int == s[at] as int + 32
            && 'a' <= ascii_lowercase(s)[at] <= 'z',
        !('A' <= s[at] <= 'Z') ==> ascii_lowercase(s)[at] == s[at],
{
}

} // verus!
