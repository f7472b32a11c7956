//! Text as sequences of characters: conversion between `String` and
//! `Vec<char>`, whitespace trimming, splitting and joining of dotted paths,
//! and decimal rendering of integers.

use vstd::prelude::*;
use vstd::std_specs::iter::IteratorSpec;

verus! {

/// The characters of `text`, in order.
pub fn chars_of(text: &str) -> (chars: Vec<char>)
    ensures
        chars@ == text@,
{
    broadcast use vstd::string::group_string_axioms;

    let mut chars: Vec<char> = Vec::new();
    for c in it: text.chars()
        invariant
            it.seq() == text@,
            chars@ == text@.take(it.index()),
    {
        chars.push(c);
    }
    chars
}

/// Collects characters into a `String` with std's `FromIterator<&char>` for
/// `String`. The contract claims that the string holds exactly the given
/// characters, in order.
#[verifier::external_body]
pub(crate) fn string_of(chars: &Vec<char>) -> (text: String)
    ensures
        text@ == chars@,
{
    chars.iter().collect()
}

/// The characters `chars[from..to]` as a `String`.
pub fn text_between(chars: &Vec<char>, from: usize, to: usize) -> (text: String)
    requires
        from <= to <= chars.len(),
    ensures
        text@ == chars@.subrange(from as int, to as int),
{
    let mut part: Vec<char> = Vec::new();
    let mut i: usize = from;
    while i < to
        invariant
            from <= i <= to <= chars.len(),
            part@ == chars@.subrange(from as int, i as int),
        decreases to - i,
    {
        part.push(chars[i]);
        i += 1;
    }
    string_of(&part)
}

/// Whether `c` has the Unicode property White_Space.
pub open spec fn is_whitespace(c: char) -> bool {
    let code = c as u32;
    ||| 0x09 <= code <= 0x0d
    ||| code == 0x20
    ||| code == 0x85
    ||| code == 0xa0
    ||| code == 0x1680
    ||| 0x2000 <= code <= 0x200a
    ||| code == 0x2028
    ||| code == 0x2029
    ||| code == 0x202f
    ||| code == 0x205f
    ||| code == 0x3000
}

/// Whether `c` is whitespace.
pub fn is_space(c: char) -> (space: bool)
    ensures
        space == is_whitespace(c),
{
    let code: u32 = c as u32;
    (0x09 <= code && code <= 0x0d) || code == 0x20 || code == 0x85 || code == 0xa0 || code
        == 0x1680 || (0x2000 <= code && code <= 0x200a) || code == 0x2028 || code == 0x2029
        || code == 0x202f || code == 0x205f || code == 0x3000
}

/// `s` without its leading whitespace.
pub open spec fn trim_start(s: Seq<char>) -> Seq<char>
    decreases s.len(),
{
    if s.len() > 0 && is_whitespace(s[0]) {
        trim_start(s.drop_first())
    } else {
        s
    }
}

/// `s` without its trailing whitespace.
pub open spec fn trim_end(s: Seq<char>) -> Seq<char>
    decreases s.len(),
{
    if s.len() > 0 && is_whitespace(s.last()) {
        trim_end(s.drop_last())
    } else {
        s
    }
}

/// `s` without the whitespace that surrounds it.
pub open spec fn trim(s: Seq<char>) -> Seq<char> {
    trim_end(trim_start(s))
}

/// The bounds of `chars[from..to]` once the surrounding whitespace is cut off.
pub fn trimmed_bounds(chars: &Vec<char>, from: usize, to: usize) -> (bounds: (usize, usize))
    requires
        from <= to <= chars.len(),
    ensures
        from <= bounds.0 <= bounds.1 <= to,
        chars@.subrange(bounds.0 as int, bounds.1 as int) == trim(
            chars@.subrange(from as int, to as int),
        ),
{
    let mut start: usize = from;
    while start < to && is_space(chars[start])
        invariant
            from <= start <= to <= chars.len(),
            trim_start(chars@.subrange(from as int, to as int)) == trim_start(
                chars@.subrange(start as int, to as int),
            ),
        decreases to - start,
    {
        assert(chars@.subrange(start as int, to as int).drop_first() == chars@.subrange(
            start + 1,
            to as int,
        ));
        start += 1;
    }
    let mut end: usize = to;
    while start < end && is_space(chars[end - 1])
        invariant
            start <= end <= to <= chars.len(),
            trim_end(chars@.subrange(start as int, to as int)) == trim_end(
                chars@.subrange(start as int, end as int),
            ),
        decreases end - start,
    {
        assert(chars@.subrange(start as int, end as int).drop_last() == chars@.subrange(
            start as int,
            end - 1,
        ));
        end -= 1;
    }
    (start, end)
}

/// The trimmed text of `chars[from..to]`.
pub fn trimmed_text(chars: &Vec<char>, from: usize, to: usize) -> (text: String)
    requires
        from <= to <= chars.len(),
    ensures
        text@ == trim(chars@.subrange(from as int, to as int)),
{
    let (start, end) = trimmed_bounds(chars, from, to);
    text_between(chars, start, end)
}

/// The position of the first `wanted` in `s` at or after `from`, or the
/// length of `s` where there is none.
pub open spec fn first_at_or_after(s: Seq<char>, wanted: char, from: int) -> int
    decreases s.len() - from,
{
    if from >= s.len() {
        s.len() as int
    } else if s[from] == wanted {
        from
    } else {
        first_at_or_after(s, wanted, from + 1)
    }
}

/// The first `wanted` at or after `from` lies between `from` and the end,
/// and no `wanted` stands between `from` and it.
pub proof fn first_at_or_after_bounds(s: Seq<char>, wanted: char, from: int)
    requires
        0 <= from <= s.len(),
    ensures
        from <= first_at_or_after(s, wanted, from) <= s.len(),
        first_at_or_after(s, wanted, from) < s.len() ==> s[first_at_or_after(s, wanted, from)]
            == wanted,
        forall|i: int| from <= i < first_at_or_after(s, wanted, from) ==> s[i] != wanted,
    decreases s.len() - from,
{
    if from < s.len() && s[from] != wanted {
        first_at_or_after_bounds(s, wanted, from + 1);
    }
}

/// The position of the first `wanted` in `chars` at or after `from`, or the
/// length of `chars`.
pub fn find_from(chars: &Vec<char>, wanted: char, from: usize) -> (at: usize)
    requires
        from <= chars.len(),
    ensures
        at == first_at_or_after(chars@, wanted, from as int),
        from <= at <= chars.len(),
{
    let mut at: usize = from;
    while at < chars.len() && chars[at] != wanted
        invariant
            from <= at <= chars.len(),
            first_at_or_after(chars@, wanted, from as int) == first_at_or_after(
                chars@,
                wanted,
                at as int,
            ),
        decreases chars.len() - at,
    {
        at += 1;
    }
    at
}

/// The pieces of `s` between occurrences of `separator`. A sequence without
/// the separator is one piece, the empty sequence too.
pub open spec fn split(s: Seq<char>, separator: char) -> Seq<Seq<char>>
    decreases s.len(),
{
    let at = first_at_or_after(s, separator, 0);
    if 0 <= at < s.len() {
        seq![s.take(at)] + split(s.skip(at + 1), separator)
    } else {
        seq![s]
    }
}

proof fn first_at_or_after_skip(s: Seq<char>, wanted: char, from: int, at: int)
    requires
        0 <= from <= at <= s.len(),
    ensures
        first_at_or_after(s.skip(from), wanted, at - from) == first_at_or_after(s, wanted, at)
            - from,
    decreases s.len() - at,
{
    if at < s.len() && s[at] != wanted {
        first_at_or_after_skip(s, wanted, from, at + 1);
    }
}

/// The pieces of `text` between occurrences of `separator`.
pub fn split_text(text: &str, separator: char) -> (parts: Vec<String>)
    ensures
        parts.len() >= 1,
        texts(parts@) == split(text@, separator),
{
    let chars = chars_of(text);
    let mut parts: Vec<String> = Vec::new();
    let mut from: usize = 0;
    assert(chars@.skip(0) == chars@);
    assert(texts(parts@) + split(chars@, separator) == split(chars@, separator));
    loop
        invariant
            from <= chars.len(),
            chars@ == text@,
            texts(parts@) + split(chars@.skip(from as int), separator) == split(
                text@,
                separator,
            ),
        decreases chars.len() - from,
    {
        let at = find_from(&chars, separator, from);
        proof {
            first_at_or_after_skip(chars@, separator, from as int, from as int);
            assert(chars@.skip(from as int).take(at - from) == chars@.subrange(
                from as int,
                at as int,
            ));
        }
        let piece = text_between(&chars, from, at);
        let ghost before = texts(parts@);
        parts.push(piece);
        assert(texts(parts@) == before.push(piece@));
        if at < chars.len() {
            assert(chars@.skip(from as int).skip(at - from + 1) == chars@.skip(at + 1));
            assert(before + (seq![piece@] + split(chars@.skip(at + 1), separator))
                == before.push(piece@) + split(chars@.skip(at + 1), separator));
            from = at + 1;
        } else {
            assert(before + seq![piece@] == before.push(piece@));
            assert(chars@.skip(from as int) == chars@.subrange(from as int, at as int));
            return parts;
        }
    }
}

/// What an optional text holds.
pub open spec fn optional_text(text: Option<String>) -> Option<Seq<char>> {
    match text {
        Some(text) => Some(text@),
        None => None,
    }
}

/// The contents of each string of `parts`.
pub open spec fn texts(parts: Seq<String>) -> Seq<Seq<char>> {
    parts.map_values(|part: String| part@)
}

/// The pieces of `parts` with `separator` between each two of them.
pub open spec fn join(parts: Seq<Seq<char>>, separator: Seq<char>) -> Seq<char>
    decreases parts.len(),
{
    if parts.len() == 0 {
        Seq::empty()
    } else if parts.len() == 1 {
        parts[0]
    } else {
        join(parts.drop_last(), separator) + separator + parts.last()
    }
}

/// Splitting a text and joining the pieces with the separator gives the
/// text back.
pub proof fn join_of_split(s: Seq<char>, separator: char)
    ensures
        join(split(s, separator), seq![separator]) == s,
    decreases s.len(),
{
    let at = first_at_or_after(s, separator, 0);
    first_at_or_after_bounds(s, separator, 0);
    if at < s.len() {
        let rest = s.skip(at + 1);
        join_of_split(rest, separator);
        split_is_not_empty(rest, separator);
        join_after_first(s.take(at), split(rest, separator), seq![separator]);
        assert(s.take(at) + seq![separator] + rest =~= s);
    }
}

/// A split gives at least one piece.
pub proof fn split_is_not_empty(s: Seq<char>, separator: char)
    ensures
        split(s, separator).len() >= 1,
{
}

/// Joining one piece and then more pieces puts the separator after the
/// first piece.
pub proof fn join_after_first(first: Seq<char>, rest: Seq<Seq<char>>, separator: Seq<char>)
    requires
        rest.len() >= 1,
    ensures
        join(seq![first] + rest, separator) == first + separator + join(rest, separator),
    decreases rest.len(),
{
    let all = seq![first] + rest;
    assert(all.drop_last() =~= seq![first] + rest.drop_last());
    assert(all.last() == rest.last());
    if rest.len() == 1 {
        assert(all.drop_last() =~= seq![first]);
        assert(join(all.drop_last(), separator) == first);
        assert(join(rest, separator) == rest[0]);
    } else {
        join_after_first(first, rest.drop_last(), separator);
        assert(first + separator + join(rest.drop_last(), separator) + separator + rest.last()
            =~= first + separator + (join(rest.drop_last(), separator) + separator + rest.last()));
    }
}

/// The texts of `parts` with `separator` between each two of them.
pub fn join_texts(parts: &Vec<String>, separator: &str) -> (joined: String)
    ensures
        joined@ == join(texts(parts@), separator@),
{
    let mut joined = String::new();
    let mut i: usize = 0;
    while i < parts.len()
        invariant
            i <= parts.len(),
            joined@ == join(texts(parts@).take(i as int), separator@),
        decreases parts.len() - i,
    {
        let ghost done = texts(parts@).take(i as int);
        let ghost next = texts(parts@).take(i + 1);
        assert(next.drop_last() == done);
        assert(next.last() == parts@[i as int]@);
        if i > 0 {
            joined.append(separator);
        } else {
            assert(joined@ + parts@[i as int]@ == parts@[i as int]@);
        }
        joined.append(parts[i].as_str());
        i += 1;
    }
    assert(texts(parts@).take(parts.len() as int) == texts(parts@));
    joined
}

/// The decimal digits of `n`, most significant first.
pub open spec fn digits(n: nat) -> Seq<char>
    decreases n,
{
    if n < 10 {
        seq![digit(n)]
    } else {
        digits(n / 10).push(digit(n % 10))
    }
}

/// The character of the decimal digit `d`.
pub open spec fn digit(d: nat) -> char {
    (('0' as u8) + d) as u8 as char
}

/// `n` in decimal, with a leading minus sign where it is negative.
pub open spec fn decimal(n: int) -> Seq<char> {
    if n < 0 {
        seq!['-'] + digits((-n) as nat)
    } else {
        digits(n as nat)
    }
}

fn digits_of(n: u64) -> (text: Vec<char>)
    ensures
        text@ == digits(n as nat),
    decreases n,
{
    if n < 10 {
        let mut text: Vec<char> = Vec::new();
        text.push((48u8 + (n as u8)) as char);
        text
    } else {
        let mut text = digits_of(n / 10);
        text.push((48u8 + ((n % 10) as u8)) as char);
        text
    }
}

/// The decimal digits of `n` as text.
pub fn natural_text(n: u64) -> (text: String)
    ensures
        text@ == digits(n as nat),
{
    let shown = digits_of(n);
    string_of(&shown)
}

/// The decimal text of `n`.
pub fn decimal_text(n: i64) -> (text: String)
    ensures
        text@ == decimal(n as int),
{
    if n < 0 {
        let magnitude: u64 = ((-(n + 1)) as u64) + 1;
        let shown = digits_of(magnitude);
        let mut all: Vec<char> = Vec::new();
        all.push('-');
        let mut i: usize = 0;
        while i < shown.len()
            invariant
                i <= shown.len(),
                all@ == seq!['-'] + shown@.take(i as int),
            decreases shown.len() - i,
        {
            all.push(shown[i]);
            i += 1;
        }
        assert(shown@.take(shown.len() as int) == shown@);
        string_of(&all)
    } else {
        let shown = digits_of(n as u64);
        string_of(&shown)
    }
}

} // verus!
