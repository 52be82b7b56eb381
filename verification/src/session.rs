//! The anti-forgery token inside a credential string.
//!
//! A credential string is a list of segments separated by `;`. The token segment is
//! the first one of the form `key=value` whose key, trimmed, is the token's name. Its
//! value ends at the next `=` or at the end of the segment, and is trimmed.
use crate::text::{
    chars_of, find_char, is_space, lemma_position, position, range_is, trim_range, trimmed,
    trimmed_is_bare_at_both_ends,
};
use vstd::prelude::*;
use vstd::string::*;

verus! {

/// The name of the token's segment.
pub open spec fn token_name() -> Seq<char> {
    "XSRF-TOKEN"@
}

/// Whether a segment has a key and that key, trimmed, is the token's name.
pub open spec fn names_token(segment: Seq<char>) -> bool {
    let eq = position(segment, '=');
    eq < segment.len() && trimmed(segment.take(eq as int)) == token_name()
}

/// The value of a segment that has a key: what stands between its first `=` and its
/// next `=` or its end, trimmed.
pub open spec fn segment_value(segment: Seq<char>) -> Seq<char> {
    let rest = segment.skip(position(segment, '=') as int + 1);
    trimmed(rest.take(position(rest, '=') as int))
}

/// The token that a credential string holds: the value of its first token segment,
/// unless that value is empty.
pub open spec fn token_in(cookie: Seq<char>) -> Option<Seq<char>>
    decreases cookie.len(),
{
    let end = position(cookie, ';');
    let segment = cookie.take(end as int);
    if names_token(segment) {
        if segment_value(segment).len() > 0 {
            Some(segment_value(segment))
        } else {
            None
        }
    } else if end < cookie.len() {
        token_in(cookie.skip(end as int + 1))
    } else {
        None
    }
}

/// A token that was found is never empty, and neither starts nor ends with white
/// space.
pub proof fn token_is_not_empty(cookie: Seq<char>)
    ensures
        token_in(cookie) is Some ==> {
            let token = token_in(cookie).unwrap();
            token.len() > 0 && !is_space(token[0]) && !is_space(token.last())
        },
    decreases cookie.len(),
{
    let end = position(cookie, ';');
    let segment = cookie.take(end as int);
    if names_token(segment) {
        let rest = segment.skip(position(segment, '=') as int + 1);
        trimmed_is_bare_at_both_ends(rest.take(position(rest, '=') as int));
    } else if end < cookie.len() {
        token_is_not_empty(cookie.skip(end as int + 1));
    }
}

/// Whether `c` occurs nowhere in `s`.
pub open spec fn free_of(s: Seq<char>, c: char) -> bool {
    forall|i: int| 0 <= i < s.len() ==> s[i] != c
}

/// The segments, each followed by `;`.
pub open spec fn joined(segments: Seq<Seq<char>>) -> Seq<char>
    decreases segments.len(),
{
    if segments.len() == 0 {
        Seq::<char>::empty()
    } else {
        segments[0] + seq![';'] + joined(segments.drop_first())
    }
}

/// Whether every one of the segments is free of `;` and is no token segment.
pub open spec fn all_other_segments(segments: Seq<Seq<char>>) -> bool {
    forall|i: int|
        0 <= i < segments.len() ==> free_of(#[trigger] segments[i], ';') && !names_token(
            segments[i],
        )
}

/// A segment that is no token segment is passed over.
proof fn lemma_skip_segment(segment: Seq<char>, rest: Seq<char>)
    requires
        free_of(segment, ';'),
        !names_token(segment),
    ensures
        token_in(segment + seq![';'] + rest) == token_in(rest),
{
    let s = segment + seq![';'] + rest;
    lemma_position(s, ';', segment.len() as int);
    assert(s.take(segment.len() as int) =~= segment);
    assert(s.skip(segment.len() as int + 1) =~= rest);
}

/// Segments that are no token segments are passed over.
proof fn lemma_skip_segments(earlier: Seq<Seq<char>>, rest: Seq<char>)
    requires
        all_other_segments(earlier),
    ensures
        token_in(joined(earlier) + rest) == token_in(rest),
    decreases earlier.len(),
{
    if earlier.len() == 0 {
        assert(joined(earlier) + rest =~= rest);
    } else {
        let tail = earlier.drop_first();
        assert forall|i: int| 0 <= i < tail.len() implies free_of(#[trigger] tail[i], ';')
            && !names_token(tail[i]) by {
            assert(tail[i] == earlier[i + 1]);
        }
        lemma_skip_segments(tail, rest);
        lemma_skip_segment(earlier[0], joined(tail) + rest);
        assert(joined(earlier) + rest =~= earlier[0] + seq![';'] + (joined(tail) + rest));
    }
}

/// A last segment, or one that `;` follows, is read as the whole string's first segment.
proof fn lemma_first_segment(segment: Seq<char>, later: Seq<char>)
    requires
        free_of(segment, ';'),
        later.len() == 0 || later[0] == ';',
    ensures
        position(segment + later, ';') == segment.len(),
        (segment + later).take(segment.len() as int) == segment,
{
    let s = segment + later;
    lemma_position(s, ';', segment.len() as int);
    assert(s.take(segment.len() as int) =~= segment);
}

/// A credential string with a well-formed token segment holds the token that stands
/// between that segment's `=` and the next `;` or the end of the string, trimmed.
///
/// The segment is `key=value`: its key, trimmed, is the token's name, its value holds
/// no further `=` and is not blank, and no token segment stands before it.
pub proof fn token_of_well_formed_segment(
    earlier: Seq<Seq<char>>,
    key: Seq<char>,
    value: Seq<char>,
    later: Seq<char>,
)
    requires
        all_other_segments(earlier),
        free_of(key, ';'),
        free_of(key, '='),
        trimmed(key) == token_name(),
        free_of(value, ';'),
        free_of(value, '='),
        trimmed(value).len() > 0,
        later.len() == 0 || later[0] == ';',
    ensures
        token_in(joined(earlier) + (key + seq!['='] + value) + later) == Some(trimmed(value)),
{
    let segment = key + seq!['='] + value;
    lemma_position(segment, '=', key.len() as int);
    assert(segment.take(key.len() as int) =~= key);
    let rest = segment.skip(key.len() as int + 1);
    assert(rest =~= value);
    lemma_position(value, '=', value.len() as int);
    assert(value.take(value.len() as int) =~= value);
    assert(names_token(segment));
    assert(segment_value(segment) == trimmed(value));
    lemma_first_segment(segment, later);
    lemma_skip_segments(earlier, segment + later);
    assert(joined(earlier) + segment + later =~= joined(earlier) + (segment + later));
}

/// A credential string without a token segment holds no token.
pub proof fn no_token_without_segment(earlier: Seq<Seq<char>>, last: Seq<char>)
    requires
        all_other_segments(earlier),
        free_of(last, ';'),
        !names_token(last),
    ensures
        token_in(joined(earlier) + last) is None,
{
    lemma_first_segment(last, Seq::<char>::empty());
    assert(last + Seq::<char>::empty() =~= last);
    lemma_skip_segments(earlier, last);
}

/// Finds the token in a credential string.
pub fn extract_xsrf_token(cookie: &str) -> (r: Option<String>)
    ensures
        match r {
            Some(token) => token_in(cookie@) == Some(token@),
            None => token_in(cookie@) is None,
        },
{
    let chars = chars_of(cookie);
    let name = chars_of("XSRF-TOKEN");
    let n = chars.len();
    let mut start: usize = 0;
    assert(chars@.skip(0) =~= cookie@);
    loop
        invariant
            start <= n,
            n == chars.len(),
            chars@ == cookie@,
            name@ == token_name(),
            token_in(cookie@) == token_in(chars@.skip(start as int)),
        decreases n - start,
    {
        let ghost tail = chars@.skip(start as int);
        assert(tail =~= chars@.subrange(start as int, n as int));
        let end = find_char(&chars, start, n, ';');
        let ghost segment = tail.take(end - start);
        assert(segment =~= chars@.subrange(start as int, end as int));
        let eq = find_char(&chars, start, end, '=');
        if eq < end {
            assert(segment.take(eq - start) =~= chars@.subrange(start as int, eq as int));
            let (a, b) = trim_range(&chars, start, eq);
            if range_is(&chars, a, b, &name) {
                let ghost rest = segment.skip(eq - start + 1);
                assert(rest =~= chars@.subrange(eq + 1, end as int));
                let stop = find_char(&chars, eq + 1, end, '=');
                assert(rest.take(stop - (eq + 1)) =~= chars@.subrange(eq + 1, stop as int));
                let (from, to) = trim_range(&chars, eq + 1, stop);
                assert(segment_value(segment) == chars@.subrange(from as int, to as int));
                if from < to {
                    return Some(cookie.substring_char(from, to).to_owned());
                } else {
                    return None;
                }
            }
        }
        assert(!names_token(segment));
        if end < n {
            assert(tail.skip(end - start + 1) =~= chars@.skip(end + 1));
            start = end + 1;
        } else {
            return None;
        }
    }
}

} // verus!
