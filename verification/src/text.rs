//! Text as a sequence of characters: literal search, global replacement and
//! splicing, each stated over `Seq<char>` and carried out on `Vec<char>`.

use vstd::prelude::*;
use vstd::string::StrSliceExecFns;
use vstd::utf8::{decode_utf8, encode_utf8, valid_utf8};

verus! {

/// `pattern` stands in `text` at offset `at`.
pub open spec fn occurs_at(text: Seq<char>, pattern: Seq<char>, at: int) -> bool {
    &&& 0 <= at
    &&& at + pattern.len() <= text.len()
    &&& text.subrange(at, at + pattern.len()) == pattern
}

/// `pattern` stands somewhere in `text`.
pub open spec fn occurs(text: Seq<char>, pattern: Seq<char>) -> bool {
    exists|at: int| occurs_at(text, pattern, at)
}

/// `at` is the lowest offset at which `pattern` stands in `text`.
pub open spec fn first_occurrence(text: Seq<char>, pattern: Seq<char>, at: int) -> bool {
    &&& occurs_at(text, pattern, at)
    &&& forall|earlier: int| 0 <= earlier < at ==> !occurs_at(text, pattern, earlier)
}

/// The lowest offset at which `pattern` stands in `text`; meaningful where it
/// stands anywhere.
pub open spec fn first_index(text: Seq<char>, pattern: Seq<char>) -> int {
    choose|at: int| first_occurrence(text, pattern, at)
}

/// `text` with the `width` characters at offset `at` replaced by `insertion`.
pub open spec fn splice(text: Seq<char>, at: int, width: int, insertion: Seq<char>) -> Seq<char> {
    text.take(at) + insertion + text.skip(at + width)
}

/// Every occurrence of `pattern` in `text` replaced by `replacement`, scanning
/// from the left; an occurrence that overlaps one already replaced is not
/// counted. An empty pattern stands before every character and at the end.
pub open spec fn replace_all(text: Seq<char>, pattern: Seq<char>, replacement: Seq<char>) -> Seq<
    char,
>
    decreases text.len(),
{
    if pattern.len() == 0 {
        if text.len() == 0 {
            replacement
        } else {
            replacement + seq![text[0]] + replace_all(text.skip(1), pattern, replacement)
        }
    } else if text.len() == 0 {
        text
    } else if occurs_at(text, pattern, 0) {
        replacement + replace_all(text.skip(pattern.len() as int), pattern, replacement)
    } else {
        seq![text[0]] + replace_all(text.skip(1), pattern, replacement)
    }
}

/// Below any occurrence there is a first one.
pub proof fn lemma_first_occurrence_below(text: Seq<char>, pattern: Seq<char>, at: int)
    requires
        occurs_at(text, pattern, at),
    ensures
        0 <= first_index(text, pattern) <= at,
        first_occurrence(text, pattern, first_index(text, pattern)),
    decreases at,
{
    if first_occurrence(text, pattern, at) {
        lemma_first_occurrence_unique(text, pattern, at, first_index(text, pattern));
    } else {
        let earlier = choose|earlier: int| 0 <= earlier < at && occurs_at(text, pattern, earlier);
        lemma_first_occurrence_below(text, pattern, earlier);
    }
}

/// A text has at most one first occurrence of a pattern.
pub proof fn lemma_first_occurrence_unique(text: Seq<char>, pattern: Seq<char>, a: int, b: int)
    requires
        first_occurrence(text, pattern, a),
        first_occurrence(text, pattern, b),
    ensures
        a == b,
{
}

/// Replacing a pattern that stands nowhere in the text changes nothing.
pub proof fn lemma_replace_all_absent(text: Seq<char>, pattern: Seq<char>, replacement: Seq<char>)
    requires
        pattern.len() > 0,
        !occurs(text, pattern),
    ensures
        replace_all(text, pattern, replacement) == text,
    decreases text.len(),
{
    if text.len() > 0 {
        assert(!occurs_at(text, pattern, 0));
        assert forall|at: int| !occurs_at(text.skip(1), pattern, at) by {
            if 0 <= at {
                lemma_occurs_at_skip(text, pattern, 1, at);
                assert(!occurs_at(text, pattern, 1 + at));
            }
        }
        lemma_replace_all_absent(text.skip(1), pattern, replacement);
        assert(seq![text[0]] + text.skip(1) =~= text);
    }
}

/// Replacing goes from one occurrence to the next: what stands before the
/// first occurrence stays, the replacement follows, and what stands behind
/// the occurrence is replaced in the same way.
pub proof fn lemma_replace_all_first(
    text: Seq<char>,
    pattern: Seq<char>,
    replacement: Seq<char>,
    at: int,
)
    requires
        pattern.len() > 0,
        first_occurrence(text, pattern, at),
    ensures
        replace_all(text, pattern, replacement) == text.take(at) + replacement + replace_all(
            text.skip(at + pattern.len()),
            pattern,
            replacement,
        ),
    decreases at,
{
    if at == 0 {
        assert(text.take(0) + replacement =~= replacement);
    } else {
        let rest = text.skip(1);
        assert forall|earlier: int| 0 <= earlier < at - 1 implies !occurs_at(
            rest,
            pattern,
            earlier,
        ) by {
            lemma_occurs_at_skip(text, pattern, 1, earlier);
        }
        lemma_occurs_at_skip(text, pattern, 1, at - 1);
        lemma_replace_all_first(rest, pattern, replacement, at - 1);
        assert(seq![text[0]] + rest.take(at - 1) =~= text.take(at));
        assert(rest.skip(at - 1 + pattern.len()) =~= text.skip(at + pattern.len()));
    }
}

/// Text in which the first character of the pattern does not occur is left
/// alone, and so is its border with what follows: no occurrence begins in it.
pub proof fn lemma_replace_all_behind_prefix(
    prefix: Seq<char>,
    rest: Seq<char>,
    pattern: Seq<char>,
    replacement: Seq<char>,
)
    requires
        pattern.len() > 0,
        forall|i: int| 0 <= i < prefix.len() ==> prefix[i] != pattern[0],
    ensures
        replace_all(prefix + rest, pattern, replacement) == prefix + replace_all(
            rest,
            pattern,
            replacement,
        ),
    decreases prefix.len(),
{
    let text = prefix + rest;
    if prefix.len() == 0 {
        assert(text =~= rest);
        assert(prefix + replace_all(rest, pattern, replacement) =~= replace_all(
            rest,
            pattern,
            replacement,
        ));
    } else {
        assert(text[0] == prefix[0]);
        if occurs_at(text, pattern, 0) {
            assert(text.subrange(0, pattern.len() as int)[0] == pattern[0]);
        }
        assert(text.skip(1) =~= prefix.skip(1) + rest);
        lemma_replace_all_behind_prefix(prefix.skip(1), rest, pattern, replacement);
        assert(seq![text[0]] + (prefix.skip(1) + replace_all(rest, pattern, replacement)) =~= prefix
            + replace_all(rest, pattern, replacement));
    }
}

/// An occurrence in a suffix of `text` is an occurrence in `text`, shifted.
pub proof fn lemma_occurs_at_skip(text: Seq<char>, pattern: Seq<char>, from: int, at: int)
    requires
        0 <= from <= text.len(),
        0 <= at,
    ensures
        occurs_at(text.skip(from), pattern, at) == occurs_at(text, pattern, from + at),
{
    if from + at + pattern.len() <= text.len() {
        assert(text.skip(from).subrange(at, at + pattern.len()) =~= text.subrange(
            from + at,
            from + at + pattern.len(),
        ));
    }
}

/// The characters of `s`, in order.
pub fn chars_of(s: &str) -> (v: Vec<char>)
    ensures
        v@ == s@,
{
    let mut v: Vec<char> = Vec::new();
    for c in it: s.chars()
        invariant
            v@ == it.seq().take(it.index()),
    {
        v.push(c);
    }
    v
}

/// `String::push` appends the character to the end of the string.
pub assume_specification[ String::push ](s: &mut String, ch: char)
    ensures
        final(s)@ == old(s)@.push(ch),
;

/// The string made of the characters of `v`, in order.
pub fn string_of(v: &Vec<char>) -> (s: String)
    ensures
        s@ == v@,
{
    let mut s = String::new();
    let mut i: usize = 0;
    while i < v.len()
        invariant
            i <= v.len(),
            s@ == v@.take(i as int),
        decreases v.len() - i,
    {
        s.push(v[i]);
        i += 1;
        assert(v@.take(i as int) =~= v@.take(i - 1).push(v@[i - 1]));
    }
    assert(v@.take(v.len() as int) =~= v@);
    s
}

/// Calls `std::str::from_utf8`: the bytes are taken for text where they are
/// well-formed UTF-8, and the text is then the one that they encode.
#[verifier::external_body]
fn from_utf8(bytes: &[u8]) -> (text: Option<&str>)
    ensures
        text is Some <==> valid_utf8(bytes@),
        text matches Some(decoded) ==> decoded@ == decode_utf8(bytes@),
{
    std::str::from_utf8(bytes).ok()
}

/// The text that `bytes` encode in UTF-8, if they encode any.
pub fn decode(bytes: &Vec<u8>) -> (text: Option<String>)
    ensures
        text is Some <==> valid_utf8(bytes@),
        text matches Some(decoded) ==> decoded@ == decode_utf8(bytes@),
{
    match from_utf8(bytes.as_slice()) {
        Some(decoded) => Some(decoded.to_owned()),
        None => None,
    }
}

/// The bytes that encode `text` in UTF-8.
pub fn encode(text: &str) -> (bytes: Vec<u8>)
    ensures
        bytes@ == encode_utf8(text@),
{
    text.as_bytes_vec()
}

/// A copy of `bytes`.
pub fn copy_bytes(bytes: &Vec<u8>) -> (copy: Vec<u8>)
    ensures
        copy@ == bytes@,
{
    let mut copy: Vec<u8> = Vec::new();
    let mut i: usize = 0;
    while i < bytes.len()
        invariant
            i <= bytes.len(),
            copy@ == bytes@.take(i as int),
        decreases bytes.len() - i,
    {
        copy.push(bytes[i]);
        i += 1;
        assert(bytes@.take(i as int) =~= bytes@.take(i - 1).push(bytes@[i - 1]));
    }
    assert(bytes@.take(bytes.len() as int) =~= bytes@);
    copy
}

/// Whether `a` and `b` hold the same characters.
pub fn same_text(a: &str, b: &str) -> (same: bool)
    ensures
        same == (a@ == b@),
{
    let left = chars_of(a);
    let right = chars_of(b);
    if left.len() != right.len() {
        return false;
    }
    let mut i: usize = 0;
    while i < left.len()
        invariant
            i <= left.len(),
            left.len() == right.len(),
            left@ == a@,
            right@ == b@,
            forall|j: int| 0 <= j < i ==> left@[j] == right@[j],
        decreases left.len() - i,
    {
        if left[i] != right[i] {
            return false;
        }
        i += 1;
    }
    assert(left@ =~= right@);
    true
}

/// Appends `src[from..to]` to `out`.
pub fn push_range(out: &mut Vec<char>, src: &Vec<char>, from: usize, to: usize)
    requires
        from <= to <= src.len(),
    ensures
        final(out)@ == old(out)@ + src@.subrange(from as int, to as int),
{
    let mut i: usize = from;
    while i < to
        invariant
            from <= i <= to <= src.len(),
            out@ == old(out)@ + src@.subrange(from as int, i as int),
        decreases to - i,
    {
        out.push(src[i]);
        i += 1;
        assert(src@.subrange(from as int, i as int) =~= src@.subrange(from as int, i - 1).push(
            src@[i - 1],
        ));
    }
}

/// Whether `pattern` stands in `text` at offset `at`.
pub fn matches_at(text: &Vec<char>, pattern: &Vec<char>, at: usize) -> (b: bool)
    ensures
        b == occurs_at(text@, pattern@, at as int),
{
    if at > text.len() || pattern.len() > text.len() - at {
        return false;
    }
    let mut k: usize = 0;
    while k < pattern.len()
        invariant
            k <= pattern.len(),
            at + pattern.len() <= text.len(),
            forall|j: int| 0 <= j < k ==> text@[at + j] == pattern@[j],
        decreases pattern.len() - k,
    {
        if text[at + k] != pattern[k] {
            assert(text@.subrange(at as int, at + pattern.len())[k as int] == text@[at + k]);
            return false;
        }
        k += 1;
    }
    assert(text@.subrange(at as int, at + pattern.len()) =~= pattern@);
    true
}

/// The lowest offset at which `pattern` stands in `text`, if it stands
/// anywhere.
pub fn find(text: &Vec<char>, pattern: &Vec<char>) -> (found: Option<usize>)
    ensures
        match found {
            Some(at) => first_occurrence(text@, pattern@, at as int),
            None => !occurs(text@, pattern@),
        },
{
    if pattern.len() > text.len() {
        return None;
    }
    let last: usize = text.len() - pattern.len();
    let mut at: usize = 0;
    loop
        invariant
            at <= last,
            last == text.len() - pattern.len(),
            forall|earlier: int| 0 <= earlier < at ==> !occurs_at(text@, pattern@, earlier),
        decreases last - at,
    {
        if matches_at(text, pattern, at) {
            return Some(at);
        }
        if at == last {
            return None;
        }
        at += 1;
    }
}

/// `text` with every occurrence of `pattern` replaced by `replacement`.
pub fn replace_chars(text: &Vec<char>, pattern: &Vec<char>, replacement: &Vec<char>) -> (out: Vec<
    char,
>)
    ensures
        out@ == replace_all(text@, pattern@, replacement@),
{
    let mut out: Vec<char> = Vec::new();
    let mut i: usize = 0;
    assert(text@.skip(0) =~= text@);
    while i < text.len()
        invariant
            i <= text.len(),
            out@ + replace_all(text@.skip(i as int), pattern@, replacement@) == replace_all(
                text@,
                pattern@,
                replacement@,
            ),
        decreases text.len() - i,
    {
        let ghost rest = text@.skip(i as int);
        proof {
            lemma_occurs_at_skip(text@, pattern@, i as int, 0);
        }
        if pattern.len() == 0 {
            push_range(&mut out, replacement, 0, replacement.len());
            out.push(text[i]);
            i += 1;
            assert(rest.skip(1) =~= text@.skip(i as int));
            assert(replacement@.subrange(0, replacement.len() as int) =~= replacement@);
        } else if matches_at(text, pattern, i) {
            push_range(&mut out, replacement, 0, replacement.len());
            i += pattern.len();
            assert(rest.skip(pattern.len() as int) =~= text@.skip(i as int));
            assert(replacement@.subrange(0, replacement.len() as int) =~= replacement@);
        } else {
            out.push(text[i]);
            i += 1;
            assert(rest.skip(1) =~= text@.skip(i as int));
        }
    }
    if pattern.len() == 0 {
        push_range(&mut out, replacement, 0, replacement.len());
        assert(replacement@.subrange(0, replacement.len() as int) =~= replacement@);
    }
    out
}

} // verus!
