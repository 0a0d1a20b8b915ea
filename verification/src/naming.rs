//! Resource names: the first word of the user's input and the three cased
//! forms that templates and file names are built from.

use crate::text::{chars_of, push_range, string_of};
use vstd::prelude::*;

verus! {

/// What `inflector::cases::pascalcase::to_pascal_case` makes of `name`.
pub uninterp spec fn pascal_case_of(name: Seq<char>) -> Seq<char>;

/// What `inflector::cases::snakecase::to_snake_case` makes of `name`.
pub uninterp spec fn snake_case_of(name: Seq<char>) -> Seq<char>;

/// What `inflector::cases::tablecase::to_table_case` makes of `name`.
pub uninterp spec fn table_case_of(name: Seq<char>) -> Seq<char>;

/// Calls `inflector::cases::pascalcase::to_pascal_case`. The result depends
/// on the characters of `name` alone; nothing else is claimed of it.
#[verifier::external_body]
fn to_pascal_case(name: &str) -> (cased: String)
    ensures
        cased@ == pascal_case_of(name@),
{
    inflector::cases::pascalcase::to_pascal_case(name)
}

/// Calls `inflector::cases::snakecase::to_snake_case`. The result depends on
/// the characters of `name` alone; nothing else is claimed of it.
#[verifier::external_body]
pub(crate) fn to_snake_case(name: &str) -> (cased: String)
    ensures
        cased@ == snake_case_of(name@),
{
    inflector::cases::snakecase::to_snake_case(name)
}

/// Calls `inflector::cases::tablecase::to_table_case`. The result depends on
/// the characters of `name` alone; nothing else is claimed of it.
#[verifier::external_body]
fn to_table_case(name: &str) -> (cased: String)
    ensures
        cased@ == table_case_of(name@),
{
    inflector::cases::tablecase::to_table_case(name)
}

/// The forms of one resource name as character sequences.
pub struct ResourceNames {
    pub raw: Seq<char>,
    pub pascal_case: Seq<char>,
    pub snake_case: Seq<char>,
    pub table_case: Seq<char>,
}

/// The forms of one resource name.
#[derive(Clone, Debug)]
pub struct ResourceNameSet {
    pub raw: String,
    pub pascal_case: String,
    pub snake_case: String,
    pub table_case: String,
}

impl View for ResourceNameSet {
    type V = ResourceNames;

    open spec fn view(&self) -> ResourceNames {
        ResourceNames {
            raw: self.raw@,
            pascal_case: self.pascal_case@,
            snake_case: self.snake_case@,
            table_case: self.table_case@,
        }
    }
}

/// The forms that belong to the raw name `raw`: the pascal case of the raw
/// name, and the snake and table cases of that pascal case.
pub open spec fn names_of(raw: Seq<char>) -> ResourceNames {
    ResourceNames {
        raw,
        pascal_case: pascal_case_of(raw),
        snake_case: snake_case_of(pascal_case_of(raw)),
        table_case: table_case_of(pascal_case_of(raw)),
    }
}

impl ResourceNames {
    /// The four forms name one resource: each cased form is derived from the
    /// raw name as `names_of` derives it.
    pub open spec fn consistent(self) -> bool {
        self == names_of(self.raw)
    }
}

impl ResourceNameSet {
    /// The name set of the resource called `raw`.
    pub fn derive(raw: &str) -> (names: ResourceNameSet)
        ensures
            names@ == names_of(raw@),
            names@.consistent(),
    {
        let pascal_case = to_pascal_case(raw);
        let snake_case = to_snake_case(pascal_case.as_str());
        let table_case = to_table_case(pascal_case.as_str());
        ResourceNameSet { raw: raw.to_owned(), pascal_case, snake_case, table_case }
    }
}

/// The code points with the Unicode property `White_Space`.
pub open spec fn is_whitespace(c: char) -> bool {
    let u = c as u32;
    ||| 0x09 <= u <= 0x0D
    ||| u == 0x20
    ||| u == 0x85
    ||| u == 0xA0
    ||| u == 0x1680
    ||| 0x2000 <= u <= 0x200A
    ||| u == 0x2028
    ||| u == 0x2029
    ||| u == 0x202F
    ||| u == 0x205F
    ||| u == 0x3000
}

/// `text[start..end]` is the first word of `text`: only whitespace stands
/// before it, no whitespace in it, and it ends at whitespace or at the end.
pub open spec fn first_word_at(text: Seq<char>, start: int, end: int) -> bool {
    &&& 0 <= start < end <= text.len()
    &&& forall|i: int| 0 <= i < start ==> is_whitespace(#[trigger] text[i])
    &&& forall|i: int| start <= i < end ==> !is_whitespace(#[trigger] text[i])
    &&& (end == text.len() || is_whitespace(text[end]))
}

/// The first word of `text`; meaningful where `text` is not blank.
pub open spec fn first_word(text: Seq<char>) -> Seq<char> {
    let (start, end) = choose|start: int, end: int| first_word_at(text, start, end);
    text.subrange(start, end)
}

/// A text has at most one first word.
pub proof fn lemma_first_word_unique(text: Seq<char>, start: int, end: int)
    requires
        first_word_at(text, start, end),
    ensures
        first_word(text) == text.subrange(start, end),
        !is_blank(text),
{
    let (s, e) = choose|s: int, e: int| first_word_at(text, s, e);
    assert(first_word_at(text, s, e));
    assert(!is_whitespace(text[start]));
    assert(!is_whitespace(text[s]));
    if s < start {
        assert(is_whitespace(text[s]));
    }
    if start < s {
        assert(is_whitespace(text[start]));
    }
    if e < end {
        assert(!is_whitespace(text[e]));
    }
    if end < e {
        assert(!is_whitespace(text[end]));
    }
}

/// `text` holds nothing but whitespace.
pub open spec fn is_blank(text: Seq<char>) -> bool {
    forall|i: int| 0 <= i < text.len() ==> is_whitespace(#[trigger] text[i])
}

/// Whether `c` is whitespace.
pub fn char_is_whitespace(c: char) -> (b: bool)
    ensures
        b == is_whitespace(c),
{
    let u: u32 = c as u32;
    (0x09 <= u && u <= 0x0D) || u == 0x20 || u == 0x85 || u == 0xA0 || u == 0x1680 || (0x2000 <= u
        && u <= 0x200A) || u == 0x2028 || u == 0x2029 || u == 0x202F || u == 0x205F || u == 0x3000
}

/// The first word of `input`: what `split_whitespace` yields first. There is
/// none where `input` is empty or blank.
pub fn first_token(input: &str) -> (token: Option<String>)
    ensures
        token is None <==> is_blank(input@),
        token matches Some(word) ==> word@ == first_word(input@) && exists|start: int, end: int|
            first_word_at(input@, start, end) && word@ == input@.subrange(start, end),
{
    let chars = chars_of(input);
    let mut start: usize = 0;
    while start < chars.len() && char_is_whitespace(chars[start])
        invariant
            start <= chars.len(),
            forall|i: int| 0 <= i < start ==> is_whitespace(#[trigger] chars@[i]),
        decreases chars.len() - start,
    {
        start += 1;
    }
    if start == chars.len() {
        return None;
    }
    let mut end: usize = start + 1;
    while end < chars.len() && !char_is_whitespace(chars[end])
        invariant
            start < end <= chars.len(),
            forall|i: int| start <= i < end ==> !is_whitespace(#[trigger] chars@[i]),
        decreases chars.len() - end,
    {
        end += 1;
    }
    let mut word: Vec<char> = Vec::new();
    push_range(&mut word, &chars, start, end);
    proof {
        lemma_first_word_unique(input@, start as int, end as int);
    }
    Some(string_of(&word))
}

} // verus!
