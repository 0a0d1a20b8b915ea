//! Placeholder expansion: the tokens of a template are replaced by the forms
//! of a resource name, one token after the other in a fixed order.

use crate::naming::{ResourceNameSet, ResourceNames};
use crate::text::{
    chars_of, lemma_replace_all_absent, lemma_replace_all_behind_prefix, matches_at, occurs,
    occurs_at, replace_all, replace_chars, string_of,
};
use vstd::prelude::*;

verus! {

/// The token that stands for the pascal-case name of the resource.
pub open spec fn model_name_token() -> Seq<char> {
    "$MODEL_NAME"@
}

/// The token that stands for the table name of the resource.
pub open spec fn table_name_token() -> Seq<char> {
    "$TABLE_NAME"@
}

/// One row of a substitution table: every occurrence of `token` becomes
/// `replacement`.
#[derive(Clone, Debug)]
pub struct Substitution {
    pub token: String,
    pub replacement: String,
}

impl View for Substitution {
    type V = (Seq<char>, Seq<char>);

    open spec fn view(&self) -> (Seq<char>, Seq<char>) {
        (self.token@, self.replacement@)
    }
}

/// The rows of `table` as pairs of character sequences.
pub open spec fn rows(table: Seq<Substitution>) -> Seq<(Seq<char>, Seq<char>)> {
    table.map_values(|row: Substitution| row@)
}

/// The substitution table of a resource, in the order in which its rows are
/// applied.
pub open spec fn substitutions(names: ResourceNames) -> Seq<(Seq<char>, Seq<char>)> {
    seq![(model_name_token(), names.pascal_case), (table_name_token(), names.table_case)]
}

/// `text` after the rows of `table` have been applied to it, first row first.
/// Each row replaces globally, and a later row sees what the earlier rows
/// wrote.
pub open spec fn substituted(text: Seq<char>, table: Seq<(Seq<char>, Seq<char>)>) -> Seq<char>
    decreases table.len(),
{
    if table.len() == 0 {
        text
    } else {
        substituted(replace_all(text, table[0].0, table[0].1), table.skip(1))
    }
}

/// `template` with the placeholders of a resource expanded.
pub open spec fn expanded(template: Seq<char>, names: ResourceNames) -> Seq<char> {
    substituted(template, substitutions(names))
}

/// No token of `table` is a proper part of a token in a later row: where one
/// token extends another, the longer one is applied first.
pub open spec fn longest_first(table: Seq<(Seq<char>, Seq<char>)>) -> bool {
    forall|i: int, j: int|
        0 <= i < j < table.len() ==> !(#[trigger] table[i].0 != #[trigger] table[j].0 && occurs(
            table[j].0,
            table[i].0,
        ))
}

/// In the table of any resource the longer of two nested tokens comes first.
pub proof fn lemma_substitutions_longest_first(names: ResourceNames)
    ensures
        longest_first(substitutions(names)),
{
    reveal_strlit("$MODEL_NAME");
    reveal_strlit("$TABLE_NAME");
    let table = substitutions(names);
    assert forall|i: int, j: int| 0 <= i < j < table.len() implies !(#[trigger] table[i].0
        != #[trigger] table[j].0 && occurs(table[j].0, table[i].0)) by {
        if occurs(table[j].0, table[i].0) {
            let at = choose|at: int| occurs_at(table[j].0, table[i].0, at);
            assert(at == 0);
            assert(table[j].0.subrange(0, 11)[1] == table[j].0[1]);
        }
    }
}

/// Expansion is a function of the template and the names: any two texts
/// that `expand` may give for one template and one name set are the same.
pub proof fn lemma_expand_deterministic(
    template: Seq<char>,
    names: ResourceNames,
    first: Seq<char>,
    second: Seq<char>,
)
    requires
        first == expanded(template, names),
        second == expanded(template, names),
    ensures
        first == second,
{
}

/// A text without tokens is its own expansion: expanding twice does no harm
/// as long as the names that went in hold no token.
pub proof fn lemma_expand_without_tokens(text: Seq<char>, names: ResourceNames)
    requires
        !occurs(text, model_name_token()),
        !occurs(text, table_name_token()),
    ensures
        expanded(text, names) == text,
{
    reveal_strlit("$MODEL_NAME");
    reveal_strlit("$TABLE_NAME");
    lemma_expanded_unfolds(text, names);
    lemma_replace_all_absent(text, model_name_token(), names.pascal_case);
    lemma_replace_all_absent(text, table_name_token(), names.table_case);
}

/// A token keeps the text behind it: the model-name token followed by any
/// text expands to the model name followed by the expansion of that text, as
/// long as the model name holds no dollar sign. So `$MODEL_NAME` directly in
/// front of `Changeset` gives the name directly in front of `Changeset`.
pub proof fn lemma_token_keeps_what_follows(names: ResourceNames, behind: Seq<char>)
    requires
        forall|i: int| 0 <= i < names.pascal_case.len() ==> names.pascal_case[i] != '$',
    ensures
        expanded(model_name_token() + behind, names) == names.pascal_case + expanded(
            behind,
            names,
        ),
{
    reveal_strlit("$MODEL_NAME");
    reveal_strlit("$TABLE_NAME");
    let token = model_name_token();
    let text = token + behind;
    lemma_expanded_unfolds(text, names);
    lemma_expanded_unfolds(behind, names);
    assert(text.subrange(0, token.len() as int) =~= token);
    assert(text.skip(token.len() as int) =~= behind);
    let first = replace_all(behind, token, names.pascal_case);
    assert(replace_all(text, token, names.pascal_case) == names.pascal_case + first);
    lemma_replace_all_behind_prefix(
        names.pascal_case,
        first,
        table_name_token(),
        names.table_case,
    );
}

/// Expansion is two global replacements: first the model name, then, in the
/// result, the table name.
pub proof fn lemma_expanded_unfolds(template: Seq<char>, names: ResourceNames)
    ensures
        expanded(template, names) == replace_all(
            replace_all(template, model_name_token(), names.pascal_case),
            table_name_token(),
            names.table_case,
        ),
{
    let table = substitutions(names);
    reveal_with_fuel(substituted, 3);
    assert(table.skip(1)[0] == table[1]);
    assert(table.skip(1).skip(1).len() == 0);
}

/// The substitution table of a resource, in the order in which its rows are
/// applied.
pub fn substitution_table(names: &ResourceNameSet) -> (table: Vec<Substitution>)
    ensures
        rows(table@) == substitutions(names@),
{
    let mut table: Vec<Substitution> = Vec::new();
    table.push(
        Substitution { token: "$MODEL_NAME".to_owned(), replacement: names.pascal_case.clone() },
    );
    table.push(
        Substitution { token: "$TABLE_NAME".to_owned(), replacement: names.table_case.clone() },
    );
    assert(rows(table@) =~= substitutions(names@));
    table
}

/// `template` after the rows of `table` have been applied to it, first row
/// first.
pub fn apply_substitutions(template: &str, table: &Vec<Substitution>) -> (out: String)
    ensures
        out@ == substituted(template@, rows(table@)),
{
    let mut text = chars_of(template);
    let mut done: usize = 0;
    assert(rows(table@).skip(0) =~= rows(table@));
    while done < table.len()
        invariant
            done <= table.len(),
            substituted(text@, rows(table@).skip(done as int)) == substituted(
                template@,
                rows(table@),
            ),
        decreases table.len() - done,
    {
        let token = chars_of(table[done].token.as_str());
        let replacement = chars_of(table[done].replacement.as_str());
        let ghost rest = rows(table@).skip(done as int);
        assert(rest[0] == table@[done as int]@);
        assert(rest.skip(1) =~= rows(table@).skip(done + 1));
        text = replace_chars(&text, &token, &replacement);
        done += 1;
    }
    string_of(&text)
}

/// `template` with the placeholders of a resource expanded: every
/// `$MODEL_NAME` becomes the pascal-case name, then every `$TABLE_NAME` the
/// table name. Any other text passes through as it is.
pub fn expand(template: &str, names: &ResourceNameSet) -> (out: String)
    ensures
        out@ == expanded(template@, names@),
{
    let table = substitution_table(names);
    apply_substitutions(template, &table)
}

/// An ASCII capital letter.
pub open spec fn is_capital(c: char) -> bool {
    0x41 <= c as u32 <= 0x5A
}

/// A placeholder begins at offset `at`: a dollar sign with a capital letter
/// behind it.
pub open spec fn placeholder_at(template: Seq<char>, at: int) -> bool {
    &&& 0 <= at
    &&& at + 1 < template.len()
    &&& template[at] == '$'
    &&& is_capital(template[at + 1])
}

/// A placeholder begins at offset `at` and no token of the table stands
/// there.
pub open spec fn unrecognized_at(template: Seq<char>, at: int) -> bool {
    &&& placeholder_at(template, at)
    &&& !occurs_at(template, model_name_token(), at)
    &&& !occurs_at(template, table_name_token(), at)
}

/// A template names a placeholder that the table does not hold.
#[derive(Clone, Copy, Debug, PartialEq, Eq, Structural)]
pub struct TemplateError {
    /// The offset, in characters, of the placeholder's dollar sign.
    pub offset: usize,
}

/// Strict expansion: as `expand`, but a template with an unrecognized
/// placeholder is refused, and the error gives the offset of the first one.
pub fn expand_strict(template: &str, names: &ResourceNameSet) -> (result: Result<
    String,
    TemplateError,
>)
    ensures
        match result {
            Ok(out) => {
                &&& forall|at: int| !unrecognized_at(template@, at)
                &&& out@ == expanded(template@, names@)
            },
            Err(error) => {
                &&& unrecognized_at(template@, error.offset as int)
                &&& forall|earlier: int|
                    0 <= earlier < error.offset ==> !unrecognized_at(template@, earlier)
            },
        },
{
    let chars = chars_of(template);
    let model_token = chars_of("$MODEL_NAME");
    let table_token = chars_of("$TABLE_NAME");
    let mut at: usize = 0;
    while at < chars.len()
        invariant
            at <= chars.len(),
            chars@ == template@,
            model_token@ == model_name_token(),
            table_token@ == table_name_token(),
            forall|earlier: int| 0 <= earlier < at ==> !unrecognized_at(template@, earlier),
        decreases chars.len() - at,
    {
        if chars[at] == '$' && at + 1 < chars.len() {
            let next: u32 = chars[at + 1] as u32;
            if 0x41 <= next && next <= 0x5A && !matches_at(&chars, &model_token, at) && !matches_at(
                &chars,
                &table_token,
                at,
            ) {
                return Err(TemplateError { offset: at });
            }
        }
        at += 1;
    }
    Ok(expand(template, names))
}

} // verus!
