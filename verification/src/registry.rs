//! Append-only registries: files that list one declaration per line and only
//! ever grow at the end.

use crate::files::{FileState, FileView, IoError};
use crate::text::{chars_of, push_range, string_of};
use vstd::prelude::*;

verus! {

/// The line that declares the module `entry`.
pub open spec fn declaration(entry: Seq<char>) -> Seq<char> {
    "pub mod "@ + entry + ";\n"@
}

/// `prior` with a line break behind it, unless it is empty or ends in one.
pub open spec fn terminated(prior: Seq<char>) -> Seq<char> {
    if prior.len() > 0 && prior.last() != '\n' {
        prior.push('\n')
    } else {
        prior
    }
}

/// The registry text `prior` with the declaration of `entry` appended.
pub open spec fn registered(prior: Seq<char>, entry: Seq<char>) -> Seq<char> {
    terminated(prior) + declaration(entry)
}

/// What registering `entry` comes to for a registry file in the state
/// `file`: the new text of the file. A missing file counts as empty.
pub open spec fn registry_outcome(file: FileView, entry: Seq<char>) -> Result<Seq<char>, IoError> {
    match file {
        FileView::Missing => Ok(registered(Seq::empty(), entry)),
        FileView::Unreadable => Err(IoError),
        FileView::Text(prior) => Ok(registered(prior, entry)),
    }
}

/// Registering never touches what the registry already holds.
pub proof fn lemma_registered_keeps_prior(prior: Seq<char>, entry: Seq<char>)
    ensures
        registered(prior, entry).len() > prior.len(),
        registered(prior, entry).take(prior.len() as int) == prior,
{
    reveal_strlit("pub mod ");
    assert(registered(prior, entry).take(prior.len() as int) =~= prior);
}

/// Registering ends the registry with a line break, so the next declaration
/// follows directly: two calls leave two lines, in call order, also where
/// both name the same module.
pub proof fn lemma_registered_twice(prior: Seq<char>, first: Seq<char>, second: Seq<char>)
    ensures
        registered(registered(prior, first), second) == registered(prior, first) + declaration(
            second,
        ),
        registered(registered(Seq::empty(), first), first) == declaration(first) + declaration(
            first,
        ),
{
    reveal_strlit(";\n");
    assert(declaration(first).last() == '\n');
    assert(registered(prior, first).last() == '\n');
    assert(registered(Seq::empty(), first) =~= declaration(first));
}

/// Appends the declaration of `entry` to a registry file that was found in
/// the state `registry`, and gives the text to write back.
pub fn register_module(registry: &FileState, entry: &str) -> (result: Result<String, IoError>)
    ensures
        match registry_outcome(registry@, entry@) {
            Ok(text) => result matches Ok(out) && out@ == text,
            Err(error) => result == Err::<String, IoError>(error),
        },
{
    let mut text: Vec<char> = match registry {
        FileState::Missing => Vec::new(),
        FileState::Unreadable => {
            return Err(IoError);
        },
        FileState::Text(prior) => chars_of(prior.as_str()),
    };
    let ghost prior = text@;
    if text.len() > 0 && text[text.len() - 1] != '\n' {
        text.push('\n');
    }
    let head = chars_of("pub mod ");
    let name = chars_of(entry);
    let tail = chars_of(";\n");
    push_range(&mut text, &head, 0, head.len());
    push_range(&mut text, &name, 0, name.len());
    push_range(&mut text, &tail, 0, tail.len());
    assert(text@ =~= registered(prior, entry@));
    Ok(string_of(&text))
}

} // verus!
