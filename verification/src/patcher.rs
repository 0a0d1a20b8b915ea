//! Anchored patching: new text goes into an existing file either at its top
//! or in place of the first occurrence of a literal anchor.

use crate::files::{FileState, FileView};
use crate::text::{
    chars_of, find, first_index, lemma_first_occurrence_below, lemma_first_occurrence_unique,
    occurs, occurs_at, push_range, splice, string_of,
};
use vstd::prelude::*;

verus! {

/// Where the insertion of a patch goes.
#[derive(Clone, Copy, Debug, PartialEq, Eq, Structural)]
pub enum PatchMode {
    /// Before the first line of the file, whatever the anchor is.
    Prepend,
    /// In place of the first occurrence of the anchor. The insertion is
    /// expected to hold the anchor itself, so that the landmark stays in the
    /// file for the next patch.
    ReplaceKeepingAnchor,
}

/// One change to an existing file.
#[derive(Clone, Debug)]
pub struct PatchSpec {
    pub target_file: String,
    pub anchor: String,
    pub insertion: String,
    pub mode: PatchMode,
}

/// A patch as character sequences.
pub struct Patch {
    pub target_file: Seq<char>,
    pub anchor: Seq<char>,
    pub insertion: Seq<char>,
    pub mode: PatchMode,
}

impl View for PatchSpec {
    type V = Patch;

    open spec fn view(&self) -> Patch {
        Patch {
            target_file: self.target_file@,
            anchor: self.anchor@,
            insertion: self.insertion@,
            mode: self.mode,
        }
    }
}

/// The patch that puts `insertion` at the top of `target_file`.
pub open spec fn prepended(target_file: Seq<char>, insertion: Seq<char>) -> Patch {
    Patch { target_file, anchor: Seq::empty(), insertion, mode: PatchMode::Prepend }
}

/// The patch that puts `addition` directly behind the first `anchor` in
/// `target_file`: the anchor is replaced by itself and the addition.
pub open spec fn added_behind(
    target_file: Seq<char>,
    anchor: Seq<char>,
    addition: Seq<char>,
) -> Patch {
    Patch { target_file, anchor, insertion: anchor + addition, mode: PatchMode::ReplaceKeepingAnchor }
}

impl PatchSpec {
    /// The patch that puts `insertion` at the top of `target_file`.
    pub fn prepend(target_file: &str, insertion: &str) -> (patch: PatchSpec)
        ensures
            patch@ == prepended(target_file@, insertion@),
    {
        PatchSpec {
            target_file: target_file.to_owned(),
            anchor: String::new(),
            insertion: insertion.to_owned(),
            mode: PatchMode::Prepend,
        }
    }

    /// The patch that puts `addition` directly behind the first `anchor` in
    /// `target_file`.
    pub fn behind(target_file: &str, anchor: &str, addition: &str) -> (patch: PatchSpec)
        ensures
            patch@ == added_behind(target_file@, anchor@, addition@),
    {
        let mut insertion = chars_of(anchor);
        let tail = chars_of(addition);
        push_range(&mut insertion, &tail, 0, tail.len());
        assert(insertion@ =~= anchor@ + addition@);
        PatchSpec {
            target_file: target_file.to_owned(),
            anchor: anchor.to_owned(),
            insertion: string_of(&insertion),
            mode: PatchMode::ReplaceKeepingAnchor,
        }
    }
}

/// Why a patch was not applied.
#[derive(Clone, Copy, Debug, PartialEq, Eq, Structural)]
pub enum PatchError {
    /// The target file does not exist.
    FileNotFound,
    /// The target file could not be read.
    IoError,
    /// The anchor stands nowhere in the target file.
    AnchorNotFound,
}

/// The text that `patch` makes of `content`; none where the patch replaces
/// an anchor that `content` does not hold.
pub open spec fn patched(content: Seq<char>, patch: Patch) -> Option<Seq<char>> {
    match patch.mode {
        PatchMode::Prepend => Some(patch.insertion + seq!['\n'] + content),
        PatchMode::ReplaceKeepingAnchor => if occurs(content, patch.anchor) {
            Some(
                splice(
                    content,
                    first_index(content, patch.anchor),
                    patch.anchor.len() as int,
                    patch.insertion,
                ),
            )
        } else {
            None
        },
    }
}

/// What patching a file in the state `file` comes to: the new text of the
/// file, or the reason why it stays as it is.
pub open spec fn patch_outcome(file: FileView, patch: Patch) -> Result<Seq<char>, PatchError> {
    match file {
        FileView::Missing => Err(PatchError::FileNotFound),
        FileView::Unreadable => Err(PatchError::IoError),
        FileView::Text(content) => match patched(content, patch) {
            Some(text) => Ok(text),
            None => Err(PatchError::AnchorNotFound),
        },
    }
}

/// A replacement whose insertion holds the anchor leaves the anchor in the
/// file: the same anchor can be patched again.
pub proof fn lemma_anchor_kept(content: Seq<char>, patch: Patch)
    requires
        patch.mode == PatchMode::ReplaceKeepingAnchor,
        occurs(content, patch.anchor),
        occurs(patch.insertion, patch.anchor),
    ensures
        patched(content, patch) is Some,
        occurs(patched(content, patch)->0, patch.anchor),
{
    let anchor = patch.anchor;
    let somewhere = choose|at: int| occurs_at(content, anchor, at);
    lemma_first_occurrence_below(content, anchor, somewhere);
    let at = first_index(content, anchor);
    let inner = choose|inner: int| occurs_at(patch.insertion, anchor, inner);
    let text = patched(content, patch)->0;
    assert(text.subrange(at + inner, at + inner + anchor.len()) =~= patch.insertion.subrange(
        inner,
        inner + anchor.len(),
    ));
    assert(occurs_at(text, anchor, at + inner));
}

/// What is added behind an anchor keeps the anchor: the insertion begins
/// with it.
pub proof fn lemma_added_behind_keeps_anchor(
    target_file: Seq<char>,
    anchor: Seq<char>,
    addition: Seq<char>,
)
    ensures
        occurs_at(added_behind(target_file, anchor, addition).insertion, anchor, 0),
        occurs(added_behind(target_file, anchor, addition).insertion, anchor),
{
    let insertion = anchor + addition;
    assert(insertion.subrange(0, anchor.len() as int) =~= anchor);
}

/// One addition behind an anchor can be followed by the next: where the
/// anchor stands in a file, it still stands in the file after the patch.
pub proof fn lemma_addition_can_be_repeated(
    content: Seq<char>,
    target_file: Seq<char>,
    anchor: Seq<char>,
    addition: Seq<char>,
)
    requires
        occurs(content, anchor),
    ensures
        patched(content, added_behind(target_file, anchor, addition)) is Some,
        occurs(patched(content, added_behind(target_file, anchor, addition))->0, anchor),
{
    lemma_added_behind_keeps_anchor(target_file, anchor, addition);
    lemma_anchor_kept(content, added_behind(target_file, anchor, addition));
}

/// A file without the anchor is never changed by a replacement: the patch
/// fails, whatever the insertion is.
pub proof fn lemma_missing_anchor_is_fatal(content: Seq<char>, patch: Patch)
    requires
        patch.mode == PatchMode::ReplaceKeepingAnchor,
        !occurs(content, patch.anchor),
    ensures
        patch_outcome(FileView::Text(content), patch) == Err::<Seq<char>, PatchError>(
            PatchError::AnchorNotFound,
        ),
{
}

/// A prepended insertion is followed by one line break and then by the old
/// text, unchanged.
pub proof fn lemma_prepend_keeps_content(content: Seq<char>, patch: Patch)
    requires
        patch.mode == PatchMode::Prepend,
    ensures
        patched(content, patch) is Some,
        patched(content, patch)->0.take(patch.insertion.len() as int) == patch.insertion,
        patched(content, patch)->0[patch.insertion.len() as int] == '\n',
        patched(content, patch)->0.skip(patch.insertion.len() as int + 1) == content,
{
    let text = patched(content, patch)->0;
    assert(text.take(patch.insertion.len() as int) =~= patch.insertion);
    assert(text.skip(patch.insertion.len() as int + 1) =~= content);
}

/// Applies `patch` to the text `content`.
pub fn apply(content: &str, patch: &PatchSpec) -> (result: Result<String, PatchError>)
    ensures
        match patched(content@, patch@) {
            Some(text) => result matches Ok(out) && out@ == text,
            None => result == Err::<String, PatchError>(PatchError::AnchorNotFound),
        },
{
    let old_text = chars_of(content);
    let insertion = chars_of(patch.insertion.as_str());
    let mut new_text: Vec<char> = Vec::new();
    match patch.mode {
        PatchMode::Prepend => {
            push_range(&mut new_text, &insertion, 0, insertion.len());
            new_text.push('\n');
            push_range(&mut new_text, &old_text, 0, old_text.len());
            assert(new_text@ =~= patch@.insertion + seq!['\n'] + content@);
        },
        PatchMode::ReplaceKeepingAnchor => {
            let anchor = chars_of(patch.anchor.as_str());
            match find(&old_text, &anchor) {
                None => {
                    return Err(PatchError::AnchorNotFound);
                },
                Some(at) => {
                    proof {
                        lemma_first_occurrence_below(content@, patch@.anchor, at as int);
                        lemma_first_occurrence_unique(
                            content@,
                            patch@.anchor,
                            at as int,
                            first_index(content@, patch@.anchor),
                        );
                    }
                    push_range(&mut new_text, &old_text, 0, at);
                    push_range(&mut new_text, &insertion, 0, insertion.len());
                    push_range(&mut new_text, &old_text, at + anchor.len(), old_text.len());
                    assert(new_text@ =~= splice(
                        content@,
                        at as int,
                        anchor.len() as int,
                        patch@.insertion,
                    ));
                },
            }
        },
    }
    Ok(string_of(&new_text))
}

/// Patches a file that was found in the state `file`: the text to write
/// back, or the reason why the file is left as it is.
pub fn patch(file: &FileState, spec: &PatchSpec) -> (result: Result<String, PatchError>)
    ensures
        match patch_outcome(file@, spec@) {
            Ok(text) => result matches Ok(out) && out@ == text,
            Err(error) => result == Err::<String, PatchError>(error),
        },
{
    match file {
        FileState::Missing => Err(PatchError::FileNotFound),
        FileState::Unreadable => Err(PatchError::IoError),
        FileState::Text(content) => apply(content.as_str(), spec),
    }
}

} // verus!
