//! What the engine knows of the files it works on: what a read found, and
//! what is to be written where.

use crate::text::{chars_of, string_of};
use vstd::prelude::*;

verus! {

/// What reading a file as text found.
#[derive(Clone, Debug)]
pub enum FileState {
    /// There is no file at the path.
    Missing,
    /// There is one, but it could not be read as text.
    Unreadable,
    /// The file's whole text.
    Text(String),
}

/// The state of a file, its text as a character sequence.
pub enum FileView {
    Missing,
    Unreadable,
    Text(Seq<char>),
}

impl View for FileState {
    type V = FileView;

    open spec fn view(&self) -> FileView {
        match self {
            FileState::Missing => FileView::Missing,
            FileState::Unreadable => FileView::Unreadable,
            FileState::Text(content) => FileView::Text(content@),
        }
    }
}

/// A read or a write did not go through.
#[derive(Clone, Copy, Debug, PartialEq, Eq, Structural)]
pub struct IoError;

/// A file to write: the whole of `content` replaces whatever `path` held.
#[derive(Clone, Debug)]
pub struct FileWrite {
    pub path: String,
    pub content: String,
}

impl View for FileWrite {
    type V = (Seq<char>, Seq<char>);

    open spec fn view(&self) -> (Seq<char>, Seq<char>) {
        (self.path@, self.content@)
    }
}

/// One entry of a directory listing.
#[derive(Clone, Debug)]
pub struct DirectoryEntry {
    pub name: String,
    pub is_directory: bool,
}

/// An entry of a directory listing, its name as a character sequence.
pub struct DirectoryEntryView {
    pub name: Seq<char>,
    pub is_directory: bool,
}

impl View for DirectoryEntry {
    type V = DirectoryEntryView;

    open spec fn view(&self) -> DirectoryEntryView {
        DirectoryEntryView { name: self.name@, is_directory: self.is_directory }
    }
}

/// The entries of a listing as their views.
pub open spec fn listing(entries: Seq<DirectoryEntry>) -> Seq<DirectoryEntryView> {
    entries.map_values(|entry: DirectoryEntry| entry@)
}

/// `name` below the directory `directory`: the two joined by one slash. An
/// empty directory is the current one, an absolute `name` stands for itself,
/// and a directory that ends in a slash gets no second one.
pub open spec fn joined(directory: Seq<char>, name: Seq<char>) -> Seq<char> {
    if directory.len() == 0 || (name.len() > 0 && name[0] == '/') {
        name
    } else if directory.last() == '/' {
        directory + name
    } else {
        directory + seq!['/'] + name
    }
}

/// The path of `name` below `directory`.
pub fn join_path(directory: &str, name: &str) -> (path: String)
    ensures
        path@ == joined(directory@, name@),
{
    let dir = chars_of(directory);
    let file = chars_of(name);
    if dir.len() == 0 || (file.len() > 0 && file[0] == '/') {
        return string_of(&file);
    }
    let mut path = dir;
    if path[path.len() - 1] != '/' {
        path.push('/');
    }
    let mut i: usize = 0;
    while i < file.len()
        invariant
            i <= file.len(),
            path@ == joined(directory@, name@.take(i as int)),
            directory@.len() > 0,
            file@ == name@,
            !(name@.len() > 0 && name@[0] == '/'),
        decreases file.len() - i,
    {
        path.push(file[i]);
        i += 1;
        assert(name@.take(i as int) =~= name@.take(i - 1).push(name@[i - 1]));
        assert(path@ =~= joined(directory@, name@.take(i as int)));
    }
    assert(name@.take(name@.len() as int) =~= name@);
    string_of(&path)
}

} // verus!
