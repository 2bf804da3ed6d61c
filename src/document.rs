//! What loading a file gives: its text, or why there is none.
use vstd::prelude::*;
use crate::text::DocStats;

verus! {

pub const NO_PATH_MESSAGE: &'static str = "No file path provided. Usage: tty_doc <file_path>";

pub const NOT_FOUND_PREFIX: &'static str = "File not found: ";

pub const READ_FAILED_PREFIX: &'static str = "Error reading file: ";

/// Why a load produced no text.
#[derive(Clone, Debug)]
pub enum LoadError {
    /// No path was given.
    NoPath,
    /// Nothing exists at this path.
    NotFound(String),
    /// The file exists but could not be read as UTF-8 text; the reader's
    /// description.
    ReadFailed(String),
}

/// The value of a `LoadError`, with its strings as character sequences.
pub enum LoadFailure {
    NoPath,
    NotFound(Seq<char>),
    ReadFailed(Seq<char>),
}

impl View for LoadError {
    type V = LoadFailure;

    open spec fn view(&self) -> LoadFailure {
        match self {
            LoadError::NoPath => LoadFailure::NoPath,
            LoadError::NotFound(p) => LoadFailure::NotFound(p@),
            LoadError::ReadFailed(e) => LoadFailure::ReadFailed(e@),
        }
    }
}

/// The view of an optional load error.
pub open spec fn failure_of(e: Option<LoadError>) -> Option<LoadFailure> {
    match e {
        Some(err) => Some(err@),
        None => None,
    }
}

/// The message shown for a load failure.
pub open spec fn failure_message(f: LoadFailure) -> Seq<char> {
    match f {
        LoadFailure::NoPath => NO_PATH_MESSAGE@,
        LoadFailure::NotFound(p) => NOT_FOUND_PREFIX@ + p,
        LoadFailure::ReadFailed(e) => READ_FAILED_PREFIX@ + e,
    }
}

impl LoadError {
    /// The message shown for this error.
    pub fn message(&self) -> (r: String)
        ensures
            r@ == failure_message(self@),
    {
        match self {
            LoadError::NoPath => String::from_str(NO_PATH_MESSAGE),
            LoadError::NotFound(p) => String::from_str(NOT_FOUND_PREFIX).concat(p.as_str()),
            LoadError::ReadFailed(e) => String::from_str(READ_FAILED_PREFIX).concat(e.as_str()),
        }
    }
}

/// What looking at a path on disk found.
#[derive(Clone, Debug)]
pub enum FileProbe {
    /// Nothing exists there.
    Missing,
    /// Something exists but reading it as UTF-8 text failed; the reader's
    /// description.
    Unreadable(String),
    /// The whole file, read as text.
    Text(String),
}

/// The text a load of `path` keeps, given what was found there: the file's
/// text, or nothing when the load failed.
pub open spec fn loaded_text(path: Seq<char>, probe: FileProbe) -> Seq<char> {
    if path.len() == 0 {
        Seq::empty()
    } else {
        match probe {
            FileProbe::Text(t) => t@,
            _ => Seq::empty(),
        }
    }
}

/// Why a load of `path` failed, given what was found there; `None` when it
/// succeeded.
pub open spec fn load_failure(path: Seq<char>, probe: FileProbe) -> Option<LoadFailure> {
    if path.len() == 0 {
        Some(LoadFailure::NoPath)
    } else {
        match probe {
            FileProbe::Missing => Some(LoadFailure::NotFound(path)),
            FileProbe::Unreadable(e) => Some(LoadFailure::ReadFailed(e@)),
            FileProbe::Text(_) => None,
        }
    }
}

/// Loading a path where nothing exists fails with "file not found" for that
/// path and keeps no text.
pub proof fn lemma_missing_file(path: Seq<char>)
    requires
        path.len() > 0,
    ensures
        load_failure(path, FileProbe::Missing) == Some(LoadFailure::NotFound(path)),
        loaded_text(path, FileProbe::Missing).len() == 0,
{
}

/// Loading a readable text file succeeds and keeps exactly its text.
pub proof fn lemma_readable_file(path: Seq<char>, text: String)
    requires
        path.len() > 0,
    ensures
        load_failure(path, FileProbe::Text(text)) is None,
        loaded_text(path, FileProbe::Text(text)) == text@,
{
}

/// Loading the same unchanged file twice gives the same text and the same
/// counts.
pub proof fn lemma_reload_same_file(
    path: Seq<char>,
    first: FileProbe,
    second: FileProbe,
    first_stats: DocStats,
    second_stats: DocStats,
)
    requires
        first == second,
        first_stats.describes(loaded_text(path, first)),
        second_stats.describes(loaded_text(path, second)),
    ensures
        loaded_text(path, first) == loaded_text(path, second),
        load_failure(path, first) == load_failure(path, second),
        first_stats == second_stats,
{
}

} // verus!
