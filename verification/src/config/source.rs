//! Which configuration file is loaded.
//!
//! The candidates are tried in a fixed order and the first one that can be
//! read wins. Reading a file is the caller's work; what to read next, and
//! when the search is over, is decided here.

use vstd::prelude::*;

verus! {

/// A place where the configuration file may lie, in the order of search.
#[derive(Debug, Clone, Copy, PartialEq, Eq, Structural)]
pub enum Candidate {
    /// `config.toml` in the current working directory.
    WorkingDirectory,
    /// `.config/typy/config.toml` under the user's home directory.
    HomeDirectory,
}

/// What the caller does next.
#[derive(Debug, Clone, PartialEq, Eq)]
pub enum LoadStep {
    /// Read this candidate, and report what came of it.
    Read(Candidate),
    /// The search is over: this is the text of the document.
    Done(String),
}

/// What a [`LoadStep`] holds, as text.
pub enum LoadStepView {
    Read(Candidate),
    Done(Seq<char>),
}

impl View for LoadStep {
    type V = LoadStepView;

    open spec fn view(&self) -> LoadStepView {
        match self {
            LoadStep::Read(candidate) => LoadStepView::Read(*candidate),
            LoadStep::Done(content) => LoadStepView::Done(content@),
        }
    }
}

/// The candidate that is tried after `tried`, if there is one.
pub open spec fn following(tried: Candidate) -> Option<Candidate> {
    match tried {
        Candidate::WorkingDirectory => Some(Candidate::HomeDirectory),
        Candidate::HomeDirectory => None,
    }
}

/// The step that follows an attempt to read `tried`. `outcome` is the text
/// that was read, or `None` where the candidate could not be read.
pub open spec fn step_after(tried: Candidate, outcome: Option<Seq<char>>) -> LoadStepView {
    match outcome {
        Some(content) => LoadStepView::Done(content),
        None => match following(tried) {
            Some(next) => LoadStepView::Read(next),
            None => LoadStepView::Done(Seq::empty()),
        },
    }
}

/// The text that the search ends with, given what reading each candidate
/// would come to: the first candidate that can be read wins, and where
/// none can be read the text is empty.
pub open spec fn loaded(working: Option<Seq<char>>, home: Option<Seq<char>>) -> Seq<char> {
    match working {
        Some(content) => content,
        None => match home {
            Some(content) => content,
            None => Seq::empty(),
        },
    }
}

impl Candidate {
    /// The path of the candidate: that of the working directory's file as
    /// it stands, that of the home directory's file relative to the home
    /// directory.
    pub fn path(self) -> (path: &'static str)
        ensures
            path@ == match self {
                Candidate::WorkingDirectory => "./config.toml"@,
                Candidate::HomeDirectory => ".config/typy/config.toml"@,
            },
    {
        match self {
            Candidate::WorkingDirectory => "./config.toml",
            Candidate::HomeDirectory => ".config/typy/config.toml",
        }
    }
}

/// The first step of the search: read the working directory's file.
pub fn first_step() -> (step: LoadStep)
    ensures
        step@ == LoadStepView::Read(Candidate::WorkingDirectory),
{
    LoadStep::Read(Candidate::WorkingDirectory)
}

/// The step after an attempt to read `tried`.
///
/// Text that was read ends the search and is the document. After a
/// candidate that could not be read the next one is tried; after the last
/// one the search ends with an empty document.
pub fn next_step(tried: Candidate, outcome: Option<String>) -> (step: LoadStep)
    ensures
        step@ == step_after(tried, outcome.deep_view()),
{
    match outcome {
        Some(content) => LoadStep::Done(content),
        None => match tried {
            Candidate::WorkingDirectory => LoadStep::Read(Candidate::HomeDirectory),
            Candidate::HomeDirectory => LoadStep::Done(String::new()),
        },
    }
}

/// Following the steps from the first one ends with [`loaded`], whatever
/// reading the two candidates comes to, and the home directory's file is
/// read only where the working directory's file could not be.
pub proof fn lemma_steps_end_with_loaded(working: Option<Seq<char>>, home: Option<Seq<char>>)
    ensures
        match step_after(Candidate::WorkingDirectory, working) {
            LoadStepView::Done(content) => working is Some && content == loaded(working, home),
            LoadStepView::Read(next) => {
                &&& working is None
                &&& next == Candidate::HomeDirectory
                &&& step_after(next, home) == LoadStepView::Done(loaded(working, home))
            },
        },
{
}

/// The working directory's file is preferred: where it can be read, its
/// text is the document, whether or not the home directory's file can be
/// read too.
pub proof fn lemma_working_directory_preferred(content: Seq<char>, home: Option<Seq<char>>)
    ensures
        loaded(Some(content), home) == content,
        step_after(Candidate::WorkingDirectory, Some(content)) == LoadStepView::Done(content),
{
}

} // verus!
