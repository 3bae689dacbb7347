//! Saving a configuration value, one request at a time.
//!
//! A `Save` never touches the disk. It asks for the directory above the
//! file to be made, then for the value as pretty-printed JSON, then for
//! that text to be written over the file, and stops at the first request
//! that fails.

use vstd::prelude::*;
use crate::error::{ConfigError, ConfigErrorView};
use crate::paths::{parent_path, path_parent};

verus! {

/// What a save asks of its driver.
#[derive(Debug, PartialEq, Eq)]
pub enum SaveRequest {
    /// Create this directory, and every directory above it that is missing.
    CreateDirs(String),
    /// Turn the value into pretty-printed JSON.
    Serialize,
    /// Write this text to the path, in place of what the file held.
    Write(String),
}

/// A `SaveRequest` with its text as a sequence of characters.
pub enum SaveRequestView {
    CreateDirs(Seq<char>),
    Serialize,
    Write(Seq<char>),
}

impl View for SaveRequest {
    type V = SaveRequestView;

    open spec fn view(&self) -> SaveRequestView {
        match self {
            SaveRequest::CreateDirs(dir) => SaveRequestView::CreateDirs(dir@),
            SaveRequest::Serialize => SaveRequestView::Serialize,
            SaveRequest::Write(text) => SaveRequestView::Write(text@),
        }
    }
}

/// What the driver found. A failure comes with the cause as text.
#[derive(Debug)]
pub enum SaveAnswer {
    /// The directory is there now, or why it could not be made.
    DirsCreated(Result<(), String>),
    /// The value as JSON text, or why it has none.
    Serialized(Result<String, String>),
    /// The file holds the text now, or why it could not be written.
    Written(Result<(), String>),
}

/// A `SaveAnswer` with its texts as sequences of characters.
pub enum SaveAnswerView {
    DirsCreated(Result<(), Seq<char>>),
    Serialized(Result<Seq<char>, Seq<char>>),
    Written(Result<(), Seq<char>>),
}

impl View for SaveAnswer {
    type V = SaveAnswerView;

    open spec fn view(&self) -> SaveAnswerView {
        match self {
            SaveAnswer::DirsCreated(Ok(())) => SaveAnswerView::DirsCreated(Ok(())),
            SaveAnswer::DirsCreated(Err(cause)) => SaveAnswerView::DirsCreated(Err(cause@)),
            SaveAnswer::Serialized(Ok(text)) => SaveAnswerView::Serialized(Ok(text@)),
            SaveAnswer::Serialized(Err(cause)) => SaveAnswerView::Serialized(Err(cause@)),
            SaveAnswer::Written(Ok(())) => SaveAnswerView::Written(Ok(())),
            SaveAnswer::Written(Err(cause)) => SaveAnswerView::Written(Err(cause@)),
        }
    }
}

/// A save under way: the path it is about and the request it waits on.
#[derive(Debug)]
pub struct Save {
    path: String,
    request: SaveRequest,
}

/// A `Save` as contracts see it.
pub struct SaveView {
    pub path: Seq<char>,
    pub request: SaveRequestView,
}

impl View for Save {
    type V = SaveView;

    closed spec fn view(&self) -> SaveView {
        SaveView { path: self.path@, request: self.request@ }
    }
}

/// What a step leads to.
#[derive(Debug)]
pub enum SaveStep {
    /// The save goes on, with a request of its own.
    Continue(Save),
    /// The save is over: the file is written, or this went wrong.
    Done(Result<(), ConfigError>),
}

/// A `SaveStep` as contracts see it.
pub enum SaveStepView {
    Continue(SaveView),
    Done(Result<(), ConfigErrorView>),
}

impl View for SaveStep {
    type V = SaveStepView;

    open spec fn view(&self) -> SaveStepView {
        match self {
            SaveStep::Continue(save) => SaveStepView::Continue(save@),
            SaveStep::Done(Ok(())) => SaveStepView::Done(Ok(())),
            SaveStep::Done(Err(error)) => SaveStepView::Done(Err(error@)),
        }
    }
}

/// A save to `path` before anything is done, `parent` being the directory
/// above `path`: it asks for that directory, or, where there is none, for
/// the JSON text.
pub open spec fn save_start(path: Seq<char>, parent: Option<Seq<char>>) -> SaveView {
    match parent {
        Some(dir) => SaveView { path, request: SaveRequestView::CreateDirs(dir) },
        None => SaveView { path, request: SaveRequestView::Serialize },
    }
}

/// The rule of the protocol: where `state` goes on `answer`.
///
/// Once the directory is there the value is serialized, and the text is
/// then written. A request that fails ends the save with its error: a
/// `DirectoryError` on the directory, a `SerializeError`, or a `WriteError`
/// on the path. An answer to a request that was not made changes nothing.
pub open spec fn save_step(state: SaveView, answer: SaveAnswerView) -> SaveStepView {
    match (state.request, answer) {
        (SaveRequestView::CreateDirs(_), SaveAnswerView::DirsCreated(Ok(_))) => {
            SaveStepView::Continue(SaveView { path: state.path, request: SaveRequestView::Serialize })
        },
        (SaveRequestView::CreateDirs(dir), SaveAnswerView::DirsCreated(Err(cause))) => {
            SaveStepView::Done(Err(ConfigErrorView::DirectoryError { path: dir, cause }))
        },
        (SaveRequestView::Serialize, SaveAnswerView::Serialized(Ok(text))) => {
            SaveStepView::Continue(SaveView { path: state.path, request: SaveRequestView::Write(text) })
        },
        (SaveRequestView::Serialize, SaveAnswerView::Serialized(Err(cause))) => {
            SaveStepView::Done(Err(ConfigErrorView::SerializeError { cause }))
        },
        (SaveRequestView::Write(_), SaveAnswerView::Written(Ok(_))) => SaveStepView::Done(Ok(())),
        (SaveRequestView::Write(_), SaveAnswerView::Written(Err(cause))) => {
            SaveStepView::Done(Err(ConfigErrorView::WriteError { path: state.path, cause }))
        },
        _ => SaveStepView::Continue(state),
    }
}

impl Save {
    /// Starts a save to the file at `path`. Its first request is for the
    /// directory above `path`, where the path has one.
    pub fn new(path: String) -> (save: Save)
        ensures
            save@ == save_start(path@, path_parent(path@)),
    {
        let parent = parent_path(path.as_str());
        Save::with_parent(path, parent)
    }

    /// Starts a save to the file at `path`, given the directory above it.
    pub fn with_parent(path: String, parent: Option<String>) -> (save: Save)
        ensures
            save@ == save_start(path@, parent.deep_view()),
    {
        match parent {
            Some(dir) => Save { path, request: SaveRequest::CreateDirs(dir) },
            None => Save { path, request: SaveRequest::Serialize },
        }
    }

    /// The path that is being saved to.
    pub fn path(&self) -> (path: &str)
        ensures
            path@ == self@.path,
    {
        self.path.as_str()
    }

    /// The request that the save waits on.
    pub fn request(&self) -> (request: &SaveRequest)
        ensures
            request@ == self@.request,
    {
        &self.request
    }

    /// Takes the driver's answer and decides how the save goes on.
    pub fn step(self, answer: SaveAnswer) -> (next: SaveStep)
        ensures
            next@ == save_step(self@, answer@),
    {
        let Save { path, request } = self;
        match (request, answer) {
            (SaveRequest::CreateDirs(_), SaveAnswer::DirsCreated(Ok(()))) => {
                SaveStep::Continue(Save { path, request: SaveRequest::Serialize })
            },
            (SaveRequest::CreateDirs(dir), SaveAnswer::DirsCreated(Err(cause))) => {
                SaveStep::Done(Err(ConfigError::DirectoryError { path: dir, cause }))
            },
            (SaveRequest::Serialize, SaveAnswer::Serialized(Ok(text))) => {
                SaveStep::Continue(Save { path, request: SaveRequest::Write(text) })
            },
            (SaveRequest::Serialize, SaveAnswer::Serialized(Err(cause))) => {
                SaveStep::Done(Err(ConfigError::SerializeError { cause }))
            },
            (SaveRequest::Write(_), SaveAnswer::Written(Ok(()))) => SaveStep::Done(Ok(())),
            (SaveRequest::Write(_), SaveAnswer::Written(Err(cause))) => {
                SaveStep::Done(Err(ConfigError::WriteError { path, cause }))
            },
            (request, _) => SaveStep::Continue(Save { path, request }),
        }
    }
}

} // verus!
