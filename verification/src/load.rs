//! Loading a configuration value, one request at a time.
//!
//! A `Load` never touches the disk. It names the request that its driver
//! has to carry out, takes the answer, and either names the next request
//! or says how the load ended. A file that is not there is no failure: the
//! load ends at once, and the value is the type's default.

use vstd::prelude::*;
use crate::error::{ConfigError, ConfigErrorView};

verus! {

/// What a load asks of its driver.
#[derive(Debug, PartialEq, Eq)]
pub enum LoadRequest {
    /// Say whether anything exists at the path.
    Probe,
    /// Read the whole file as text.
    Read,
    /// Decode this text as JSON.
    Parse(String),
}

/// A `LoadRequest` with its text as a sequence of characters.
pub enum LoadRequestView {
    Probe,
    Read,
    Parse(Seq<char>),
}

impl View for LoadRequest {
    type V = LoadRequestView;

    open spec fn view(&self) -> LoadRequestView {
        match self {
            LoadRequest::Probe => LoadRequestView::Probe,
            LoadRequest::Read => LoadRequestView::Read,
            LoadRequest::Parse(text) => LoadRequestView::Parse(text@),
        }
    }
}

/// What the driver found. A failure comes with the cause as text.
#[derive(Debug)]
pub enum LoadAnswer<T> {
    /// Whether anything exists at the path.
    Probed(bool),
    /// The file's text, or why it could not be read.
    ReadDone(Result<String, String>),
    /// The decoded value, or why the text could not be decoded.
    Parsed(Result<T, String>),
}

/// A `LoadAnswer` with its texts as sequences of characters.
pub enum LoadAnswerView<T> {
    Probed(bool),
    ReadDone(Result<Seq<char>, Seq<char>>),
    Parsed(Result<T, Seq<char>>),
}

impl<T> View for LoadAnswer<T> {
    type V = LoadAnswerView<T>;

    open spec fn view(&self) -> LoadAnswerView<T> {
        match self {
            LoadAnswer::Probed(exists) => LoadAnswerView::Probed(*exists),
            LoadAnswer::ReadDone(Ok(text)) => LoadAnswerView::ReadDone(Ok(text@)),
            LoadAnswer::ReadDone(Err(cause)) => LoadAnswerView::ReadDone(Err(cause@)),
            LoadAnswer::Parsed(Ok(value)) => LoadAnswerView::Parsed(Ok(*value)),
            LoadAnswer::Parsed(Err(cause)) => LoadAnswerView::Parsed(Err(cause@)),
        }
    }
}

/// How a load ended.
#[derive(Debug)]
pub enum LoadOutcome<T> {
    /// Nothing exists at the path: the value is the type's default.
    Missing,
    /// The file held this value.
    Loaded(T),
    /// The file is there, and could not be read or decoded.
    Failed(ConfigError),
}

/// A `LoadOutcome` with the error's texts as sequences of characters.
pub enum LoadOutcomeView<T> {
    Missing,
    Loaded(T),
    Failed(ConfigErrorView),
}

impl<T> View for LoadOutcome<T> {
    type V = LoadOutcomeView<T>;

    open spec fn view(&self) -> LoadOutcomeView<T> {
        match self {
            LoadOutcome::Missing => LoadOutcomeView::Missing,
            LoadOutcome::Loaded(value) => LoadOutcomeView::Loaded(*value),
            LoadOutcome::Failed(error) => LoadOutcomeView::Failed(error@),
        }
    }
}

/// A load under way: the path it is about and the request it waits on.
#[derive(Debug)]
pub struct Load {
    path: String,
    request: LoadRequest,
}

/// A `Load` as contracts see it.
pub struct LoadView {
    pub path: Seq<char>,
    pub request: LoadRequestView,
}

impl View for Load {
    type V = LoadView;

    closed spec fn view(&self) -> LoadView {
        LoadView { path: self.path@, request: self.request@ }
    }
}

/// What a step leads to.
#[derive(Debug)]
pub enum LoadStep<T> {
    /// The load goes on, with a request of its own.
    Continue(Load),
    /// The load is over.
    Done(LoadOutcome<T>),
}

/// A `LoadStep` as contracts see it.
pub enum LoadStepView<T> {
    Continue(LoadView),
    Done(LoadOutcomeView<T>),
}

impl<T> View for LoadStep<T> {
    type V = LoadStepView<T>;

    open spec fn view(&self) -> LoadStepView<T> {
        match self {
            LoadStep::Continue(load) => LoadStepView::Continue(load@),
            LoadStep::Done(outcome) => LoadStepView::Done(outcome@),
        }
    }
}

/// A load of `path` before anything is known: it asks for a probe.
pub open spec fn load_start(path: Seq<char>) -> LoadView {
    LoadView { path, request: LoadRequestView::Probe }
}

/// The rule of the protocol: where `state` goes on `answer`.
///
/// A missing file ends the load with `Missing`. A file that is there is
/// read, and a read that fails ends the load with a `ReadError`. Text that
/// was read is decoded, and the load ends with the value or with a
/// `ParseError`. An answer to a request that was not made changes nothing.
pub open spec fn load_step<T>(state: LoadView, answer: LoadAnswerView<T>) -> LoadStepView<T> {
    match (state.request, answer) {
        (LoadRequestView::Probe, LoadAnswerView::Probed(exists)) => if exists {
            LoadStepView::Continue(LoadView { path: state.path, request: LoadRequestView::Read })
        } else {
            LoadStepView::Done(LoadOutcomeView::Missing)
        },
        (LoadRequestView::Read, LoadAnswerView::ReadDone(Ok(text))) => LoadStepView::Continue(
            LoadView { path: state.path, request: LoadRequestView::Parse(text) },
        ),
        (LoadRequestView::Read, LoadAnswerView::ReadDone(Err(cause))) => LoadStepView::Done(
            LoadOutcomeView::Failed(ConfigErrorView::ReadError { path: state.path, cause }),
        ),
        (LoadRequestView::Parse(_), LoadAnswerView::Parsed(Ok(value))) => LoadStepView::Done(
            LoadOutcomeView::Loaded(value),
        ),
        (LoadRequestView::Parse(_), LoadAnswerView::Parsed(Err(cause))) => LoadStepView::Done(
            LoadOutcomeView::Failed(ConfigErrorView::ParseError { path: state.path, cause }),
        ),
        _ => LoadStepView::Continue(state),
    }
}

impl Load {
    /// Starts a load of the file at `path`. Its first request is a probe.
    pub fn new(path: String) -> (load: Load)
        ensures
            load@ == load_start(path@),
    {
        Load { path, request: LoadRequest::Probe }
    }

    /// The path that is being loaded.
    pub fn path(&self) -> (path: &str)
        ensures
            path@ == self@.path,
    {
        self.path.as_str()
    }

    /// The request that the load waits on.
    pub fn request(&self) -> (request: &LoadRequest)
        ensures
            request@ == self@.request,
    {
        &self.request
    }

    /// Takes the driver's answer and decides how the load goes on.
    pub fn step<T>(self, answer: LoadAnswer<T>) -> (next: LoadStep<T>)
        ensures
            next@ == load_step(self@, answer@),
    {
        let Load { path, request } = self;
        match (request, answer) {
            (LoadRequest::Probe, LoadAnswer::Probed(exists)) => {
                if exists {
                    LoadStep::Continue(Load { path, request: LoadRequest::Read })
                } else {
                    LoadStep::Done(LoadOutcome::Missing)
                }
            },
            (LoadRequest::Read, LoadAnswer::ReadDone(Ok(text))) => {
                LoadStep::Continue(Load { path, request: LoadRequest::Parse(text) })
            },
            (LoadRequest::Read, LoadAnswer::ReadDone(Err(cause))) => {
                LoadStep::Done(LoadOutcome::Failed(ConfigError::ReadError { path, cause }))
            },
            (LoadRequest::Parse(_), LoadAnswer::Parsed(Ok(value))) => {
                LoadStep::Done(LoadOutcome::Loaded(value))
            },
            (LoadRequest::Parse(_), LoadAnswer::Parsed(Err(cause))) => {
                LoadStep::Done(LoadOutcome::Failed(ConfigError::ParseError { path, cause }))
            },
            (request, _) => LoadStep::Continue(Load { path, request }),
        }
    }
}

impl<T> LoadOutcome<T> {
    /// The outcome as a result: the default of `T` where nothing was there
    /// to load, the loaded value, or the error.
    pub fn into_result(self) -> (result: Result<T, ConfigError>) where T: Default
        ensures
            match self@ {
                LoadOutcomeView::Missing => result matches Ok(value) && call_ensures(
                    T::default,
                    (),
                    value,
                ),
                LoadOutcomeView::Loaded(loaded) => result matches Ok(value) && value == loaded,
                LoadOutcomeView::Failed(failure) => result matches Err(error) && error@ == failure,
            },
    {
        match self {
            LoadOutcome::Missing => Ok(T::default()),
            LoadOutcome::Loaded(value) => Ok(value),
            LoadOutcome::Failed(error) => Err(error),
        }
    }
}

} // verus!
