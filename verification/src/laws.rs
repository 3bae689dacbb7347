//! What holds of every load and every save.
//!
//! A course is a whole run of a protocol: the requests that the driver
//! sees, in order, and the outcome. `load_course` and `save_course` say in
//! one piece what a course is for given answers; `load_run` and `save_run`
//! play the protocol step by step. The laws below show that the two agree
//! and what follows from it.

use vstd::prelude::*;
use crate::error::ConfigErrorView;
use crate::load::{
    load_start, load_step, LoadAnswerView, LoadOutcomeView, LoadRequestView, LoadStepView,
    LoadView,
};
use crate::save::{
    save_start, save_step, SaveAnswerView, SaveRequestView, SaveStepView, SaveView,
};

verus! {

/// A whole load: the requests made, in order, and how it ended.
pub struct LoadCourse<T> {
    pub requests: Seq<LoadRequestView>,
    pub outcome: LoadOutcomeView<T>,
}

/// A whole save: the requests made, in order, and how it ended.
pub struct SaveCourse {
    pub requests: Seq<SaveRequestView>,
    pub outcome: Result<(), ConfigErrorView>,
}

/// The load of `path` on a disk where the file exists or not, as `exists`
/// says, reading it gives `read` and decoding what was read gives `parsed`.
///
/// A file that is missing is never read: the load is over after the probe,
/// with `Missing`. A file that cannot be read is never decoded.
pub open spec fn load_course<T>(
    path: Seq<char>,
    exists: bool,
    read: Result<Seq<char>, Seq<char>>,
    parsed: Result<T, Seq<char>>,
) -> LoadCourse<T> {
    if !exists {
        LoadCourse { requests: seq![LoadRequestView::Probe], outcome: LoadOutcomeView::Missing }
    } else {
        match read {
            Err(cause) => LoadCourse {
                requests: seq![LoadRequestView::Probe, LoadRequestView::Read],
                outcome: LoadOutcomeView::Failed(ConfigErrorView::ReadError { path, cause }),
            },
            Ok(text) => LoadCourse {
                requests: seq![
                    LoadRequestView::Probe,
                    LoadRequestView::Read,
                    LoadRequestView::Parse(text),
                ],
                outcome: match parsed {
                    Ok(value) => LoadOutcomeView::Loaded(value),
                    Err(cause) => LoadOutcomeView::Failed(
                        ConfigErrorView::ParseError { path, cause },
                    ),
                },
            },
        }
    }
}

/// The answer that such a disk gives to `request`.
pub open spec fn load_answer<T>(
    request: LoadRequestView,
    exists: bool,
    read: Result<Seq<char>, Seq<char>>,
    parsed: Result<T, Seq<char>>,
) -> LoadAnswerView<T> {
    match request {
        LoadRequestView::Probe => LoadAnswerView::Probed(exists),
        LoadRequestView::Read => LoadAnswerView::ReadDone(read),
        LoadRequestView::Parse(_) => LoadAnswerView::Parsed(parsed),
    }
}

/// The protocol played from `state` for at most `steps` requests, each
/// answered as `load_answer` says. `None` where it is not over by then.
pub open spec fn load_run<T>(
    state: LoadView,
    exists: bool,
    read: Result<Seq<char>, Seq<char>>,
    parsed: Result<T, Seq<char>>,
    steps: nat,
) -> Option<LoadCourse<T>>
    decreases steps,
{
    if steps == 0 {
        None
    } else {
        match load_step(state, load_answer(state.request, exists, read, parsed)) {
            LoadStepView::Done(outcome) => Some(
                LoadCourse { requests: seq![state.request], outcome },
            ),
            LoadStepView::Continue(next) => match load_run(
                next,
                exists,
                read,
                parsed,
                (steps - 1) as nat,
            ) {
                Some(rest) => Some(
                    LoadCourse {
                        requests: seq![state.request] + rest.requests,
                        outcome: rest.outcome,
                    },
                ),
                None => None,
            },
        }
    }
}

/// The save to `path`, with `parent` the directory above it, where making
/// the directory gives `made`, serializing the value gives `encoded` and
/// writing the text gives `written`.
///
/// The directory is asked for first, where there is one, and the save
/// stops there if it cannot be made. Only text that the value gave is
/// written, and nothing is written where it gave none.
pub open spec fn save_course(
    path: Seq<char>,
    parent: Option<Seq<char>>,
    made: Result<(), Seq<char>>,
    encoded: Result<Seq<char>, Seq<char>>,
    written: Result<(), Seq<char>>,
) -> SaveCourse {
    let first = match parent {
        Some(dir) => seq![SaveRequestView::CreateDirs(dir)],
        None => seq![],
    };
    match (parent, made) {
        (Some(dir), Err(cause)) => SaveCourse {
            requests: first,
            outcome: Err(ConfigErrorView::DirectoryError { path: dir, cause }),
        },
        _ => match encoded {
            Err(cause) => SaveCourse {
                requests: first.push(SaveRequestView::Serialize),
                outcome: Err(ConfigErrorView::SerializeError { cause }),
            },
            Ok(text) => SaveCourse {
                requests: first.push(SaveRequestView::Serialize).push(SaveRequestView::Write(text)),
                outcome: match written {
                    Ok(_) => Ok(()),
                    Err(cause) => Err(ConfigErrorView::WriteError { path, cause }),
                },
            },
        },
    }
}

/// The answer that such a disk and such a value give to `request`.
pub open spec fn save_answer(
    request: SaveRequestView,
    made: Result<(), Seq<char>>,
    encoded: Result<Seq<char>, Seq<char>>,
    written: Result<(), Seq<char>>,
) -> SaveAnswerView {
    match request {
        SaveRequestView::CreateDirs(_) => SaveAnswerView::DirsCreated(made),
        SaveRequestView::Serialize => SaveAnswerView::Serialized(encoded),
        SaveRequestView::Write(_) => SaveAnswerView::Written(written),
    }
}

/// The protocol played from `state` for at most `steps` requests, each
/// answered as `save_answer` says. `None` where it is not over by then.
pub open spec fn save_run(
    state: SaveView,
    made: Result<(), Seq<char>>,
    encoded: Result<Seq<char>, Seq<char>>,
    written: Result<(), Seq<char>>,
    steps: nat,
) -> Option<SaveCourse>
    decreases steps,
{
    if steps == 0 {
        None
    } else {
        match save_step(state, save_answer(state.request, made, encoded, written)) {
            SaveStepView::Done(outcome) => Some(
                SaveCourse { requests: seq![state.request], outcome },
            ),
            SaveStepView::Continue(next) => match save_run(
                next,
                made,
                encoded,
                written,
                (steps - 1) as nat,
            ) {
                Some(rest) => Some(
                    SaveCourse {
                        requests: seq![state.request] + rest.requests,
                        outcome: rest.outcome,
                    },
                ),
                None => None,
            },
        }
    }
}

/// Every load is over within three requests, and its course is the one
/// that `load_course` describes.
pub proof fn lemma_load_run_is_course<T>(
    path: Seq<char>,
    exists: bool,
    read: Result<Seq<char>, Seq<char>>,
    parsed: Result<T, Seq<char>>,
)
    ensures
        load_run(load_start(path), exists, read, parsed, 3) == Some(
            load_course(path, exists, read, parsed),
        ),
{
    reveal_with_fuel(load_run, 4);
    let run = load_run(load_start(path), exists, read, parsed, 3);
    let course = load_course(path, exists, read, parsed);
    assert(run is Some);
    assert(run.unwrap().requests =~= course.requests);
}

/// Every save is over within three requests, and its course is the one
/// that `save_course` describes.
pub proof fn lemma_save_run_is_course(
    path: Seq<char>,
    parent: Option<Seq<char>>,
    made: Result<(), Seq<char>>,
    encoded: Result<Seq<char>, Seq<char>>,
    written: Result<(), Seq<char>>,
)
    ensures
        save_run(save_start(path, parent), made, encoded, written, 3) == Some(
            save_course(path, parent, made, encoded, written),
        ),
{
    reveal_with_fuel(save_run, 4);
    let run = save_run(save_start(path, parent), made, encoded, written, 3);
    let course = save_course(path, parent, made, encoded, written);
    assert(run is Some);
    assert(run.unwrap().requests =~= course.requests);
}

/// A load of a path at which nothing exists is over after the probe, with
/// `Missing`, whatever a read or a decoder would have said: it is no
/// failure, and nothing is read.
pub proof fn lemma_missing_file_is_no_failure<T>(
    path: Seq<char>,
    read: Result<Seq<char>, Seq<char>>,
    parsed: Result<T, Seq<char>>,
)
    ensures
        load_run(load_start(path), false, read, parsed, 1) == Some(
            LoadCourse::<T> {
                requests: seq![LoadRequestView::Probe],
                outcome: LoadOutcomeView::Missing,
            },
        ),
{
    reveal_with_fuel(load_run, 2);
}

/// A load fails only on a file that exists: with a `ReadError` on the path
/// where the read fails, with a `ParseError` on the path where the text
/// cannot be decoded, and in no other way.
pub proof fn lemma_load_fails_only_on_existing_file<T>(
    path: Seq<char>,
    exists: bool,
    read: Result<Seq<char>, Seq<char>>,
    parsed: Result<T, Seq<char>>,
)
    ensures
        match load_run(load_start(path), exists, read, parsed, 3) {
            Some(course) => match course.outcome {
                LoadOutcomeView::Failed(error) => exists && match read {
                    Err(cause) => error == (ConfigErrorView::ReadError { path, cause }),
                    Ok(_) => match parsed {
                        Err(cause) => error == (ConfigErrorView::ParseError { path, cause }),
                        Ok(_) => false,
                    },
                },
                _ => true,
            },
            None => false,
        },
{
    lemma_load_run_is_course(path, exists, read, parsed);
}

/// A load of a file whose text cannot be decoded hands that text to the
/// decoder and ends with a `ParseError` that holds the path and the
/// decoder's cause. A load of a missing file does not end so.
pub proof fn lemma_undecodable_text_is_parse_error<T>(
    path: Seq<char>,
    text: Seq<char>,
    cause: Seq<char>,
)
    ensures
        load_run::<T>(load_start(path), true, Ok(text), Err(cause), 3) == Some(
            LoadCourse::<T> {
                requests: seq![
                    LoadRequestView::Probe,
                    LoadRequestView::Read,
                    LoadRequestView::Parse(text),
                ],
                outcome: LoadOutcomeView::Failed(ConfigErrorView::ParseError { path, cause }),
            },
        ),
        load_run::<T>(load_start(path), true, Ok(text), Err(cause), 3) != load_run::<T>(
            load_start(path),
            false,
            Ok(text),
            Err(cause),
            3,
        ),
{
    lemma_load_run_is_course::<T>(path, true, Ok(text), Err(cause));
    lemma_load_run_is_course::<T>(path, false, Ok(text), Err(cause));
}

/// A save to a path with a directory above it asks for that directory
/// before anything else, and asks for nothing to be written unless the
/// directory was made. Where the directory can be made, the value has JSON
/// text and the text can be written, the save ends well.
pub proof fn lemma_directory_comes_first(
    path: Seq<char>,
    dir: Seq<char>,
    made: Result<(), Seq<char>>,
    encoded: Result<Seq<char>, Seq<char>>,
    written: Result<(), Seq<char>>,
)
    ensures
        match save_run(save_start(path, Some(dir)), made, encoded, written, 3) {
            Some(course) => {
                &&& course.requests.first() == SaveRequestView::CreateDirs(dir)
                &&& forall|i: int|
                    0 <= i < course.requests.len() && (#[trigger] course.requests[i]) is Write
                        ==> i > 0 && made is Ok
                &&& made is Ok && encoded is Ok && written is Ok ==> course.outcome is Ok
            },
            None => false,
        },
{
    lemma_save_run_is_course(path, Some(dir), made, encoded, written);
}

/// What is saved is what is loaded again. A save whose requests all
/// succeed ends well, and the last thing it asks for is that the text
/// which the value gave be written. A load that finds the file and reads
/// that text hands the same text to the decoder and ends with the
/// decoder's value. So where the disk keeps what it was given and the
/// decoder reads `text` as the value that gave it, the value loaded is the
/// value saved.
pub proof fn lemma_save_then_load<T>(
    path: Seq<char>,
    parent: Option<Seq<char>>,
    text: Seq<char>,
    value: T,
)
    ensures
        match save_run(save_start(path, parent), Ok(()), Ok(text), Ok(()), 3) {
            Some(saved) => saved.outcome == Ok::<(), ConfigErrorView>(())
                && saved.requests.last() == SaveRequestView::Write(text),
            None => false,
        },
        match load_run(load_start(path), true, Ok(text), Ok::<T, Seq<char>>(value), 3) {
            Some(loaded) => loaded.outcome == LoadOutcomeView::Loaded(value)
                && loaded.requests.last() == LoadRequestView::Parse(text),
            None => false,
        },
{
    lemma_save_run_is_course(path, parent, Ok(()), Ok(text), Ok(()));
    lemma_load_run_is_course(path, true, Ok(text), Ok::<T, Seq<char>>(value));
}

} // verus!
