//! Renaming one file: what is to be done with it, and how it ended.

use crate::fold::{fold_text, fold_text_idempotent, string_full2half};
use vstd::prelude::*;

verus! {

/// Why one file could not be renamed.
#[derive(Debug, Clone, PartialEq, Eq)]
pub enum RenameError {
    /// The path has no base name that a transform could be applied to.
    InvalidPath { path: String },
    /// The operating system refused the rename.
    RenameFailed { path: String, reason: String },
}

/// A `RenameError` as text.
pub enum RenameErrorView {
    InvalidPath { path: Seq<char> },
    RenameFailed { path: Seq<char>, reason: Seq<char> },
}

impl View for RenameError {
    type V = RenameErrorView;

    open spec fn view(&self) -> RenameErrorView {
        match *self {
            RenameError::InvalidPath { path } => RenameErrorView::InvalidPath { path: path@ },
            RenameError::RenameFailed { path, reason } => RenameErrorView::RenameFailed {
                path: path@,
                reason: reason@,
            },
        }
    }
}

/// What is to be done with one file.
#[derive(Debug, Clone, PartialEq, Eq)]
pub enum RenameStep {
    /// Nothing can be done: the file is reported as failed.
    Reject { error: RenameError },
    /// The file already has the name the transform gives it: nothing is
    /// touched.
    Keep,
    /// The file is to be moved to `new_name` beside its present place.
    Rename { old_name: String, new_name: String },
}

/// A `RenameStep` as text.
pub enum RenameStepView {
    Reject { error: RenameErrorView },
    Keep,
    Rename { old_name: Seq<char>, new_name: Seq<char> },
}

impl View for RenameStep {
    type V = RenameStepView;

    open spec fn view(&self) -> RenameStepView {
        match *self {
            RenameStep::Reject { error } => RenameStepView::Reject { error: error@ },
            RenameStep::Keep => RenameStepView::Keep,
            RenameStep::Rename { old_name, new_name } => RenameStepView::Rename {
                old_name: old_name@,
                new_name: new_name@,
            },
        }
    }
}

/// How one file ended.
#[derive(Debug, Clone, PartialEq, Eq)]
pub enum RenameOutcome {
    Unchanged,
    Renamed { old_name: String, new_name: String },
    Failed { error: RenameError },
}

/// A `RenameOutcome` as text.
pub enum RenameOutcomeView {
    Unchanged,
    Renamed { old_name: Seq<char>, new_name: Seq<char> },
    Failed { error: RenameErrorView },
}

impl View for RenameOutcome {
    type V = RenameOutcomeView;

    open spec fn view(&self) -> RenameOutcomeView {
        match *self {
            RenameOutcome::Unchanged => RenameOutcomeView::Unchanged,
            RenameOutcome::Renamed { old_name, new_name } => RenameOutcomeView::Renamed {
                old_name: old_name@,
                new_name: new_name@,
            },
            RenameOutcome::Failed { error } => RenameOutcomeView::Failed { error: error@ },
        }
    }
}

/// The text that precedes the path in the report of a path without a base
/// name.
pub open spec fn invalid_path_prefix() -> Seq<char> {
    "Failed to get filename: "@
}

/// How an error reads in a report.
pub open spec fn description_of(error: RenameErrorView) -> Seq<char> {
    match error {
        RenameErrorView::InvalidPath { path } => invalid_path_prefix() + path,
        RenameErrorView::RenameFailed { path, reason } => reason,
    }
}

/// The step for a file called `name` whose transform gave `candidate`: a
/// rename exactly when the two differ.
pub open spec fn step_for(name: Seq<char>, candidate: Seq<char>) -> RenameStepView {
    if candidate == name {
        RenameStepView::Keep
    } else {
        RenameStepView::Rename { old_name: name, new_name: candidate }
    }
}

/// The step for a file at `path`, whose base name is `file_name` if it has
/// one, when the transform gives `candidate`.
pub open spec fn step_of(
    path: Seq<char>,
    file_name: Option<Seq<char>>,
    candidate: Seq<char>,
) -> RenameStepView {
    match file_name {
        None => RenameStepView::Reject { error: RenameErrorView::InvalidPath { path } },
        Some(name) => step_for(name, candidate),
    }
}

/// The step for a file at `path` under width folding.
pub open spec fn fold_step(path: Seq<char>, file_name: Option<Seq<char>>) -> RenameStepView {
    match file_name {
        None => step_of(path, None, Seq::empty()),
        Some(name) => step_of(path, Some(name), fold_text(name)),
    }
}

/// Whether a step asks for a rename on disk.
pub open spec fn touches_disk(step: RenameStepView) -> bool {
    step is Rename
}

/// How a step ends. `failure` is the operating system's complaint about the
/// rename, if it made one; it counts only where the step asked for a rename.
pub open spec fn outcome_of(
    path: Seq<char>,
    step: RenameStepView,
    failure: Option<Seq<char>>,
) -> RenameOutcomeView {
    match step {
        RenameStepView::Reject { error } => RenameOutcomeView::Failed { error },
        RenameStepView::Keep => RenameOutcomeView::Unchanged,
        RenameStepView::Rename { old_name, new_name } => match failure {
            None => RenameOutcomeView::Renamed { old_name, new_name },
            Some(reason) => RenameOutcomeView::Failed {
                error: RenameErrorView::RenameFailed { path, reason },
            },
        },
    }
}

/// The complaint in the result of a rename, if there is one.
pub open spec fn failure_of(renamed: Result<(), String>) -> Option<Seq<char>> {
    match renamed {
        Ok(_) => None,
        Err(reason) => Some(reason@),
    }
}

/// The text of an optional string slice.
pub open spec fn name_view(file_name: Option<&str>) -> Option<Seq<char>> {
    match file_name {
        None => None,
        Some(name) => Some(name@),
    }
}

impl RenameError {
    /// The path of the file that the error is about.
    pub fn path(&self) -> (r: &str)
        ensures
            r@ == match self@ {
                RenameErrorView::InvalidPath { path } => path,
                RenameErrorView::RenameFailed { path, reason } => path,
            },
    {
        match self {
            RenameError::InvalidPath { path } => path.as_str(),
            RenameError::RenameFailed { path, reason: _ } => path.as_str(),
        }
    }

    /// The error as it reads in a report.
    pub fn describe(&self) -> (r: String)
        ensures
            r@ == description_of(self@),
    {
        match self {
            RenameError::InvalidPath { path } => {
                let mut text = "Failed to get filename: ".to_owned();
                text.append(path.as_str());
                text
            },
            RenameError::RenameFailed { path: _, reason } => reason.clone(),
        }
    }
}

/// Decides what is to be done with the file at `path`. `file_name` is its
/// base name, or `None` where the path has none; `transform_fn` computes the
/// new base name from the present one, and is not called where there is none.
pub fn transform_file<F: Fn(&str) -> String>(
    path: &str,
    file_name: Option<&str>,
    transform_fn: &F,
) -> (step: RenameStep)
    requires
        file_name matches Some(name) ==> call_requires(transform_fn, (name,)),
    ensures
        file_name is None ==> step@ == step_of(path@, None, Seq::empty()),
        file_name matches Some(name) ==> exists|candidate: String|
            call_ensures(transform_fn, (name,), candidate) && step@ == step_of(
                path@,
                Some(name@),
                candidate@,
            ),
{
    match file_name {
        None => RenameStep::Reject { error: RenameError::InvalidPath { path: path.to_owned() } },
        Some(name) => {
            let candidate = transform_fn(name);
            let ghost witness = candidate;
            let step = plan_rename(name, candidate);
            assert(call_ensures(transform_fn, (name,), witness) && step@ == step_of(
                path@,
                Some(name@),
                witness@,
            ));
            step
        },
    }
}

/// Decides what is to be done with the file at `path` under width folding.
pub fn convert_file(path: &str, file_name: Option<&str>) -> (step: RenameStep)
    ensures
        step@ == fold_step(path@, name_view(file_name)),
{
    transform_file(path, file_name, &string_full2half)
}

/// The step for a file called `name` whose new name is to be `candidate`.
pub fn plan_rename(name: &str, candidate: String) -> (step: RenameStep)
    ensures
        step@ == step_for(name@, candidate@),
{
    let old_name = name.to_owned();
    if candidate == old_name {
        RenameStep::Keep
    } else {
        RenameStep::Rename { old_name, new_name: candidate }
    }
}

/// Records how a step ended. `renamed` is the result of the rename on disk
/// and is read only where the step asked for one.
pub fn rename_outcome(path: &str, step: RenameStep, renamed: Result<(), String>) -> (outcome:
    RenameOutcome)
    ensures
        outcome@ == outcome_of(path@, step@, failure_of(renamed)),
{
    match step {
        RenameStep::Reject { error } => RenameOutcome::Failed { error },
        RenameStep::Keep => RenameOutcome::Unchanged,
        RenameStep::Rename { old_name, new_name } => match renamed {
            Ok(_) => RenameOutcome::Renamed { old_name, new_name },
            Err(reason) => RenameOutcome::Failed {
                error: RenameError::RenameFailed { path: path.to_owned(), reason },
            },
        },
    }
}

/// A file whose name is already folded is kept: folding a batch a second
/// time renames nothing.
pub proof fn folded_name_is_kept(path: Seq<char>, name: Seq<char>)
    ensures
        fold_step(path, Some(fold_text(name))) == RenameStepView::Keep,
{
    fold_text_idempotent(name);
}

/// A step touches the disk exactly when the transform gave the file a name
/// other than the one it has.
pub proof fn rename_only_on_change(path: Seq<char>, name: Seq<char>, candidate: Seq<char>)
    ensures
        touches_disk(step_of(path, Some(name), candidate)) <==> candidate != name,
        !touches_disk(step_of(path, None, candidate)),
{
}

} // verus!
