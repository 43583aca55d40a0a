//! One batch: the step for every file, and the single result that the
//! outcomes of all files are gathered into.

use crate::fold::string_full2half;
use crate::rename::{
    description_of, fold_step, outcome_of, step_of, touches_disk, transform_file,
    RenameError, RenameErrorView, RenameOutcome, RenameOutcomeView, RenameStep,
};
use vstd::prelude::*;

verus! {

/// One file of a batch: its path, and its base name where it has one.
#[derive(Debug, Clone, PartialEq, Eq)]
pub struct FileTask {
    pub path: String,
    pub file_name: Option<String>,
}

/// The failure of a batch: every file that failed, in the order of the
/// batch, and one report that names them all.
#[derive(Debug, Clone, PartialEq, Eq)]
pub struct BatchError {
    pub failures: Vec<RenameError>,
    pub report: String,
}

/// The values of the results that succeeded, in their order.
pub open spec fn ok_values<T>(results: Seq<Result<T, RenameError>>) -> Seq<T>
    decreases results.len(),
{
    if results.len() == 0 {
        Seq::empty()
    } else {
        match results.last() {
            Ok(value) => ok_values(results.drop_last()).push(value),
            Err(_) => ok_values(results.drop_last()),
        }
    }
}

/// The errors of the results that failed, in their order.
pub open spec fn errors_in<T>(results: Seq<Result<T, RenameError>>) -> Seq<RenameError>
    decreases results.len(),
{
    if results.len() == 0 {
        Seq::empty()
    } else {
        match results.last() {
            Ok(_) => errors_in(results.drop_last()),
            Err(error) => errors_in(results.drop_last()).push(error),
        }
    }
}

/// The descriptions of the given errors, in their order.
pub open spec fn descriptions_of(errors: Seq<RenameError>) -> Seq<Seq<char>> {
    Seq::new(errors.len(), |i: int| description_of(errors[i]@))
}

/// The texts of the results that are errors, in their order.
pub open spec fn reports_in(results: Seq<Result<(), String>>) -> Seq<Seq<char>>
    decreases results.len(),
{
    if results.len() == 0 {
        Seq::empty()
    } else {
        match results.last() {
            Ok(_) => reports_in(results.drop_last()),
            Err(text) => reports_in(results.drop_last()).push(text@),
        }
    }
}

/// The decimal digit for a number below ten.
pub open spec fn digit(n: nat) -> char {
    ('0' as nat + n) as char
}

/// A number written in decimal digits, without a sign or leading zeros.
pub open spec fn decimal(n: nat) -> Seq<char>
    decreases n,
{
    if n < 10 {
        seq![digit(n)]
    } else {
        decimal(n / 10).push(digit(n % 10))
    }
}

/// The message that closes a report on `count` errors.
pub open spec fn closing_message(count: nat) -> Seq<char> {
    decimal(count) + " error(s) occurred"@
}

/// The given texts, the last one first, each followed by a colon and a
/// space, and then `closing`.
pub open spec fn chained(reports: Seq<Seq<char>>, closing: Seq<char>) -> Seq<char>
    decreases reports.len(),
{
    if reports.len() == 0 {
        closing
    } else {
        reports.last() + ": "@ + chained(reports.drop_last(), closing)
    }
}

/// The one report on the given error texts: the texts, the last one first,
/// each followed by a colon and a space, and then the message that gives
/// their number.
pub open spec fn combined_report(reports: Seq<Seq<char>>) -> Seq<char> {
    chained(reports, closing_message(reports.len()))
}

/// `rust_support::anyhow::collect_results`, on results whose errors are
/// plain texts: it succeeds exactly when no result is an error. Otherwise
/// it fails with one error that starts from a message giving the number of
/// errors and takes each error text, in their order, as a further context.
/// That error is handed back written out with its whole chain, the context
/// added last standing first and the parts joined by a colon and a space.
#[verifier::external_body]
fn collect_reports(results: Vec<Result<(), String>>) -> (r: Result<(), String>)
    ensures
        reports_in(results@).len() == 0 ==> r is Ok,
        reports_in(results@).len() > 0 ==> r is Err && r->Err_0@ == combined_report(
            reports_in(results@),
        ),
{
    let results = results.into_iter().map(|r| r.map_err(anyhow::Error::msg)).collect();
    match rust_support::anyhow::collect_results::<()>(results) {
        Ok(_) => Ok(()),
        Err(error) => Err(format!("{:#}", error)),
    }
}

/// Gathers the results of a batch. Where none is an error, the values come
/// back in their order. Otherwise the batch fails with every error, none
/// lost and in their order, and with the report written for them.
pub fn collect_results<T>(results: Vec<Result<T, RenameError>>) -> (r: Result<Vec<T>, BatchError>)
    ensures
        match r {
            Ok(values) => errors_in(results@).len() == 0 && values@ == ok_values(results@),
            Err(error) => errors_in(results@).len() > 0 && error.failures@ == errors_in(results@)
                && error.report@ == combined_report(descriptions_of(error.failures@)),
        },
{
    let mut values: Vec<T> = Vec::new();
    let mut failures: Vec<RenameError> = Vec::new();
    let mut reports: Vec<Result<(), String>> = Vec::new();
    for result in it: results
        invariant
            it.seq() == results@,
            values@ == ok_values(results@.take(it.index())),
            failures@ == errors_in(results@.take(it.index())),
            reports_in(reports@) == descriptions_of(failures@),
    {
        proof {
            let before = results@.take(it.index());
            let after = results@.take(it.index() + 1);
            assert(after.drop_last() == before);
        }
        let ghost reports_before = reports@;
        match result {
            Ok(value) => {
                values.push(value);
                reports.push(Ok(()));
                assert(reports@.drop_last() == reports_before);
            },
            Err(error) => {
                let text = error.describe();
                reports.push(Err(text));
                failures.push(error);
                assert(reports@.drop_last() == reports_before);
            },
        }
    }
    assert(results@.take(results@.len() as int) == results@);
    match collect_reports(reports) {
        Ok(_) => Ok(values),
        Err(report) => Err(BatchError { failures, report }),
    }
}

/// The errors of the outcomes that failed, in their order.
pub open spec fn failures_of(outcomes: Seq<RenameOutcome>) -> Seq<RenameError>
    decreases outcomes.len(),
{
    if outcomes.len() == 0 {
        Seq::empty()
    } else {
        match outcomes.last() {
            RenameOutcome::Failed { error } => failures_of(outcomes.drop_last()).push(error),
            _ => failures_of(outcomes.drop_last()),
        }
    }
}

/// The result of a batch from the outcomes of its files: success exactly
/// when no file failed, and otherwise every failure, in the order of the
/// batch, with the report written for them.
pub fn batch_result(outcomes: Vec<RenameOutcome>) -> (r: Result<(), BatchError>)
    ensures
        match r {
            Ok(_) => failures_of(outcomes@).len() == 0,
            Err(error) => failures_of(outcomes@).len() > 0 && error.failures@ == failures_of(
                outcomes@,
            ) && error.report@ == combined_report(descriptions_of(error.failures@)),
        },
{
    let mut results: Vec<Result<(), RenameError>> = Vec::new();
    for outcome in it: outcomes
        invariant
            it.seq() == outcomes@,
            errors_in(results@) == failures_of(outcomes@.take(it.index())),
    {
        proof {
            let before = outcomes@.take(it.index());
            let after = outcomes@.take(it.index() + 1);
            assert(after.drop_last() == before);
        }
        let ghost results_before = results@;
        match outcome {
            RenameOutcome::Failed { error } => results.push(Err(error)),
            _ => results.push(Ok(())),
        }
        assert(results@.drop_last() == results_before);
    }
    assert(outcomes@.take(outcomes@.len() as int) == outcomes@);
    match collect_results(results) {
        Ok(_) => Ok(()),
        Err(error) => Err(error),
    }
}

/// The base name of a task as text.
pub open spec fn task_name(task: FileTask) -> Option<Seq<char>> {
    match task.file_name {
        None => None,
        Some(name) => Some(name@),
    }
}

/// Whether `step` is what `transform_fn` makes of `task`: a rejection where
/// the task has no base name, and otherwise the step for a name that the
/// transform gives for the task's base name.
pub open spec fn planned_by<F: Fn(&str) -> String>(
    transform_fn: &F,
    task: FileTask,
    step: RenameStep,
) -> bool {
    match task.file_name {
        None => step@ == step_of(task.path@, None, Seq::empty()),
        Some(name) => exists|text: &str, candidate: String|
            text@ == name@ && #[trigger] call_ensures(transform_fn, (text,), candidate) && step@
                == step_of(task.path@, Some(name@), candidate@),
    }
}

/// Decides, for every file of the batch, what is to be done with it under
/// `transform_fn`. The steps stand in the order of the files, one for each.
pub fn transform_filenames<F: Fn(&str) -> String>(files: &Vec<FileTask>, transform_fn: &F) -> (steps:
    Vec<RenameStep>)
    requires
        forall|name: &str| call_requires(transform_fn, (name,)),
    ensures
        steps.len() == files.len(),
        forall|i: int| 0 <= i < files.len() ==> planned_by(transform_fn, files[i], #[trigger] steps[i]),
{
    let mut steps: Vec<RenameStep> = Vec::new();
    let mut i: usize = 0;
    while i < files.len()
        invariant
            i <= files.len(),
            steps.len() == i,
            forall|name: &str| call_requires(transform_fn, (name,)),
            forall|j: int| 0 <= j < i ==> planned_by(transform_fn, files[j], #[trigger] steps[j]),
        decreases files.len() - i,
    {
        let task = &files[i];
        let step = match &task.file_name {
            None => transform_file(task.path.as_str(), None, transform_fn),
            Some(name) => transform_file(task.path.as_str(), Some(name.as_str()), transform_fn),
        };
        steps.push(step);
        i += 1;
    }
    steps
}

/// Decides, for every file of the batch, what is to be done with it under
/// width folding. The steps stand in the order of the files, one for each.
pub fn convert(files: &Vec<FileTask>) -> (steps: Vec<RenameStep>)
    ensures
        steps.len() == files.len(),
        forall|i: int|
            0 <= i < files.len() ==> (#[trigger] steps[i])@ == fold_step(
                files[i].path@,
                task_name(files[i]),
            ),
{
    let steps = transform_filenames(files, &string_full2half);
    steps
}

/// Results without an error hold their values one for one.
pub proof fn ok_values_of_all_ok<T>(results: Seq<Result<T, RenameError>>)
    requires
        errors_in(results).len() == 0,
    ensures
        ok_values(results).len() == results.len(),
        forall|i: int|
            0 <= i < results.len() ==> (#[trigger] results[i]) is Ok && ok_values(results)[i]
                == results[i]->Ok_0,
    decreases results.len(),
{
    if results.len() > 0 {
        let rest = results.drop_last();
        ok_values_of_all_ok(rest);
        assert forall|i: int| 0 <= i < results.len() implies (#[trigger] results[i]) is Ok
            && ok_values(results)[i] == results[i]->Ok_0 by {
            if i < rest.len() {
                assert(rest[i] == results[i]);
            }
        }
    }
}

/// A batch without a failed file has no failures.
pub proof fn failures_of_none_failed(outcomes: Seq<RenameOutcome>)
    requires
        forall|i: int| 0 <= i < outcomes.len() ==> !(outcomes[i] is Failed),
    ensures
        failures_of(outcomes).len() == 0,
    decreases outcomes.len(),
{
    if outcomes.len() > 0 {
        failures_of_none_failed(outcomes.drop_last());
    }
}

/// A batch in which file `k` failed and no other has exactly one failure:
/// the error of file `k`.
pub proof fn failures_of_one_failed(outcomes: Seq<RenameOutcome>, k: int)
    requires
        0 <= k < outcomes.len(),
        outcomes[k] is Failed,
        forall|i: int| 0 <= i < outcomes.len() && i != k ==> !(outcomes[i] is Failed),
    ensures
        failures_of(outcomes) == seq![outcomes[k]->error],
    decreases outcomes.len(),
{
    let rest = outcomes.drop_last();
    if k == outcomes.len() - 1 {
        failures_of_none_failed(rest);
    } else {
        failures_of_one_failed(rest, k);
    }
}

/// Whether the given steps and outcomes are those of one run over `files`:
/// the transform gave file `i` the name `candidates[i]`, and where a rename
/// was asked for, the operating system answered with `complaints[i]`.
pub open spec fn batch_run(
    files: Seq<FileTask>,
    candidates: Seq<Seq<char>>,
    steps: Seq<RenameStep>,
    complaints: Seq<Option<Seq<char>>>,
    outcomes: Seq<RenameOutcome>,
) -> bool {
    &&& candidates.len() == files.len()
    &&& steps.len() == files.len()
    &&& complaints.len() == files.len()
    &&& outcomes.len() == files.len()
    &&& forall|i: int|
        0 <= i < files.len() ==> (#[trigger] steps[i])@ == step_of(
            files[i].path@,
            task_name(files[i]),
            candidates[i],
        )
    &&& forall|i: int|
        0 <= i < files.len() ==> (#[trigger] outcomes[i])@ == outcome_of(
            files[i].path@,
            steps[i]@,
            complaints[i],
        )
}

/// Where the transform gives every file the name it already has, no step
/// asks for a rename on disk, every file ends unchanged and the batch
/// succeeds.
pub proof fn unchanged_batch_succeeds(
    files: Seq<FileTask>,
    candidates: Seq<Seq<char>>,
    steps: Seq<RenameStep>,
    complaints: Seq<Option<Seq<char>>>,
    outcomes: Seq<RenameOutcome>,
)
    requires
        batch_run(files, candidates, steps, complaints, outcomes),
        forall|i: int| 0 <= i < files.len() ==> task_name(#[trigger] files[i]) == Some(candidates[i]),
    ensures
        forall|i: int| 0 <= i < files.len() ==> !touches_disk((#[trigger] steps[i])@),
        forall|i: int| 0 <= i < files.len() ==> (#[trigger] outcomes[i]) is Unchanged,
        failures_of(outcomes).len() == 0,
{
    failures_of_none_failed(outcomes);
}

/// Where the transform gives every file a name other than its own and the
/// operating system accepts every rename, each step asks for one rename,
/// every file ends renamed to the name the transform gave, and the batch
/// succeeds.
pub proof fn renamed_batch_succeeds(
    files: Seq<FileTask>,
    candidates: Seq<Seq<char>>,
    steps: Seq<RenameStep>,
    complaints: Seq<Option<Seq<char>>>,
    outcomes: Seq<RenameOutcome>,
)
    requires
        batch_run(files, candidates, steps, complaints, outcomes),
        forall|i: int|
            0 <= i < files.len() ==> task_name(#[trigger] files[i]) is Some && task_name(files[i])
                != Some(candidates[i]),
        forall|i: int| 0 <= i < files.len() ==> (#[trigger] complaints[i]) is None,
    ensures
        forall|i: int| 0 <= i < files.len() ==> touches_disk((#[trigger] steps[i])@),
        forall|i: int|
            0 <= i < files.len() ==> (#[trigger] outcomes[i])@ == (RenameOutcomeView::Renamed {
                old_name: task_name(files[i])->0,
                new_name: candidates[i],
            }),
        failures_of(outcomes).len() == 0,
{
    failures_of_none_failed(outcomes);
}

/// Where the transform gives every file a name other than its own and the
/// operating system refuses the rename of file `k` alone, the batch has
/// exactly one failure, which carries the path of file `k` and the
/// system's complaint, and every other file ends renamed.
pub proof fn single_failure_is_reported(
    files: Seq<FileTask>,
    candidates: Seq<Seq<char>>,
    steps: Seq<RenameStep>,
    complaints: Seq<Option<Seq<char>>>,
    outcomes: Seq<RenameOutcome>,
    k: int,
)
    requires
        batch_run(files, candidates, steps, complaints, outcomes),
        forall|i: int|
            0 <= i < files.len() ==> task_name(#[trigger] files[i]) is Some && task_name(files[i])
                != Some(candidates[i]),
        0 <= k < files.len(),
        complaints[k] is Some,
        forall|i: int| 0 <= i < files.len() && i != k ==> (#[trigger] complaints[i]) is None,
    ensures
        forall|i: int| 0 <= i < files.len() ==> touches_disk((#[trigger] steps[i])@),
        forall|i: int|
            0 <= i < files.len() && i != k ==> (#[trigger] outcomes[i])@ == (
            RenameOutcomeView::Renamed {
                old_name: task_name(files[i])->0,
                new_name: candidates[i],
            }),
        failures_of(outcomes).len() == 1,
        failures_of(outcomes)[0]@ == (RenameErrorView::RenameFailed {
            path: files[k].path@,
            reason: complaints[k]->0,
        }),
{
    failures_of_one_failed(outcomes, k);
}

/// Where file `k` alone has no base name, the transform gives every other
/// file a name other than its own and the operating system accepts every
/// rename, no rename is asked for file `k`, every other file ends renamed,
/// and the batch has exactly one failure: the invalid path of file `k`.
pub proof fn rejected_path_is_the_only_failure(
    files: Seq<FileTask>,
    candidates: Seq<Seq<char>>,
    steps: Seq<RenameStep>,
    complaints: Seq<Option<Seq<char>>>,
    outcomes: Seq<RenameOutcome>,
    k: int,
)
    requires
        batch_run(files, candidates, steps, complaints, outcomes),
        0 <= k < files.len(),
        task_name(files[k]) is None,
        forall|i: int|
            0 <= i < files.len() && i != k ==> task_name(#[trigger] files[i]) is Some && task_name(
                files[i],
            ) != Some(candidates[i]),
        forall|i: int| 0 <= i < files.len() && i != k ==> (#[trigger] complaints[i]) is None,
    ensures
        !touches_disk(steps[k]@),
        forall|i: int| 0 <= i < files.len() && i != k ==> touches_disk((#[trigger] steps[i])@),
        forall|i: int|
            0 <= i < files.len() && i != k ==> (#[trigger] outcomes[i])@ == (
            RenameOutcomeView::Renamed {
                old_name: task_name(files[i])->0,
                new_name: candidates[i],
            }),
        failures_of(outcomes).len() == 1,
        failures_of(outcomes)[0]@ == (RenameErrorView::InvalidPath { path: files[k].path@ }),
{
    failures_of_one_failed(outcomes, k);
}

/// No failure is lost: the error of every file that failed stands among the
/// failures of the batch.
pub proof fn no_failure_is_lost(outcomes: Seq<RenameOutcome>, i: int)
    requires
        0 <= i < outcomes.len(),
        outcomes[i] is Failed,
    ensures
        failures_of(outcomes).contains(outcomes[i]->error),
    decreases outcomes.len(),
{
    let rest = outcomes.drop_last();
    if i == outcomes.len() - 1 {
        let last = failures_of(outcomes).len() - 1;
        assert(failures_of(outcomes)[last] == outcomes[i]->error);
    } else {
        no_failure_is_lost(rest, i);
        let j = choose|j: int| 0 <= j < failures_of(rest).len() && failures_of(rest)[j] == rest[i]->error;
        assert(failures_of(outcomes)[j] == outcomes[i]->error);
    }
}

/// Failures keep the order of the batch: those of one run of files followed
/// by another are the failures of the first followed by those of the
/// second.
pub proof fn failures_keep_order(first: Seq<RenameOutcome>, second: Seq<RenameOutcome>)
    ensures
        failures_of(first + second) == failures_of(first) + failures_of(second),
    decreases second.len(),
{
    if second.len() > 0 {
        failures_keep_order(first, second.drop_last());
        assert((first + second).drop_last() =~= first + second.drop_last());
    }
}

/// A batch has at most one failure for each of its files.
pub proof fn failures_are_bounded(outcomes: Seq<RenameOutcome>)
    ensures
        failures_of(outcomes).len() <= outcomes.len(),
    decreases outcomes.len(),
{
    if outcomes.len() > 0 {
        failures_are_bounded(outcomes.drop_last());
    }
}

/// The report on a single failure is its description, a colon and a space,
/// and the message for one error.
pub proof fn report_of_one_failure(description: Seq<char>)
    ensures
        combined_report(seq![description]) == description + ": 1 error(s) occurred"@,
{
    reveal_strlit(": 1 error(s) occurred");
    reveal_strlit(": ");
    reveal_strlit(" error(s) occurred");
    let reports = seq![description];
    assert(chained(reports.drop_last(), closing_message(1)) == closing_message(1));
}

} // verus!
