//! Renaming by translation: what a file is to be called once the
//! translation service has answered, and the steps for a translated batch.

use crate::rename::{plan_rename, step_for, step_of, RenameError, RenameStep, RenameStepView};
use vstd::prelude::*;

verus! {

/// A file with the base name it has and the one it is to get.
#[derive(Debug, Clone, PartialEq, Eq)]
pub struct TransformResult {
    pub path: String,
    pub file_name: String,
    pub new_file_name: String,
}

/// The given texts, one after the other.
pub open spec fn joined(parts: Seq<String>) -> Seq<char>
    decreases parts.len(),
{
    if parts.len() == 0 {
        Seq::empty()
    } else {
        joined(parts.drop_last()) + parts.last()@
    }
}

/// The name that a file called `file_name` gets from the service's answer:
/// the translated texts one after the other, or, where the service failed,
/// the name it has.
pub open spec fn translated_text(
    file_name: Seq<char>,
    response: Result<Vec<String>, String>,
) -> Seq<char> {
    match response {
        Ok(parts) => joined(parts@),
        Err(_) => file_name,
    }
}

/// The new base name of a file called `file_name`, given the service's
/// answer. A failed translation is no failure of the file: it keeps its
/// name.
pub fn translated_name(file_name: &str, response: Result<Vec<String>, String>) -> (r: String)
    ensures
        r@ == translated_text(file_name@, response),
{
    match response {
        Ok(parts) => {
            let mut text = String::new();
            let mut i: usize = 0;
            while i < parts.len()
                invariant
                    i <= parts.len(),
                    text@ == joined(parts@.take(i as int)),
                decreases parts.len() - i,
            {
                text.append(parts[i].as_str());
                assert(parts@.take(i + 1).drop_last() == parts@.take(i as int));
                i += 1;
            }
            assert(parts@.take(parts@.len() as int) == parts@);
            text
        },
        Err(_) => file_name.to_owned(),
    }
}

/// The file at `path` with its present and its translated base name.
/// `file_name` is the base name, or `None` where the path has none: such a
/// path is rejected, whatever the service answered.
pub fn translate(path: String, file_name: Option<&str>, response: Result<Vec<String>, String>) -> (r:
    Result<TransformResult, RenameError>)
    ensures
        match file_name {
            None => r == Err::<TransformResult, RenameError>(RenameError::InvalidPath { path }),
            Some(name) => r is Ok && r->Ok_0.path == path && r->Ok_0.file_name@ == name@
                && r->Ok_0.new_file_name@ == translated_text(name@, response),
        },
{
    match file_name {
        None => Err(RenameError::InvalidPath { path }),
        Some(name) => {
            let new_file_name = translated_name(name, response);
            Ok(TransformResult { path, file_name: name.to_owned(), new_file_name })
        },
    }
}

/// The step for one file of a translated batch: a rejection where the
/// file was rejected, and otherwise a rename exactly where the translated
/// name differs from the present one.
pub open spec fn translated_step(translated: Result<TransformResult, RenameError>) -> RenameStepView {
    match translated {
        Ok(result) => step_for(result.file_name@, result.new_file_name@),
        Err(error) => RenameStepView::Reject { error: error@ },
    }
}

/// The steps for a translated batch, one for each file and in the order of
/// the batch. A rejected file gets its rejection and holds up no other
/// file: every other file gets the step that its translated name asks for.
pub fn transform_files(translated: Vec<Result<TransformResult, RenameError>>) -> (steps: Vec<
    RenameStep,
>)
    ensures
        steps.len() == translated.len(),
        forall|i: int|
            0 <= i < steps.len() ==> (#[trigger] steps[i])@ == translated_step(translated[i]),
{
    let mut steps: Vec<RenameStep> = Vec::new();
    for result in it: translated
        invariant
            it.seq() == translated@,
            steps.len() == it.index(),
            forall|i: int|
                0 <= i < steps.len() ==> (#[trigger] steps[i])@ == translated_step(translated[i]),
    {
        let step = match result {
            Ok(TransformResult { path: _, file_name, new_file_name }) => plan_rename(
                file_name.as_str(),
                new_file_name,
            ),
            Err(error) => RenameStep::Reject { error },
        };
        steps.push(step);
    }
    steps
}

/// The step for a translated file is the step of its path under the
/// translated name: a rejection for a path without a base name, and
/// otherwise a rename exactly where the translated name differs.
pub proof fn translated_step_is_step_of(path: String, result: TransformResult)
    ensures
        translated_step(Err(RenameError::InvalidPath { path })) == step_of(
            path@,
            None,
            Seq::empty(),
        ),
        translated_step(Ok(result)) == step_of(
            result.path@,
            Some(result.file_name@),
            result.new_file_name@,
        ),
{
}

} // verus!
