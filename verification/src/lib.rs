//! Batch file renaming by base-name transformation: the rules that decide
//! what each file is called afterwards, and how the outcomes of one batch
//! are gathered into a single result.

pub mod batch;
pub mod fold;
pub mod language;
pub mod rename;
pub mod translate;
