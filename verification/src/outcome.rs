//! What the analysis engine hands back, and what a run ends in.

use vstd::prelude::*;
use crate::paths::ValidationError;

verus! {

/// The contents of `lines`, line by line.
pub open spec fn texts(lines: Seq<String>) -> Seq<Seq<char>> {
    lines.map_values(|line: String| line@)
}

/// What the analysis engine returns when it succeeds.
#[derive(Clone, Debug, PartialEq, Eq)]
pub struct EngineReport {
    /// Remarks on what the engine skipped or could not match.
    pub warnings: Vec<String>,
    /// The report, to be stored as it is.
    pub payload: String,
}

/// An `EngineReport` as plain values.
pub struct ReportView {
    pub warnings: Seq<Seq<char>>,
    pub payload: Seq<char>,
}

impl View for EngineReport {
    type V = ReportView;

    open spec fn view(&self) -> ReportView {
        ReportView { warnings: texts(self.warnings@), payload: self.payload@ }
    }
}

/// How storing the report went.
#[derive(Clone, Copy, Debug, PartialEq, Eq, Structural)]
pub enum PersistResult {
    /// The file was created and holds the whole report.
    Saved,
    /// The file could not be created.
    CreateFailed,
    /// The file was created, but the report could not be written in full.
    WriteFailed,
}

/// The result of one run.
#[derive(Clone, Debug, PartialEq, Eq)]
pub enum RunOutcome {
    /// The engine ran and its report was stored.
    Success { warnings: Vec<String>, status_text: String },
    /// A demand on a location was unmet; the engine was not called.
    ValidationFailure { message: String },
    /// The engine failed.
    EngineFailure,
    /// The engine succeeded, but its report could not be stored.
    PersistenceFailure { message: String },
}

/// A `RunOutcome` as plain values.
pub enum OutcomeView {
    Success { warnings: Seq<Seq<char>>, status_text: Seq<char> },
    ValidationFailure { message: Seq<char> },
    EngineFailure,
    PersistenceFailure { message: Seq<char> },
}

impl View for RunOutcome {
    type V = OutcomeView;

    open spec fn view(&self) -> OutcomeView {
        match self {
            RunOutcome::Success { warnings, status_text } => OutcomeView::Success {
                warnings: texts(warnings@),
                status_text: status_text@,
            },
            RunOutcome::ValidationFailure { message } => OutcomeView::ValidationFailure {
                message: message@,
            },
            RunOutcome::EngineFailure => OutcomeView::EngineFailure,
            RunOutcome::PersistenceFailure { message } => OutcomeView::PersistenceFailure {
                message: message@,
            },
        }
    }
}

/// The status text of a run that stored its report.
pub open spec fn saved_text() -> Seq<char> {
    "Saved"@
}

/// The status text of a run whose engine failed.
pub open spec fn engine_failure_text() -> Seq<char> {
    "Error running qperf function"@
}

/// The message for a report file that could not be created.
pub open spec fn create_failure_text() -> Seq<char> {
    "Error creating output file"@
}

/// The message for a report that could not be written in full.
pub open spec fn write_failure_text() -> Seq<char> {
    "Error writing to output file"@
}

/// The outcome of a run that failed validation with `error`.
pub open spec fn rejected(error: ValidationError) -> OutcomeView {
    OutcomeView::ValidationFailure { message: error.text() }
}

/// The outcome of a run whose engine gave `warnings`, after storing the report
/// went as `result` says.
pub open spec fn persisted(result: PersistResult, warnings: Seq<Seq<char>>) -> OutcomeView {
    match result {
        PersistResult::Saved => OutcomeView::Success { warnings, status_text: saved_text() },
        PersistResult::CreateFailed => OutcomeView::PersistenceFailure {
            message: create_failure_text(),
        },
        PersistResult::WriteFailed => OutcomeView::PersistenceFailure {
            message: write_failure_text(),
        },
    }
}

/// The status line that an outcome is shown with.
pub open spec fn status_of(outcome: OutcomeView) -> Seq<char> {
    match outcome {
        OutcomeView::Success { warnings, status_text } => status_text,
        OutcomeView::ValidationFailure { message } => message,
        OutcomeView::EngineFailure => engine_failure_text(),
        OutcomeView::PersistenceFailure { message } => message,
    }
}

/// The warnings that an outcome is shown with: those of the engine after a
/// success, none otherwise.
pub open spec fn warnings_of(outcome: OutcomeView) -> Seq<Seq<char>> {
    match outcome {
        OutcomeView::Success { warnings, status_text } => warnings,
        _ => Seq::empty(),
    }
}

impl RunOutcome {
    /// The outcome of a run that failed validation with `error`.
    pub fn validation_failure(error: ValidationError) -> (outcome: RunOutcome)
        ensures
            outcome@ == rejected(error),
    {
        RunOutcome::ValidationFailure { message: error.message() }
    }

    /// The outcome of a run whose engine gave `warnings`, once storing the
    /// report has gone as `result` says. The warnings are kept only where the
    /// report was saved.
    pub fn after_persisting(result: PersistResult, warnings: Vec<String>) -> (outcome: RunOutcome)
        ensures
            outcome@ == persisted(result, texts(warnings@)),
    {
        match result {
            PersistResult::Saved => RunOutcome::Success {
                warnings,
                status_text: "Saved".to_owned(),
            },
            PersistResult::CreateFailed => RunOutcome::PersistenceFailure {
                message: "Error creating output file".to_owned(),
            },
            PersistResult::WriteFailed => RunOutcome::PersistenceFailure {
                message: "Error writing to output file".to_owned(),
            },
        }
    }

    /// The status line to show for the outcome.
    pub fn status_line(&self) -> (line: String)
        ensures
            line@ == status_of(self@),
    {
        match self {
            RunOutcome::Success { warnings: _, status_text } => status_text.clone(),
            RunOutcome::ValidationFailure { message } => message.clone(),
            RunOutcome::EngineFailure => "Error running qperf function".to_owned(),
            RunOutcome::PersistenceFailure { message } => message.clone(),
        }
    }

    /// The warnings to show for the outcome, which replace those of any
    /// earlier run.
    pub fn into_warnings(self) -> (warnings: Vec<String>)
        ensures
            texts(warnings@) == warnings_of(self@),
    {
        match self {
            RunOutcome::Success { warnings, status_text: _ } => warnings,
            _ => {
                let none: Vec<String> = Vec::new();
                assert(texts(none@) =~= Seq::<Seq<char>>::empty());
                none
            },
        }
    }
}

} // verus!
