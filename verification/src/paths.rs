//! What a run demands of its three file-system locations.

use vstd::prelude::*;

verus! {

/// What was found at a file-system location.
///
/// A location that could not be examined, for want of permission or for any
/// other reason, counts as `Missing`.
#[derive(Clone, Copy, Debug, PartialEq, Eq, Structural)]
pub enum PathKind {
    /// Nothing is there.
    Missing,
    /// A regular file is there.
    RegularFile,
    /// Something else is there, such as a directory.
    Other,
}

impl PathKind {
    /// Whether anything is at the location.
    pub open spec fn is_present(self) -> bool {
        self != PathKind::Missing
    }

    /// Whether a regular file is at the location.
    pub open spec fn is_regular_file(self) -> bool {
        self == PathKind::RegularFile
    }

    /// Whether anything is at the location.
    pub fn found(self) -> (b: bool)
        ensures
            b == self.is_present(),
    {
        match self {
            PathKind::Missing => false,
            _ => true,
        }
    }

    /// Whether a regular file is at the location.
    pub fn is_file(self) -> (b: bool)
        ensures
            b == self.is_regular_file(),
    {
        match self {
            PathKind::RegularFile => true,
            _ => false,
        }
    }
}

/// The demand on a location that a run found unmet.
#[derive(Clone, Copy, Debug, PartialEq, Eq, Structural)]
pub enum ValidationError {
    /// Nothing is at the question source.
    QuestionSourceMissing,
    /// No regular file is at the records location.
    RecordsFileMissing,
    /// Something is already at the output destination.
    OutputExists,
}

impl ValidationError {
    /// The message shown for the error.
    pub open spec fn text(self) -> Seq<char> {
        match self {
            ValidationError::QuestionSourceMissing => "Question set location does not exist."@,
            ValidationError::RecordsFileMissing => "QuizMachine records file does not exist."@,
            ValidationError::OutputExists =>
                "Output file already exists. Choose a different file name."@,
        }
    }

    /// The message shown for the error.
    pub fn message(self) -> (m: String)
        ensures
            m@ == self.text(),
    {
        match self {
            ValidationError::QuestionSourceMissing => {
                "Question set location does not exist.".to_owned()
            },
            ValidationError::RecordsFileMissing => {
                "QuizMachine records file does not exist.".to_owned()
            },
            ValidationError::OutputExists => {
                "Output file already exists. Choose a different file name.".to_owned()
            },
        }
    }
}

/// The first unmet demand, taken in the order question source, records file,
/// output destination; `Ok` where all three are met.
pub open spec fn verdict(question: PathKind, records: PathKind, output: PathKind) -> Result<
    (),
    ValidationError,
> {
    if !question.is_present() {
        Err(ValidationError::QuestionSourceMissing)
    } else if !records.is_regular_file() {
        Err(ValidationError::RecordsFileMissing)
    } else if output.is_present() {
        Err(ValidationError::OutputExists)
    } else {
        Ok(())
    }
}

/// Checks what was found at the three locations of a run and names the first
/// unmet demand.
pub fn validate(question: PathKind, records: PathKind, output: PathKind) -> (r: Result<
    (),
    ValidationError,
>)
    ensures
        r == verdict(question, records, output),
{
    if !question.found() {
        Err(ValidationError::QuestionSourceMissing)
    } else if !records.is_file() {
        Err(ValidationError::RecordsFileMissing)
    } else if output.found() {
        Err(ValidationError::OutputExists)
    } else {
        Ok(())
    }
}

/// The order of the checks is fixed. A missing question source is reported
/// whatever is at the other two locations; a records location without a
/// regular file is reported whatever is at the output destination; and an
/// occupied output destination is reported only where the two other demands
/// are met.
pub proof fn earlier_failures_are_never_masked(
    question: PathKind,
    records: PathKind,
    output: PathKind,
)
    ensures
        !question.is_present() <==> verdict(question, records, output) == Err::<(), ValidationError>(
            ValidationError::QuestionSourceMissing,
        ),
        (question.is_present() && !records.is_regular_file()) <==> verdict(question, records, output)
            == Err::<(), ValidationError>(ValidationError::RecordsFileMissing),
        (question.is_present() && records.is_regular_file() && output.is_present()) <==> verdict(
            question,
            records,
            output,
        ) == Err::<(), ValidationError>(ValidationError::OutputExists),
        (question.is_present() && records.is_regular_file() && !output.is_present()) <==> verdict(
            question,
            records,
            output,
        ) is Ok,
{
}

} // verus!
