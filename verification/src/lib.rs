//! Request validation, question-type selection and result assembly for a
//! quiz-performance report run.
//!
//! A run checks three file-system locations, turns nine toggles into an
//! ordered list of question-type codes, hands both to an analysis engine and
//! stores the engine's report. This library holds every decision of such a
//! run; looking at the file system, calling the engine and writing the report
//! are left to the caller, which feeds what it observed back as events.

pub mod codes;
pub mod outcome;
pub mod paths;
pub mod request;
pub mod run;
