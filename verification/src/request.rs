//! What a run is asked to do, and what it hands to the analysis engine.

use vstd::prelude::*;
use crate::codes::{
    chosen, in_fixed_order, letters_of, select_types, selection_keeps_the_fixed_order,
    type_letters, QuestionTypeCode, TypeToggles,
};

verus! {

/// What the caller collected for one run, before anything was checked.
#[derive(Clone, Debug, PartialEq, Eq)]
pub struct RunConfig {
    /// A document of question definitions, or a directory of them.
    pub question_source: String,
    /// The document of quiz-attempt records.
    pub records_file: String,
    /// Where the report is to be stored.
    pub output_destination: String,
    /// Which question types the report shall cover.
    pub toggles: TypeToggles,
}

/// A `RunConfig` as plain values.
pub struct ConfigView {
    pub question_source: Seq<char>,
    pub records_file: Seq<char>,
    pub output_destination: Seq<char>,
    pub toggles: Seq<bool>,
}

impl View for RunConfig {
    type V = ConfigView;

    open spec fn view(&self) -> ConfigView {
        ConfigView {
            question_source: self.question_source@,
            records_file: self.records_file@,
            output_destination: self.output_destination@,
            toggles: self.toggles@,
        }
    }
}

/// The input of a run whose locations have been checked.
#[derive(Clone, Debug, PartialEq, Eq)]
pub struct RunRequest {
    pub question_source: String,
    pub records_file: String,
    pub output_destination: String,
    /// The question types to report on, in the fixed order of the codes.
    pub selected_types: Vec<QuestionTypeCode>,
}

/// A `RunRequest` as plain values.
pub struct RequestView {
    pub question_source: Seq<char>,
    pub records_file: Seq<char>,
    pub output_destination: Seq<char>,
    pub selected_types: Seq<QuestionTypeCode>,
}

impl View for RunRequest {
    type V = RequestView;

    open spec fn view(&self) -> RequestView {
        RequestView {
            question_source: self.question_source@,
            records_file: self.records_file@,
            output_destination: self.output_destination@,
            selected_types: self.selected_types@,
        }
    }
}

/// The arguments of one call of the analysis engine.
#[derive(Clone, Debug, PartialEq, Eq)]
pub struct EngineCall {
    pub question_source: String,
    pub records_file: String,
    /// Whether the engine shall report in detail.
    pub detailed: bool,
    /// The characters of the question types to report on.
    pub type_codes: Vec<char>,
}

/// An `EngineCall` as plain values.
pub struct CallView {
    pub question_source: Seq<char>,
    pub records_file: Seq<char>,
    pub detailed: bool,
    pub type_codes: Seq<char>,
}

impl View for EngineCall {
    type V = CallView;

    open spec fn view(&self) -> CallView {
        CallView {
            question_source: self.question_source@,
            records_file: self.records_file@,
            detailed: self.detailed,
            type_codes: self.type_codes@,
        }
    }
}

/// The request that `config` becomes: the same three locations, and the codes
/// whose toggle is on.
pub open spec fn request_for(config: ConfigView) -> RequestView {
    RequestView {
        question_source: config.question_source,
        records_file: config.records_file,
        output_destination: config.output_destination,
        selected_types: chosen(config.toggles),
    }
}

/// The engine call that `request` leads to: its two input locations, no
/// detail, and the characters of its codes in the same order.
pub open spec fn call_for(request: RequestView) -> CallView {
    CallView {
        question_source: request.question_source,
        records_file: request.records_file,
        detailed: false,
        type_codes: letters_of(request.selected_types),
    }
}

impl RunRequest {
    /// Whether the selected codes stand in the fixed order of the codes, each
    /// at most once.
    pub open spec fn well_formed(&self) -> bool {
        in_fixed_order(self.selected_types@)
    }
}

impl RunConfig {
    /// Turns the toggles into codes and keeps the three locations.
    pub fn into_request(self) -> (request: RunRequest)
        ensures
            request@ == request_for(self@),
            request.well_formed(),
    {
        let selected_types = select_types(&self.toggles);
        proof {
            selection_keeps_the_fixed_order(self.toggles@);
        }
        RunRequest {
            question_source: self.question_source,
            records_file: self.records_file,
            output_destination: self.output_destination,
            selected_types,
        }
    }
}

impl RunRequest {
    /// The arguments with which the analysis engine is called for this
    /// request.
    pub fn engine_call(&self) -> (call: EngineCall)
        ensures
            call@ == call_for(self@),
    {
        EngineCall {
            question_source: self.question_source.clone(),
            records_file: self.records_file.clone(),
            detailed: false,
            type_codes: type_letters(&self.selected_types),
        }
    }
}

} // verus!
