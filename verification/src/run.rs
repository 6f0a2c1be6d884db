//! The course of one run, as a state machine.
//!
//! The machine decides; its caller acts. After each step the caller performs
//! the action that the step returned and hands back what came of it as the
//! next event, until the action is `Finish`.

use vstd::prelude::*;
use crate::outcome::{
    persisted, rejected, texts, EngineReport, OutcomeView, PersistResult, ReportView, RunOutcome,
};
use crate::paths::{verdict, PathKind, ValidationError};
use crate::request::{
    call_for, request_for, CallView, ConfigView, EngineCall, RequestView, RunConfig, RunRequest,
};

verus! {

/// One of the three locations that a run checks, in the order of checking.
#[derive(Clone, Copy, Debug, PartialEq, Eq, Structural)]
pub enum PathCheck {
    QuestionSource,
    RecordsFile,
    OutputDestination,
}

/// Where a run stands.
///
/// The codes are selected in the step that leaves `Validating` for
/// `Invoking`, which needs nothing from outside.
#[derive(Clone, Debug, PartialEq, Eq)]
pub enum RunState {
    /// Nothing has happened yet.
    Idle { config: RunConfig },
    /// The run waits to learn what is at the location that `check` names.
    Validating { config: RunConfig, check: PathCheck },
    /// The run waits for the analysis engine.
    Invoking { request: RunRequest },
    /// The run waits for the report to be stored.
    Persisting { warnings: Vec<String> },
    /// The run is over.
    Done { outcome: RunOutcome },
}

/// A `RunState` as plain values.
pub enum StateView {
    Idle { config: ConfigView },
    Validating { config: ConfigView, check: PathCheck },
    Invoking { request: RequestView },
    Persisting { warnings: Seq<Seq<char>> },
    Done { outcome: OutcomeView },
}

impl View for RunState {
    type V = StateView;

    open spec fn view(&self) -> StateView {
        match self {
            RunState::Idle { config } => StateView::Idle { config: config@ },
            RunState::Validating { config, check } => StateView::Validating {
                config: config@,
                check: *check,
            },
            RunState::Invoking { request } => StateView::Invoking { request: request@ },
            RunState::Persisting { warnings } => StateView::Persisting {
                warnings: texts(warnings@),
            },
            RunState::Done { outcome } => StateView::Done { outcome: outcome@ },
        }
    }
}

/// What the caller reports to the run.
#[derive(Clone, Debug, PartialEq, Eq)]
pub enum RunEvent {
    /// The run is to begin.
    Started,
    /// The location that the run asked about was examined.
    Probed { found: PathKind },
    /// The analysis engine returned a report.
    EngineSucceeded { report: EngineReport },
    /// The analysis engine failed.
    EngineFailed,
    /// The attempt to store the report is over.
    Persisted { result: PersistResult },
}

/// A `RunEvent` as plain values.
pub enum EventView {
    Started,
    Probed { found: PathKind },
    EngineSucceeded { report: ReportView },
    EngineFailed,
    Persisted { result: PersistResult },
}

impl View for RunEvent {
    type V = EventView;

    open spec fn view(&self) -> EventView {
        match self {
            RunEvent::Started => EventView::Started,
            RunEvent::Probed { found } => EventView::Probed { found: *found },
            RunEvent::EngineSucceeded { report } => EventView::EngineSucceeded { report: report@ },
            RunEvent::EngineFailed => EventView::EngineFailed,
            RunEvent::Persisted { result } => EventView::Persisted { result: *result },
        }
    }
}

/// What the run asks of its caller.
#[derive(Clone, Debug, PartialEq, Eq)]
pub enum RunAction {
    /// Examine the location `path` and report `Probed`.
    Probe { path: String },
    /// Call the analysis engine with `call` and report `EngineSucceeded` or
    /// `EngineFailed`.
    Invoke { call: EngineCall },
    /// Create the file `path`, write `payload` to it and nothing else, and
    /// report `Persisted`.
    Persist { path: String, payload: String },
    /// The run is over; its outcome is in the state.
    Finish,
    /// The event did not answer what the run waits for, and changed nothing.
    Nothing,
}

/// A `RunAction` as plain values.
pub enum ActionView {
    Probe { path: Seq<char> },
    Invoke { call: CallView },
    Persist { path: Seq<char>, payload: Seq<char> },
    Finish,
    Nothing,
}

impl View for RunAction {
    type V = ActionView;

    open spec fn view(&self) -> ActionView {
        match self {
            RunAction::Probe { path } => ActionView::Probe { path: path@ },
            RunAction::Invoke { call } => ActionView::Invoke { call: call@ },
            RunAction::Persist { path, payload } => ActionView::Persist {
                path: path@,
                payload: payload@,
            },
            RunAction::Finish => ActionView::Finish,
            RunAction::Nothing => ActionView::Nothing,
        }
    }
}

/// The end of a run that failed validation with `error`.
pub open spec fn halted(error: ValidationError) -> (StateView, ActionView) {
    (StateView::Done { outcome: rejected(error) }, ActionView::Finish)
}

/// What follows when the location that `check` names was found to hold
/// `found`: the next check, the engine call after the last one, or the end of
/// the run with the demand that is unmet.
pub open spec fn after_probe(config: ConfigView, check: PathCheck, found: PathKind) -> (
    StateView,
    ActionView,
) {
    match check {
        PathCheck::QuestionSource => if found.is_present() {
            (
                StateView::Validating { config, check: PathCheck::RecordsFile },
                ActionView::Probe { path: config.records_file },
            )
        } else {
            halted(ValidationError::QuestionSourceMissing)
        },
        PathCheck::RecordsFile => if found.is_regular_file() {
            (
                StateView::Validating { config, check: PathCheck::OutputDestination },
                ActionView::Probe { path: config.output_destination },
            )
        } else {
            halted(ValidationError::RecordsFileMissing)
        },
        PathCheck::OutputDestination => if found.is_present() {
            halted(ValidationError::OutputExists)
        } else {
            (
                StateView::Invoking { request: request_for(config) },
                ActionView::Invoke { call: call_for(request_for(config)) },
            )
        },
    }
}

/// The state that follows `state` on `event`, and the action that the caller
/// owes next. An event that does not answer what `state` waits for leaves the
/// state as it is; a run that is over stays over.
pub open spec fn advance(state: StateView, event: EventView) -> (StateView, ActionView) {
    match (state, event) {
        (StateView::Idle { config }, EventView::Started) => (
            StateView::Validating { config, check: PathCheck::QuestionSource },
            ActionView::Probe { path: config.question_source },
        ),
        (StateView::Validating { config, check }, EventView::Probed { found }) => after_probe(
            config,
            check,
            found,
        ),
        (StateView::Invoking { request }, EventView::EngineSucceeded { report }) => (
            StateView::Persisting { warnings: report.warnings },
            ActionView::Persist { path: request.output_destination, payload: report.payload },
        ),
        (StateView::Invoking { request }, EventView::EngineFailed) => (
            StateView::Done { outcome: OutcomeView::EngineFailure },
            ActionView::Finish,
        ),
        (StateView::Persisting { warnings }, EventView::Persisted { result }) => (
            StateView::Done { outcome: persisted(result, warnings) },
            ActionView::Finish,
        ),
        (StateView::Done { outcome }, _) => (state, ActionView::Finish),
        _ => (state, ActionView::Nothing),
    }
}

fn halt(error: ValidationError) -> (next: (RunState, RunAction))
    ensures
        (next.0@, next.1@) == halted(error),
{
    (RunState::Done { outcome: RunOutcome::validation_failure(error) }, RunAction::Finish)
}

fn step_validating(config: RunConfig, check: PathCheck, found: PathKind) -> (next: (
    RunState,
    RunAction,
))
    ensures
        (next.0@, next.1@) == after_probe(config@, check, found),
{
    match check {
        PathCheck::QuestionSource => {
            if found.found() {
                let path = config.records_file.clone();
                (
                    RunState::Validating { config, check: PathCheck::RecordsFile },
                    RunAction::Probe { path },
                )
            } else {
                halt(ValidationError::QuestionSourceMissing)
            }
        },
        PathCheck::RecordsFile => {
            if found.is_file() {
                let path = config.output_destination.clone();
                (
                    RunState::Validating { config, check: PathCheck::OutputDestination },
                    RunAction::Probe { path },
                )
            } else {
                halt(ValidationError::RecordsFileMissing)
            }
        },
        PathCheck::OutputDestination => {
            if found.found() {
                halt(ValidationError::OutputExists)
            } else {
                let request = config.into_request();
                let call = request.engine_call();
                (RunState::Invoking { request }, RunAction::Invoke { call })
            }
        },
    }
}

/// Takes the run one step on: from `state`, on `event`, to the next state and
/// the action that the caller is to perform.
pub fn step(state: RunState, event: RunEvent) -> (next: (RunState, RunAction))
    ensures
        (next.0@, next.1@) == advance(state@, event@),
{
    match state {
        RunState::Idle { config } => match event {
            RunEvent::Started => {
                let path = config.question_source.clone();
                (
                    RunState::Validating { config, check: PathCheck::QuestionSource },
                    RunAction::Probe { path },
                )
            },
            _ => (RunState::Idle { config }, RunAction::Nothing),
        },
        RunState::Validating { config, check } => match event {
            RunEvent::Probed { found } => step_validating(config, check, found),
            _ => (RunState::Validating { config, check }, RunAction::Nothing),
        },
        RunState::Invoking { request } => match event {
            RunEvent::EngineSucceeded { report } => (
                RunState::Persisting { warnings: report.warnings },
                RunAction::Persist { path: request.output_destination, payload: report.payload },
            ),
            RunEvent::EngineFailed => (
                RunState::Done { outcome: RunOutcome::EngineFailure },
                RunAction::Finish,
            ),
            _ => (RunState::Invoking { request }, RunAction::Nothing),
        },
        RunState::Persisting { warnings } => match event {
            RunEvent::Persisted { result } => (
                RunState::Done { outcome: RunOutcome::after_persisting(result, warnings) },
                RunAction::Finish,
            ),
            _ => (RunState::Persisting { warnings }, RunAction::Nothing),
        },
        RunState::Done { outcome } => (RunState::Done { outcome }, RunAction::Finish),
    }
}

/// The state in which a run that began in `start` stands after `events`.
pub open spec fn state_after(start: StateView, events: Seq<EventView>) -> StateView
    decreases events.len(),
{
    if events.len() == 0 {
        start
    } else {
        advance(state_after(start, events.drop_last()), events.last()).0
    }
}

/// The action that the last of `events` led to, in a run that began in
/// `start`.
pub open spec fn last_action(start: StateView, events: Seq<EventView>) -> ActionView
    recommends
        events.len() > 0,
{
    advance(state_after(start, events.drop_last()), events.last()).1
}

/// Whether, somewhere in `events`, the run for `config` asked what is at the
/// output destination and learned that nothing is.
pub open spec fn found_destination_empty(config: ConfigView, events: Seq<EventView>) -> bool {
    exists|k: int|
        0 <= k < events.len() && #[trigger] state_after(
            StateView::Idle { config },
            events.take(k),
        ) == (StateView::Validating { config, check: PathCheck::OutputDestination }) && events[k]
            == (EventView::Probed { found: PathKind::Missing })
}

/// The outcome that is due when the three locations hold `question`,
/// `records` and `output`, the engine returns `engine` (`None` for a failure)
/// and storing the report goes as `stored` says. Only the first unmet demand
/// counts; without one, the engine's answer decides, and `stored` only after
/// a report.
pub open spec fn due_outcome(
    question: PathKind,
    records: PathKind,
    output: PathKind,
    engine: Option<ReportView>,
    stored: PersistResult,
) -> OutcomeView {
    match verdict(question, records, output) {
        Err(error) => rejected(error),
        Ok(_) => match engine {
            None => OutcomeView::EngineFailure,
            Some(report) => persisted(stored, report.warnings),
        },
    }
}

/// The event by which the caller reports what the engine returned.
pub open spec fn engine_event(engine: Option<ReportView>) -> EventView {
    match engine {
        None => EventView::EngineFailed,
        Some(report) => EventView::EngineSucceeded { report },
    }
}

proof fn lemma_course(config: ConfigView, events: Seq<EventView>)
    ensures
        match state_after(StateView::Idle { config }, events) {
            StateView::Idle { config: kept } => kept == config,
            StateView::Validating { config: kept, check } => kept == config,
            StateView::Invoking { request } => request == request_for(config)
                && found_destination_empty(config, events),
            StateView::Persisting { warnings } => found_destination_empty(config, events),
            StateView::Done { outcome } => true,
        },
    decreases events.len(),
{
    if events.len() > 0 {
        let start = StateView::Idle { config };
        let before = events.drop_last();
        lemma_course(config, before);
        let earlier = state_after(start, before);
        if found_destination_empty(config, before) {
            let k = choose|k: int|
                0 <= k < before.len() && #[trigger] state_after(start, before.take(k)) == (
                StateView::Validating { config, check: PathCheck::OutputDestination }) && before[k]
                    == (EventView::Probed { found: PathKind::Missing });
            assert(events.take(k) == before.take(k));
            assert(events[k] == before[k]);
            assert(found_destination_empty(config, events));
        }
        if earlier == (StateView::Validating { config, check: PathCheck::OutputDestination })
            && events.last() == (EventView::Probed { found: PathKind::Missing }) {
            let k: int = events.len() - 1;
            assert(events.take(k) == before);
            assert(found_destination_empty(config, events));
        }
    }
}

/// The three checks are made in a fixed order, each only after the one before
/// it was passed, and the phase ends as the verdict on the three findings
/// says: in the failure of the first unmet demand, or in the call of the
/// engine with the two input locations, no detail and the selected codes.
pub proof fn validation_follows_the_verdict(
    config: ConfigView,
    question: PathKind,
    records: PathKind,
    output: PathKind,
)
    ensures
        ({
            let first = advance(StateView::Idle { config }, EventView::Started);
            let second = advance(first.0, EventView::Probed { found: question });
            let third = advance(second.0, EventView::Probed { found: records });
            let fourth = advance(third.0, EventView::Probed { found: output });
            &&& first.1 == (ActionView::Probe { path: config.question_source })
            &&& second.1 == (ActionView::Probe { path: config.records_file })
                <==> question.is_present()
            &&& !question.is_present() ==> second == halted(ValidationError::QuestionSourceMissing)
            &&& third.1 == (ActionView::Probe { path: config.output_destination }) <==> (
            question.is_present() && records.is_regular_file())
            &&& match verdict(question, records, output) {
                Err(error) => fourth.0 == (StateView::Done { outcome: rejected(error) }),
                Ok(_) => fourth == (
                    StateView::Invoking { request: request_for(config) },
                    ActionView::Invoke { call: call_for(request_for(config)) },
                ),
            }
        }),
{
}

/// Validating again while nothing has changed gives the same result. What
/// validation arrives at depends on what was found at the three locations
/// and on nothing else: two runs that find the same, whatever their
/// configurations, both fail with the same message or both go on to the
/// engine. Nothing of an earlier run is kept.
pub proof fn validation_depends_on_the_findings_alone(
    one: ConfigView,
    other: ConfigView,
    question: PathKind,
    records: PathKind,
    output: PathKind,
)
    ensures
        ({
            let findings = seq![
                EventView::Started,
                EventView::Probed { found: question },
                EventView::Probed { found: records },
                EventView::Probed { found: output },
            ];
            let here = state_after(StateView::Idle { config: one }, findings);
            let there = state_after(StateView::Idle { config: other }, findings);
            match verdict(question, records, output) {
                Err(error) => here == (StateView::Done { outcome: rejected(error) }) && there
                    == here,
                Ok(_) => here == (StateView::Invoking { request: request_for(one) }) && there == (
                StateView::Invoking { request: request_for(other) }),
            }
        }),
{
    let findings = seq![
        EventView::Started,
        EventView::Probed { found: question },
        EventView::Probed { found: records },
        EventView::Probed { found: output },
    ];
    lemma_four_steps(StateView::Idle { config: one }, findings);
    lemma_four_steps(StateView::Idle { config: other }, findings);
}

proof fn lemma_four_steps(start: StateView, events: Seq<EventView>)
    requires
        events.len() == 4,
    ensures
        state_after(start, events) == advance(
            advance(advance(advance(start, events[0]).0, events[1]).0, events[2]).0,
            events[3],
        ).0,
{
    let three = events.drop_last();
    let two = three.drop_last();
    let one = two.drop_last();
    assert(one.drop_last().len() == 0);
    assert(state_after(start, one.drop_last()) == start);
    assert(state_after(start, one) == advance(start, events[0]).0);
    assert(state_after(start, two) == advance(state_after(start, one), events[1]).0);
    assert(state_after(start, three) == advance(state_after(start, two), events[2]).0);
}

/// A run ends as its findings say. Whatever the configuration, once the
/// caller has reported what is at the three locations, what the engine
/// returned and how storing went, the run is over with the outcome that is
/// due; events that come after the end change nothing.
pub proof fn a_run_ends_as_its_findings_say(
    config: ConfigView,
    question: PathKind,
    records: PathKind,
    output: PathKind,
    engine: Option<ReportView>,
    stored: PersistResult,
)
    ensures
        ({
            let first = advance(StateView::Idle { config }, EventView::Started).0;
            let second = advance(first, EventView::Probed { found: question }).0;
            let third = advance(second, EventView::Probed { found: records }).0;
            let fourth = advance(third, EventView::Probed { found: output }).0;
            let fifth = advance(fourth, engine_event(engine)).0;
            let sixth = advance(fifth, EventView::Persisted { result: stored }).0;
            sixth == (StateView::Done {
                outcome: due_outcome(question, records, output, engine, stored),
            })
        }),
{
}

/// The report is stored only where nothing was in the way. Whatever events a
/// run receives, and in whatever order, it asks for the report to be stored
/// only at the output destination of its configuration, only after it has
/// asked what is there and learned that nothing is, and only in answer to the
/// engine's report, whose payload it passes on unchanged.
pub proof fn storing_follows_an_empty_destination(config: ConfigView, events: Seq<EventView>)
    requires
        events.len() > 0,
        last_action(StateView::Idle { config }, events) is Persist,
    ensures
        last_action(StateView::Idle { config }, events)->Persist_path == config.output_destination,
        found_destination_empty(config, events.drop_last()),
        events.last() is EngineSucceeded,
        last_action(StateView::Idle { config }, events)->Persist_payload
            == events.last()->EngineSucceeded_report.payload,
{
    lemma_course(config, events.drop_last());
}

/// The engine is called only after all three demands were found met: a run
/// that asks for the engine has just learned that nothing is at the output
/// destination, and it hands the engine the two input locations, no detail
/// and the selected codes of its configuration.
pub proof fn the_engine_is_called_after_validation(config: ConfigView, events: Seq<EventView>)
    requires
        events.len() > 0,
        last_action(StateView::Idle { config }, events) is Invoke,
    ensures
        last_action(StateView::Idle { config }, events)->Invoke_call == call_for(
            request_for(config),
        ),
        state_after(StateView::Idle { config }, events.drop_last()) == (StateView::Validating {
            config,
            check: PathCheck::OutputDestination,
        }),
        events.last() == (EventView::Probed { found: PathKind::Missing }),
{
    lemma_course(config, events.drop_last());
}

/// A run that ends in success surfaces the warnings of the engine's report as
/// they are, and a run that is over stays over with the same outcome.
pub proof fn success_carries_the_engine_warnings(
    request: RequestView,
    report: ReportView,
    later: EventView,
)
    ensures
        ({
            let persisting = advance(
                StateView::Invoking { request },
                EventView::EngineSucceeded { report },
            ).0;
            let done = advance(persisting, EventView::Persisted { result: PersistResult::Saved }).0;
            &&& done == (StateView::Done {
                outcome: OutcomeView::Success {
                    warnings: report.warnings,
                    status_text: crate::outcome::saved_text(),
                },
            })
            &&& advance(done, later) == (done, ActionView::Finish)
        }),
{
}

} // verus!
