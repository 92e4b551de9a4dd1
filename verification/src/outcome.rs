//! The course of one invocation and the number that reports how it ended.
//!
//! An invocation passes through six steps in a fixed order. A step that
//! fails ends the invocation with the kind of error that belongs to that
//! step; the last step, verification, ends it with a verdict.

use vstd::prelude::*;

verus! {

/// Why an invocation failed.
#[derive(Clone, Copy, Debug, PartialEq, Eq, Structural)]
pub enum ErrorKind {
    /// The circuit's artifacts are malformed or do not belong together.
    CircuitLoad,
    /// A value could not be taken over from the caller.
    Marshal,
    /// No witness satisfies the constraints for the given inputs.
    Witness,
    /// No key pair could be generated for the constraint system.
    Setup,
    /// The prover failed.
    Prove,
    /// Key, proof and public inputs do not fit together.
    Verify,
}

/// How far an invocation has come.
#[derive(Clone, Copy, Debug, PartialEq, Eq, Structural)]
pub enum Stage {
    Uninitialized,
    InputsNormalized,
    CircuitLoaded,
    WitnessBuilt,
    ParametersGenerated,
    Proved,
    Verified(bool),
    Failed(ErrorKind),
}

/// How the step that an invocation is about to take turned out.
#[derive(Clone, Copy, Debug, PartialEq, Eq, Structural)]
pub enum Event {
    /// The step was carried out.
    Done,
    /// The step failed.
    Failure,
    /// The verifier was carried out and accepted the proof, or did not.
    Verdict(bool),
}

/// Whether `stage` ends an invocation.
pub open spec fn is_terminal(stage: Stage) -> bool {
    stage is Verified || stage is Failed
}

/// The kind of error that a failure of the step leaving `stage` has.
pub open spec fn failure_at(stage: Stage) -> ErrorKind
    recommends
        !is_terminal(stage),
{
    match stage {
        Stage::Uninitialized => ErrorKind::Marshal,
        Stage::InputsNormalized => ErrorKind::CircuitLoad,
        Stage::CircuitLoaded => ErrorKind::Witness,
        Stage::WitnessBuilt => ErrorKind::Setup,
        Stage::ParametersGenerated => ErrorKind::Prove,
        _ => ErrorKind::Verify,
    }
}

/// The stage that follows `stage` on `event`.
///
/// A failure leads from every stage that is not terminal to `Failed`, with
/// the error kind of the step that failed. A verdict counts only after the
/// proof was made, `Done` only before. An event that does not fit the stage
/// leaves it as it is, and so does every event in a terminal stage.
pub open spec fn next_stage(stage: Stage, event: Event) -> Stage {
    if is_terminal(stage) {
        stage
    } else {
        match event {
            Event::Failure => Stage::Failed(failure_at(stage)),
            Event::Done => match stage {
                Stage::Uninitialized => Stage::InputsNormalized,
                Stage::InputsNormalized => Stage::CircuitLoaded,
                Stage::CircuitLoaded => Stage::WitnessBuilt,
                Stage::WitnessBuilt => Stage::ParametersGenerated,
                Stage::ParametersGenerated => Stage::Proved,
                _ => stage,
            },
            Event::Verdict(valid) => match stage {
                Stage::Proved => Stage::Verified(valid),
                _ => stage,
            },
        }
    }
}

/// The stage reached from `stage` by the events of `trace`, one after the
/// other.
pub open spec fn run_from(stage: Stage, trace: Seq<Event>) -> Stage
    decreases trace.len(),
{
    if trace.len() == 0 {
        stage
    } else {
        next_stage(run_from(stage, trace.drop_last()), trace.last())
    }
}

/// Takes the invocation from `stage` to the stage that follows on `event`.
pub fn advance(stage: Stage, event: Event) -> (next: Stage)
    ensures
        next == next_stage(stage, event),
{
    match stage {
        Stage::Verified(_) | Stage::Failed(_) => stage,
        Stage::Uninitialized => match event {
            Event::Done => Stage::InputsNormalized,
            Event::Failure => Stage::Failed(ErrorKind::Marshal),
            Event::Verdict(_) => stage,
        },
        Stage::InputsNormalized => match event {
            Event::Done => Stage::CircuitLoaded,
            Event::Failure => Stage::Failed(ErrorKind::CircuitLoad),
            Event::Verdict(_) => stage,
        },
        Stage::CircuitLoaded => match event {
            Event::Done => Stage::WitnessBuilt,
            Event::Failure => Stage::Failed(ErrorKind::Witness),
            Event::Verdict(_) => stage,
        },
        Stage::WitnessBuilt => match event {
            Event::Done => Stage::ParametersGenerated,
            Event::Failure => Stage::Failed(ErrorKind::Setup),
            Event::Verdict(_) => stage,
        },
        Stage::ParametersGenerated => match event {
            Event::Done => Stage::Proved,
            Event::Failure => Stage::Failed(ErrorKind::Prove),
            Event::Verdict(_) => stage,
        },
        Stage::Proved => match event {
            Event::Done => stage,
            Event::Failure => Stage::Failed(ErrorKind::Verify),
            Event::Verdict(valid) => Stage::Verified(valid),
        },
    }
}

/// Once an invocation has ended, nothing moves it: whatever events follow,
/// the stage stays.
pub proof fn lemma_terminal_stage_stays(stage: Stage, trace: Seq<Event>)
    requires
        is_terminal(stage),
    ensures
        run_from(stage, trace) == stage,
    decreases trace.len(),
{
    if trace.len() > 0 {
        lemma_terminal_stage_stays(stage, trace.drop_last());
    }
}

/// There is no retry: an invocation that has failed stays failed with the
/// same kind of error, whatever step is attempted next.
pub proof fn lemma_failure_is_final(kind: ErrorKind, event: Event)
    ensures
        next_stage(Stage::Failed(kind), event) == Stage::Failed(kind),
{
}

/// A proof is accepted only at the end of a run in which every step was
/// carried out: the one trace of six events that leads from the start to
/// `Verified(true)` is five times `Done` and then the verdict `true`.
pub proof fn lemma_accepted_run(trace: Seq<Event>)
    requires
        trace.len() == 6,
        run_from(Stage::Uninitialized, trace) == Stage::Verified(true),
    ensures
        trace == seq![
            Event::Done,
            Event::Done,
            Event::Done,
            Event::Done,
            Event::Done,
            Event::Verdict(true),
        ],
{
    let t5 = trace.drop_last();
    let t4 = t5.drop_last();
    let t3 = t4.drop_last();
    let t2 = t3.drop_last();
    let t1 = t2.drop_last();
    let t0 = t1.drop_last();
    let s0 = run_from(Stage::Uninitialized, t0);
    let s1 = run_from(Stage::Uninitialized, t1);
    let s2 = run_from(Stage::Uninitialized, t2);
    let s3 = run_from(Stage::Uninitialized, t3);
    let s4 = run_from(Stage::Uninitialized, t4);
    let s5 = run_from(Stage::Uninitialized, t5);
    assert(s0 == Stage::Uninitialized);
    assert(s1 == next_stage(s0, t1.last()));
    assert(s2 == next_stage(s1, t2.last()));
    assert(s3 == next_stage(s2, t3.last()));
    assert(s4 == next_stage(s3, t4.last()));
    assert(s5 == next_stage(s4, t5.last()));
    assert(Stage::Verified(true) == next_stage(s5, trace.last()));
    assert(s5 == Stage::Proved);
    assert(s4 == Stage::ParametersGenerated);
    assert(s3 == Stage::WitnessBuilt);
    assert(s2 == Stage::CircuitLoaded);
    assert(s1 == Stage::InputsNormalized);
    assert(trace[0] == t1.last());
    assert(trace[1] == t2.last());
    assert(trace[2] == t3.last());
    assert(trace[3] == t4.last());
    assert(trace[4] == t5.last());
    assert(trace =~= seq![
        Event::Done,
        Event::Done,
        Event::Done,
        Event::Done,
        Event::Done,
        Event::Verdict(true),
    ]);
}

/// A course of events that takes an invocation with normalised inputs to
/// the terminal stage `stage`: every step before the last is carried out,
/// and the last fails or gives the verdict.
pub open spec fn course_to(stage: Stage) -> Seq<Event> {
    match stage {
        Stage::Failed(ErrorKind::CircuitLoad) => seq![Event::Failure],
        Stage::Failed(ErrorKind::Witness) => seq![Event::Done, Event::Failure],
        Stage::Failed(ErrorKind::Setup) => seq![Event::Done, Event::Done, Event::Failure],
        Stage::Failed(ErrorKind::Prove) => seq![
            Event::Done,
            Event::Done,
            Event::Done,
            Event::Failure,
        ],
        Stage::Failed(ErrorKind::Verify) => seq![
            Event::Done,
            Event::Done,
            Event::Done,
            Event::Done,
            Event::Failure,
        ],
        Stage::Verified(valid) => seq![
            Event::Done,
            Event::Done,
            Event::Done,
            Event::Done,
            Event::Verdict(valid),
        ],
        _ => Seq::empty(),
    }
}

/// One more event takes the run one stage further.
pub proof fn lemma_run_push(stage: Stage, trace: Seq<Event>, event: Event)
    ensures
        run_from(stage, trace.push(event)) == next_stage(run_from(stage, trace), event),
{
    assert(trace.push(event).drop_last() =~= trace);
}

/// Every terminal stage but a failure to take over the inputs is where
/// some invocation with normalised inputs ends.
pub proof fn lemma_every_end_is_reached(stage: Stage)
    requires
        is_terminal(stage),
        stage != Stage::Failed(ErrorKind::Marshal),
    ensures
        run_from(Stage::InputsNormalized, course_to(stage)) == stage,
{
    let start = Stage::InputsNormalized;
    let t0 = Seq::<Event>::empty();
    let t1 = t0.push(Event::Done);
    let t2 = t1.push(Event::Done);
    let t3 = t2.push(Event::Done);
    let t4 = t3.push(Event::Done);
    lemma_run_push(start, t0, Event::Done);
    lemma_run_push(start, t1, Event::Done);
    lemma_run_push(start, t2, Event::Done);
    lemma_run_push(start, t3, Event::Done);
    assert(run_from(start, t0) == start);
    match stage {
        Stage::Failed(ErrorKind::CircuitLoad) => {
            lemma_run_push(start, t0, Event::Failure);
            assert(course_to(stage) =~= t0.push(Event::Failure));
        },
        Stage::Failed(ErrorKind::Witness) => {
            lemma_run_push(start, t1, Event::Failure);
            assert(course_to(stage) =~= t1.push(Event::Failure));
        },
        Stage::Failed(ErrorKind::Setup) => {
            lemma_run_push(start, t2, Event::Failure);
            assert(course_to(stage) =~= t2.push(Event::Failure));
        },
        Stage::Failed(ErrorKind::Prove) => {
            lemma_run_push(start, t3, Event::Failure);
            assert(course_to(stage) =~= t3.push(Event::Failure));
        },
        Stage::Failed(ErrorKind::Verify) => {
            lemma_run_push(start, t4, Event::Failure);
            assert(course_to(stage) =~= t4.push(Event::Failure));
        },
        Stage::Verified(valid) => {
            lemma_run_push(start, t4, Event::Verdict(valid));
            assert(course_to(stage) =~= t4.push(Event::Verdict(valid)));
        },
        _ => {},
    }
}

/// How an invocation ended: the stage it reached and the time the prover
/// took, in milliseconds. The time counts where the stage is `Verified`.
#[derive(Clone, Copy, Debug, PartialEq, Eq, Structural)]
pub struct Outcome {
    pub stage: Stage,
    pub proving_millis: u128,
}

/// Ends an invocation whose proof took `millis` milliseconds on what the
/// verifier answered: a verdict ends it as `Verified` with the proving
/// time, an error as `Failed(Verify)` with no time.
pub fn conclude(verdict: Result<bool, ErrorKind>, millis: u128) -> (outcome: Outcome)
    ensures
        verdict matches Ok(valid) ==> outcome == (Outcome {
            stage: Stage::Verified(valid),
            proving_millis: millis,
        }),
        verdict is Err ==> outcome == (Outcome {
            stage: Stage::Failed(ErrorKind::Verify),
            proving_millis: 0,
        }),
        outcome.stage == next_stage(
            Stage::Proved,
            match verdict {
                Ok(valid) => Event::Verdict(valid),
                Err(_) => Event::Failure,
            },
        ),
{
    match verdict {
        Ok(valid) => Outcome {
            stage: advance(Stage::Proved, Event::Verdict(valid)),
            proving_millis: millis,
        },
        Err(_) => Outcome { stage: advance(Stage::Proved, Event::Failure), proving_millis: 0 },
    }
}

/// The low 32 bits of `millis`, read as a signed number in two's complement.
pub open spec fn wrap_to_i32(millis: u128) -> int {
    let low = (millis as int) % 0x1_0000_0000;
    if low < 0x8000_0000 {
        low
    } else {
        low - 0x1_0000_0000
    }
}

/// The number that reports `outcome`: the proving time, wrapped to 32 bits,
/// where the proof was made and accepted, and -1 in every other case.
pub open spec fn code_of(outcome: Outcome) -> int {
    if outcome.stage == Stage::Verified(true) {
        wrap_to_i32(outcome.proving_millis)
    } else {
        -1
    }
}

/// Wraps a count of milliseconds to the width of the reported number.
pub fn millis_code(millis: u128) -> (code: i32)
    ensures
        code == wrap_to_i32(millis),
{
    let low: u64 = (millis % 0x1_0000_0000u128) as u64;
    if low < 0x8000_0000u64 {
        low as i32
    } else {
        (low as i64 - 0x1_0000_0000i64) as i32
    }
}

/// Reports `outcome` as one number.
///
/// An accepted proof gives the time the prover took in milliseconds, wrapped
/// to 32 bits. A rejected proof and a failure of any step give -1.
pub fn outcome_code(outcome: &Outcome) -> (code: i32)
    ensures
        code == code_of(*outcome),
{
    match outcome.stage {
        Stage::Verified(true) => millis_code(outcome.proving_millis),
        _ => -1,
    }
}

/// A proving time below 2^31 milliseconds is reported as it is.
pub proof fn lemma_short_time_is_exact(millis: u128)
    requires
        millis < 0x8000_0000,
    ensures
        wrap_to_i32(millis) == millis,
{
}

/// Whatever the outcome, the reported number is -1 unless the proof was
/// accepted.
pub proof fn lemma_failure_reports_minus_one(outcome: Outcome)
    requires
        outcome.stage != Stage::Verified(true),
    ensures
        code_of(outcome) == -1,
{
}

} // verus!
