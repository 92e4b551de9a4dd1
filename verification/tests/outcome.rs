use passport_prover::outcome::{
    advance, conclude, millis_code, outcome_code, ErrorKind, Event, Outcome, Stage,
};

const STEPS: [Stage; 6] = [
    Stage::Uninitialized,
    Stage::InputsNormalized,
    Stage::CircuitLoaded,
    Stage::WitnessBuilt,
    Stage::ParametersGenerated,
    Stage::Proved,
];

#[test]
fn a_run_without_failure_passes_every_stage() {
    let mut stage = Stage::Uninitialized;
    for next in [
        Stage::InputsNormalized,
        Stage::CircuitLoaded,
        Stage::WitnessBuilt,
        Stage::ParametersGenerated,
        Stage::Proved,
    ] {
        stage = advance(stage, Event::Done);
        assert_eq!(stage, next);
    }
    assert_eq!(advance(stage, Event::Verdict(true)), Stage::Verified(true));
    assert_eq!(advance(stage, Event::Verdict(false)), Stage::Verified(false));
}

#[test]
fn each_step_fails_with_its_own_kind_of_error() {
    let kinds = [
        ErrorKind::Marshal,
        ErrorKind::CircuitLoad,
        ErrorKind::Witness,
        ErrorKind::Setup,
        ErrorKind::Prove,
        ErrorKind::Verify,
    ];
    for (stage, kind) in STEPS.iter().zip(kinds) {
        assert_eq!(advance(*stage, Event::Failure), Stage::Failed(kind));
    }
}

#[test]
fn an_ended_invocation_does_not_move() {
    let ends = [
        Stage::Verified(true),
        Stage::Verified(false),
        Stage::Failed(ErrorKind::CircuitLoad),
        Stage::Failed(ErrorKind::Marshal),
        Stage::Failed(ErrorKind::Witness),
        Stage::Failed(ErrorKind::Setup),
        Stage::Failed(ErrorKind::Prove),
        Stage::Failed(ErrorKind::Verify),
    ];
    for end in ends {
        for event in [Event::Done, Event::Failure, Event::Verdict(true), Event::Verdict(false)] {
            assert_eq!(advance(end, event), end);
        }
    }
}

#[test]
fn an_event_that_does_not_fit_is_ignored() {
    for stage in &STEPS[..5] {
        assert_eq!(advance(*stage, Event::Verdict(true)), *stage);
        assert_eq!(advance(*stage, Event::Verdict(false)), *stage);
    }
    assert_eq!(advance(Stage::Proved, Event::Done), Stage::Proved);
}

#[test]
fn short_times_are_reported_as_they_are() {
    assert_eq!(millis_code(0), 0);
    assert_eq!(millis_code(10), 10);
    assert_eq!(millis_code(1234), 1234);
    assert_eq!(millis_code(2147483647), i32::MAX);
}

#[test]
fn long_times_wrap() {
    assert_eq!(millis_code(2147483648), i32::MIN);
    assert_eq!(millis_code(2147483649), -2147483647);
    assert_eq!(millis_code(4294967295), -1);
    assert_eq!(millis_code(4294967296), 0);
    assert_eq!(millis_code(4294967301), 5);
    assert_eq!(millis_code(u128::MAX), -1);
    assert_eq!(millis_code(1 << 100), 0);
}

#[test]
fn wrapping_agrees_with_the_cast() {
    let samples: [u128; 9] = [
        0,
        1,
        0x7fff_ffff,
        0x8000_0000,
        0xffff_ffff,
        0x1_0000_0000,
        0x1234_5678_9abc_def0,
        u64::MAX as u128,
        u128::MAX - 7,
    ];
    for millis in samples {
        assert_eq!(millis_code(millis), millis as i32);
    }
}

#[test]
fn an_accepted_proof_reports_its_time() {
    let outcome = Outcome { stage: Stage::Verified(true), proving_millis: 10 };
    assert_eq!(outcome_code(&outcome), 10);
    let outcome = Outcome { stage: Stage::Verified(true), proving_millis: 0 };
    assert_eq!(outcome_code(&outcome), 0);
    let outcome = Outcome { stage: Stage::Verified(true), proving_millis: 4294967295 };
    assert_eq!(outcome_code(&outcome), -1);
}

#[test]
fn a_rejected_proof_reports_minus_one() {
    let outcome = Outcome { stage: Stage::Verified(false), proving_millis: 10 };
    assert_eq!(outcome_code(&outcome), -1);
}

#[test]
fn every_failure_reports_minus_one() {
    for kind in [
        ErrorKind::CircuitLoad,
        ErrorKind::Marshal,
        ErrorKind::Witness,
        ErrorKind::Setup,
        ErrorKind::Prove,
        ErrorKind::Verify,
    ] {
        let outcome = Outcome { stage: Stage::Failed(kind), proving_millis: 77 };
        assert_eq!(outcome_code(&outcome), -1);
    }
}

#[test]
fn an_unfinished_invocation_reports_minus_one() {
    for stage in STEPS {
        let outcome = Outcome { stage, proving_millis: 5 };
        assert_eq!(outcome_code(&outcome), -1);
    }
}

#[test]
fn a_verdict_ends_the_invocation_with_its_time() {
    assert_eq!(
        conclude(Ok(true), 42),
        Outcome { stage: Stage::Verified(true), proving_millis: 42 }
    );
    assert_eq!(
        conclude(Ok(false), 42),
        Outcome { stage: Stage::Verified(false), proving_millis: 42 }
    );
    assert_eq!(outcome_code(&conclude(Ok(true), 42)), 42);
    assert_eq!(outcome_code(&conclude(Ok(false), 42)), -1);
}

#[test]
fn a_verifier_that_does_not_judge_ends_the_invocation_as_failed() {
    for kind in [ErrorKind::Verify, ErrorKind::Prove, ErrorKind::Marshal] {
        let outcome = conclude(Err(kind), 42);
        assert_eq!(
            outcome,
            Outcome { stage: Stage::Failed(ErrorKind::Verify), proving_millis: 0 }
        );
        assert_eq!(outcome_code(&outcome), -1);
    }
}
