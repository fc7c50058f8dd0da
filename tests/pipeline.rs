use sha_bench::pipeline::{Action, Event, Failure, Phase, Pipeline};

fn run(events: &[Event]) -> (Vec<Action>, Phase) {
    let (mut p, first) = Pipeline::start();
    let mut out = vec![first];
    for e in events {
        out.push(p.step(*e));
    }
    (out, p.phase)
}

#[test]
fn first_run_generates_and_stores_params() {
    let mut events = vec![Event::Failed];
    events.extend(std::iter::repeat(Event::Succeeded).take(9));
    let (actions, phase) = run(&events);
    assert_eq!(
        actions,
        vec![
            Action::ProbeParamsFile,
            Action::GenerateParams,
            Action::WriteParamsFile,
            Action::ReadParamsFile,
            Action::DecodeParams,
            Action::DeriveVerifyingKey,
            Action::DeriveProvingKey,
            Action::CreateProof,
            Action::WriteProofFile,
            Action::Finish,
            Action::Halt,
        ]
    );
    assert_eq!(phase, Phase::Finished);
}

#[test]
fn second_run_hits_the_cache() {
    let events = vec![Event::Succeeded; 7];
    let (actions, phase) = run(&events);
    assert_eq!(
        actions,
        vec![
            Action::ProbeParamsFile,
            Action::ReadParamsFile,
            Action::DecodeParams,
            Action::DeriveVerifyingKey,
            Action::DeriveProvingKey,
            Action::CreateProof,
            Action::WriteProofFile,
            Action::Finish,
        ]
    );
    assert!(!actions.contains(&Action::GenerateParams));
    assert_eq!(phase, Phase::Finished);
}

#[test]
fn key_derivation_failure_is_a_layout_failure() {
    let events = [
        Event::Succeeded,
        Event::Succeeded,
        Event::Succeeded,
        Event::Failed,
        Event::Succeeded,
        Event::Succeeded,
    ];
    let (actions, phase) = run(&events);
    assert_eq!(actions[4], Action::Abort(Failure::Layout));
    assert_eq!(&actions[5..], &[Action::Halt, Action::Halt]);
    assert_eq!(phase, Phase::Aborted(Failure::Layout));
}

#[test]
fn proving_key_failure_is_a_layout_failure() {
    let events = [Event::Succeeded; 4];
    let (mut p, _) = Pipeline::start();
    for e in events {
        p.step(e);
    }
    assert_eq!(p.phase, Phase::DerivingProvingKey);
    assert_eq!(p.step(Event::Failed), Action::Abort(Failure::Layout));
    assert!(p.is_done());
}

#[test]
fn proof_failure_is_a_protocol_failure() {
    let mut events = vec![Event::Succeeded; 5];
    events.push(Event::Failed);
    let (actions, phase) = run(&events);
    assert_eq!(actions[6], Action::Abort(Failure::Protocol));
    assert_eq!(phase, Phase::Aborted(Failure::Protocol));
}

#[test]
fn storage_failures_abort() {
    // Decoding the cached parameters fails.
    let (actions, phase) = run(&[Event::Succeeded, Event::Succeeded, Event::Failed]);
    assert_eq!(actions[3], Action::Abort(Failure::Storage));
    assert_eq!(phase, Phase::Aborted(Failure::Storage));
    // Writing freshly generated parameters fails.
    let (actions, _) = run(&[Event::Failed, Event::Succeeded, Event::Failed]);
    assert_eq!(actions[3], Action::Abort(Failure::Storage));
    // Writing the proof fails.
    let mut events = vec![Event::Succeeded; 6];
    events.push(Event::Failed);
    let (actions, _) = run(&events);
    assert_eq!(actions[7], Action::Abort(Failure::Storage));
}

#[test]
fn finished_run_asks_for_nothing() {
    let (mut p, _) = Pipeline::start();
    assert!(!p.is_done());
    for _ in 0..7 {
        p.step(Event::Succeeded);
    }
    assert!(p.is_done());
    assert_eq!(p.step(Event::Failed), Action::Halt);
    assert_eq!(p.phase, Phase::Finished);
}
