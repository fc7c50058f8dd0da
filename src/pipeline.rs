//! The decisions of one benchmark run, as a state machine. The caller performs
//! each action (file access, parameter generation, key derivation, proving)
//! and reports whether it succeeded; the machine names the next action.
use vstd::prelude::*;

verus! {

/// The kind of a fatal failure, by the stage that met it.
#[derive(Clone, Copy, Debug, PartialEq, Eq, Structural)]
pub enum Failure {
    /// A parameter or proof file could not be read, decoded or written.
    Storage,
    /// The circuit does not fit the parameters, or its layout is inconsistent.
    Layout,
    /// Proof construction failed.
    Protocol,
}

/// Where a run stands.
#[derive(Clone, Copy, Debug, PartialEq, Eq, Structural)]
pub enum Phase {
    ProbingParams,
    GeneratingParams,
    WritingParams,
    ReadingParams,
    DecodingParams,
    DerivingVerifyingKey,
    DerivingProvingKey,
    Proving,
    WritingProof,
    Finished,
    Aborted(Failure),
}

/// What the caller reports after performing an action.
#[derive(Clone, Copy, Debug, PartialEq, Eq, Structural)]
pub enum Event {
    Succeeded,
    Failed,
}

/// What the caller is to do next.
#[derive(Clone, Copy, Debug, PartialEq, Eq, Structural)]
pub enum Action {
    /// Check whether the parameter file for `k` exists.
    ProbeParamsFile,
    /// Generate fresh commitment parameters for `k`.
    GenerateParams,
    /// Write the serialized parameters to the parameter file.
    WriteParamsFile,
    /// Read the parameter file.
    ReadParamsFile,
    /// Deserialize the parameters that were read.
    DecodeParams,
    /// Derive the verifying key from the parameters and the circuit shape.
    DeriveVerifyingKey,
    /// Derive the proving key from the parameters, verifying key and shape.
    DeriveProvingKey,
    /// Construct the proof of the witnessed circuit.
    CreateProof,
    /// Write the proof bytes to the proof file.
    WriteProofFile,
    /// The run is complete.
    Finish,
    /// The run stops here with the given failure.
    Abort(Failure),
    /// Nothing is left to do.
    Halt,
}

/// One transition: the phase after `e` is reported in phase `p`, and the
/// action that the caller is to perform next.
pub open spec fn transition(p: Phase, e: Event) -> (Phase, Action) {
    match (p, e) {
        (Phase::ProbingParams, Event::Succeeded) => (Phase::ReadingParams, Action::ReadParamsFile),
        (Phase::ProbingParams, Event::Failed) => (Phase::GeneratingParams, Action::GenerateParams),
        (Phase::GeneratingParams, Event::Succeeded) => (Phase::WritingParams, Action::WriteParamsFile),
        (Phase::WritingParams, Event::Succeeded) => (Phase::ReadingParams, Action::ReadParamsFile),
        (Phase::ReadingParams, Event::Succeeded) => (Phase::DecodingParams, Action::DecodeParams),
        (Phase::DecodingParams, Event::Succeeded) => (
            Phase::DerivingVerifyingKey,
            Action::DeriveVerifyingKey,
        ),
        (Phase::DerivingVerifyingKey, Event::Succeeded) => (
            Phase::DerivingProvingKey,
            Action::DeriveProvingKey,
        ),
        (Phase::DerivingProvingKey, Event::Succeeded) => (Phase::Proving, Action::CreateProof),
        (Phase::Proving, Event::Succeeded) => (Phase::WritingProof, Action::WriteProofFile),
        (Phase::WritingProof, Event::Succeeded) => (Phase::Finished, Action::Finish),
        (Phase::Finished, _) => (Phase::Finished, Action::Halt),
        (Phase::Aborted(f), _) => (Phase::Aborted(f), Action::Halt),
        (p, Event::Failed) => (Phase::Aborted(failure_of(p)), Action::Abort(failure_of(p))),
    }
}

/// The kind of failure that a failed action of phase `p` is.
pub open spec fn failure_of(p: Phase) -> Failure {
    match p {
        Phase::DerivingVerifyingKey | Phase::DerivingProvingKey => Failure::Layout,
        Phase::Proving => Failure::Protocol,
        _ => Failure::Storage,
    }
}

/// The actions that a run in phase `p` asks for as `events` are reported.
pub open spec fn actions(p: Phase, events: Seq<Event>) -> Seq<Action>
    decreases events.len(),
{
    if events.len() == 0 {
        seq![]
    } else {
        let (q, a) = transition(p, events[0]);
        seq![a] + actions(q, events.drop_first())
    }
}

/// A run of the benchmark.
pub struct Pipeline {
    pub phase: Phase,
}

impl Pipeline {
    /// A run at its start, and its first action.
    pub fn start() -> (r: (Pipeline, Action))
        ensures
            r.0.phase == Phase::ProbingParams,
            r.1 == Action::ProbeParamsFile,
    {
        (Pipeline { phase: Phase::ProbingParams }, Action::ProbeParamsFile)
    }

    /// Takes the outcome of the last action and names the next one.
    pub fn step(&mut self, e: Event) -> (r: Action)
        ensures
            (final(self).phase, r) == transition(old(self).phase, e),
    {
        let (q, a) = match (self.phase, e) {
            (Phase::ProbingParams, Event::Succeeded) => (Phase::ReadingParams, Action::ReadParamsFile),
            (Phase::ProbingParams, Event::Failed) => (Phase::GeneratingParams, Action::GenerateParams),
            (Phase::GeneratingParams, Event::Succeeded) => (
                Phase::WritingParams,
                Action::WriteParamsFile,
            ),
            (Phase::WritingParams, Event::Succeeded) => (Phase::ReadingParams, Action::ReadParamsFile),
            (Phase::ReadingParams, Event::Succeeded) => (Phase::DecodingParams, Action::DecodeParams),
            (Phase::DecodingParams, Event::Succeeded) => (
                Phase::DerivingVerifyingKey,
                Action::DeriveVerifyingKey,
            ),
            (Phase::DerivingVerifyingKey, Event::Succeeded) => (
                Phase::DerivingProvingKey,
                Action::DeriveProvingKey,
            ),
            (Phase::DerivingProvingKey, Event::Succeeded) => (Phase::Proving, Action::CreateProof),
            (Phase::Proving, Event::Succeeded) => (Phase::WritingProof, Action::WriteProofFile),
            (Phase::WritingProof, Event::Succeeded) => (Phase::Finished, Action::Finish),
            (Phase::Finished, _) => (Phase::Finished, Action::Halt),
            (Phase::Aborted(f), _) => (Phase::Aborted(f), Action::Halt),
            (p, Event::Failed) => {
                let f: Failure = match p {
                    Phase::DerivingVerifyingKey | Phase::DerivingProvingKey => Failure::Layout,
                    Phase::Proving => Failure::Protocol,
                    _ => Failure::Storage,
                };
                (Phase::Aborted(f), Action::Abort(f))
            },
        };
        self.phase = q;
        a
    }

    /// Whether the run has ended, by finishing or by a failure.
    pub fn is_done(&self) -> (r: bool)
        ensures
            r == (self.phase == Phase::Finished || self.phase is Aborted),
    {
        match self.phase {
            Phase::Finished | Phase::Aborted(_) => true,
            _ => false,
        }
    }
}

/// The phases from which a run no longer touches parameter generation.
pub open spec fn past_generation(p: Phase) -> bool {
    match p {
        Phase::ProbingParams | Phase::GeneratingParams | Phase::WritingParams => false,
        _ => true,
    }
}

proof fn lemma_actions_len(p: Phase, events: Seq<Event>)
    ensures
        actions(p, events).len() == events.len(),
    decreases events.len(),
{
    if events.len() > 0 {
        lemma_actions_len(transition(p, events[0]).0, events.drop_first());
    }
}

proof fn lemma_past_generation_closed(p: Phase, events: Seq<Event>)
    requires
        past_generation(p),
    ensures
        forall|i: int|
            0 <= i < actions(p, events).len() ==> actions(p, events)[i] != Action::GenerateParams,
    decreases events.len(),
{
    if events.len() > 0 {
        let (q, a) = transition(p, events[0]);
        lemma_past_generation_closed(q, events.drop_first());
        let rest = actions(q, events.drop_first());
        assert(actions(p, events) == seq![a] + rest);
        assert forall|i: int| 0 <= i < actions(p, events).len() implies actions(p, events)[i]
            != Action::GenerateParams by {
            if i > 0 {
                assert(actions(p, events)[i] == rest[i - 1]);
            }
        }
    }
}

/// When the parameter file is found, the run never generates parameters,
/// whatever happens afterwards.
pub proof fn lemma_cache_hit_never_generates(events: Seq<Event>)
    ensures
        forall|i: int|
            #![trigger actions(Phase::ProbingParams, seq![Event::Succeeded] + events)[i]]
            0 <= i < events.len() + 1 ==> actions(
                Phase::ProbingParams,
                seq![Event::Succeeded] + events,
            )[i] != Action::GenerateParams,
{
    let all = seq![Event::Succeeded] + events;
    assert(all.drop_first() =~= events);
    lemma_past_generation_closed(Phase::ReadingParams, events);
    lemma_actions_len(Phase::ReadingParams, events);
    let rest = actions(Phase::ReadingParams, events);
    assert(actions(Phase::ProbingParams, all) == seq![Action::ReadParamsFile] + rest);
    assert forall|i: int| 0 <= i < events.len() + 1 implies actions(Phase::ProbingParams, all)[i]
        != Action::GenerateParams by {
        if i > 0 {
            assert(actions(Phase::ProbingParams, all)[i] == rest[i - 1]);
        }
    }
}

/// An aborted run stays aborted and asks for nothing more.
pub proof fn lemma_abort_is_final(f: Failure, events: Seq<Event>)
    ensures
        actions(Phase::Aborted(f), events) == Seq::new(events.len(), |i: int| Action::Halt),
    decreases events.len(),
{
    if events.len() > 0 {
        lemma_abort_is_final(f, events.drop_first());
        assert(actions(Phase::Aborted(f), events) =~= Seq::new(
            events.len(),
            |i: int| Action::Halt,
        ));
    } else {
        assert(actions(Phase::Aborted(f), events) =~= Seq::new(
            events.len(),
            |i: int| Action::Halt,
        ));
    }
}

/// A failed key derivation (the circuit does not fit the parameters) aborts
/// the run with a layout failure; nothing is done after it.
pub proof fn lemma_key_derivation_failure_is_fatal(events: Seq<Event>)
    ensures
        actions(Phase::DerivingVerifyingKey, seq![Event::Failed] + events) == seq![
            Action::Abort(Failure::Layout),
        ] + Seq::new(events.len(), |i: int| Action::Halt),
        actions(Phase::DerivingProvingKey, seq![Event::Failed] + events) == seq![
            Action::Abort(Failure::Layout),
        ] + Seq::new(events.len(), |i: int| Action::Halt),
{
    let all = seq![Event::Failed] + events;
    assert(all.drop_first() =~= events);
    lemma_abort_is_final(Failure::Layout, events);
}

} // verus!
