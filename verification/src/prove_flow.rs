//! The proving run as a state machine.
//!
//! The caller starts the run, performs each action the machine hands out and
//! reports back what came of it: the verifier's verdict on the proof it made,
//! or that the output files were written. The machine decides what comes
//! next: the following phase, the files to write, or the end of the run.
use crate::pipeline::{
    crs_source, snark_finalization, spec_crs_source, spec_snark_finalization, CrsSource,
    OutputFile, Phase, PipelineError, SnarkFinalization,
};
use vstd::prelude::*;

verus! {

/// What the caller asks of a run.
#[derive(Clone, Debug, PartialEq, Eq)]
pub struct ProveRequest {
    /// Stop after the RISC wrapper and write its key and proof.
    pub risc_wrapper_only: bool,
    /// The file holding the KZG reference string, if any.
    pub trusted_setup_file: Option<String>,
    /// Make the SNARK proof zero-knowledge.
    pub use_zk: bool,
}

/// Where a run stands.
#[derive(Clone, Copy, Debug, PartialEq, Eq, Structural)]
pub enum ProveStage {
    NotStarted,
    ProvingRiscWrapper,
    ProvingCompression,
    ProvingSnarkWrapper,
    WritingOutputs,
    Finished,
}

/// What the caller reports to the machine.
#[derive(Clone, Copy, Debug, PartialEq, Eq, Structural)]
pub enum ProveEvent {
    /// The input program proof has been read.
    Start,
    /// The proof of the current phase was made and checked by its verifier.
    ProofChecked { is_valid: bool },
    /// The requested output files were written.
    OutputsWritten,
}

/// What the machine asks the caller to do next.
#[derive(Clone, Copy, Debug, PartialEq, Eq)]
pub enum ProveAction {
    /// Make and check the RISC wrapper proof of the program proof.
    ProveRiscWrapper,
    /// Make and check the compression proof of the RISC wrapper proof.
    ProveCompression,
    /// Make and check the SNARK wrapper proof of the compression proof.
    ProveSnarkWrapper { crs: CrsSource, finalization: SnarkFinalization },
    /// Write the key and the proof of the last phase: `first`, then `second`.
    WriteOutputs { first: OutputFile, second: OutputFile },
    /// The run is over and succeeded.
    Finish,
    /// The run fails: the caller stops it with a panic that carries `error`,
    /// as unwrapping the failed phase's result does. Nothing is written.
    Abort { error: PipelineError },
}

/// A run: the request and the stage reached.
#[derive(Clone, Debug, PartialEq, Eq)]
pub struct ProveFlow {
    pub request: ProveRequest,
    pub stage: ProveStage,
}

/// The event a run waits for: `Start` before it starts, a verdict while a
/// proof is made, `OutputsWritten` while files are written, nothing once it
/// is finished.
pub open spec fn expects(flow: ProveFlow, event: ProveEvent) -> bool {
    match flow.stage {
        ProveStage::NotStarted => event == ProveEvent::Start,
        ProveStage::ProvingRiscWrapper => event is ProofChecked,
        ProveStage::ProvingCompression => event is ProofChecked,
        ProveStage::ProvingSnarkWrapper => event is ProofChecked,
        ProveStage::WritingOutputs => event == ProveEvent::OutputsWritten,
        ProveStage::Finished => false,
    }
}

/// The stage and the action that follow `event` at `flow`.
pub open spec fn next(flow: ProveFlow, event: ProveEvent) -> (ProveFlow, ProveAction) {
    let req = flow.request;
    let at = |stage: ProveStage| ProveFlow { request: req, stage };
    match (flow.stage, event) {
        (ProveStage::NotStarted, _) => (
            at(ProveStage::ProvingRiscWrapper),
            ProveAction::ProveRiscWrapper,
        ),
        (ProveStage::ProvingRiscWrapper, ProveEvent::ProofChecked { is_valid }) => {
            if !is_valid {
                (
                    at(ProveStage::Finished),
                    ProveAction::Abort { error: PipelineError::ProofNotValid { phase: Phase::RiscWrapper } },
                )
            } else if req.risc_wrapper_only {
                (
                    at(ProveStage::WritingOutputs),
                    ProveAction::WriteOutputs { first: OutputFile::RiscWrapperVk, second: OutputFile::RiscWrapperProof },
                )
            } else {
                (at(ProveStage::ProvingCompression), ProveAction::ProveCompression)
            }
        },
        (ProveStage::ProvingCompression, ProveEvent::ProofChecked { is_valid }) => {
            if !is_valid {
                (
                    at(ProveStage::Finished),
                    ProveAction::Abort { error: PipelineError::ProofNotValid { phase: Phase::Compression } },
                )
            } else {
                (
                    at(ProveStage::ProvingSnarkWrapper),
                    ProveAction::ProveSnarkWrapper {
                        crs: spec_crs_source(req.trusted_setup_file is Some),
                        finalization: spec_snark_finalization(req.use_zk),
                    },
                )
            }
        },
        (ProveStage::ProvingSnarkWrapper, ProveEvent::ProofChecked { is_valid }) => {
            if !is_valid {
                (
                    at(ProveStage::Finished),
                    ProveAction::Abort { error: PipelineError::ProofNotValid { phase: Phase::SnarkWrapper } },
                )
            } else {
                (
                    at(ProveStage::WritingOutputs),
                    ProveAction::WriteOutputs { first: OutputFile::SnarkProof, second: OutputFile::SnarkVk },
                )
            }
        },
        _ => (at(ProveStage::Finished), ProveAction::Finish),
    }
}

impl ProveFlow {
    /// A run that has not started yet.
    pub fn new(request: ProveRequest) -> (flow: ProveFlow)
        ensures
            flow.request == request,
            flow.stage == ProveStage::NotStarted,
    {
        ProveFlow { request, stage: ProveStage::NotStarted }
    }

    /// Whether the run waits for `event`.
    pub fn accepts(&self, event: ProveEvent) -> (r: bool)
        ensures
            r == expects(*self, event),
    {
        match self.stage {
            ProveStage::NotStarted => matches!(event, ProveEvent::Start),
            ProveStage::ProvingRiscWrapper => matches!(event, ProveEvent::ProofChecked { .. }),
            ProveStage::ProvingCompression => matches!(event, ProveEvent::ProofChecked { .. }),
            ProveStage::ProvingSnarkWrapper => matches!(event, ProveEvent::ProofChecked { .. }),
            ProveStage::WritingOutputs => matches!(event, ProveEvent::OutputsWritten),
            ProveStage::Finished => false,
        }
    }

    /// Whether the run is over.
    pub fn is_finished(&self) -> (r: bool)
        ensures
            r == (self.stage == ProveStage::Finished),
    {
        matches!(self.stage, ProveStage::Finished)
    }

    /// Takes in what the caller reports and says what to do next.
    pub fn step(&mut self, event: ProveEvent) -> (action: ProveAction)
        requires
            expects(*old(self), event),
        ensures
            (*final(self), action) == next(*old(self), event),
    {
        match (self.stage, event) {
            (ProveStage::NotStarted, _) => {
                self.stage = ProveStage::ProvingRiscWrapper;
                ProveAction::ProveRiscWrapper
            },
            (ProveStage::ProvingRiscWrapper, ProveEvent::ProofChecked { is_valid }) => {
                if !is_valid {
                    self.stage = ProveStage::Finished;
                    ProveAction::Abort { error: PipelineError::ProofNotValid { phase: Phase::RiscWrapper } }
                } else if self.request.risc_wrapper_only {
                    self.stage = ProveStage::WritingOutputs;
                    ProveAction::WriteOutputs { first: OutputFile::RiscWrapperVk, second: OutputFile::RiscWrapperProof }
                } else {
                    self.stage = ProveStage::ProvingCompression;
                    ProveAction::ProveCompression
                }
            },
            (ProveStage::ProvingCompression, ProveEvent::ProofChecked { is_valid }) => {
                if !is_valid {
                    self.stage = ProveStage::Finished;
                    ProveAction::Abort { error: PipelineError::ProofNotValid { phase: Phase::Compression } }
                } else {
                    let crs = crs_source(&self.request.trusted_setup_file);
                    let finalization = snark_finalization(self.request.use_zk);
                    self.stage = ProveStage::ProvingSnarkWrapper;
                    ProveAction::ProveSnarkWrapper { crs, finalization }
                }
            },
            (ProveStage::ProvingSnarkWrapper, ProveEvent::ProofChecked { is_valid }) => {
                if !is_valid {
                    self.stage = ProveStage::Finished;
                    ProveAction::Abort { error: PipelineError::ProofNotValid { phase: Phase::SnarkWrapper } }
                } else {
                    self.stage = ProveStage::WritingOutputs;
                    ProveAction::WriteOutputs { first: OutputFile::SnarkProof, second: OutputFile::SnarkVk }
                }
            },
            _ => {
                self.stage = ProveStage::Finished;
                ProveAction::Finish
            },
        }
    }
}

/// A run that has not started yet, as a spec value.
pub open spec fn start(request: ProveRequest) -> ProveFlow {
    ProveFlow { request, stage: ProveStage::NotStarted }
}

/// The flow and the actions after the events, taken in order, starting from
/// `flow`.
pub open spec fn run(flow: ProveFlow, events: Seq<ProveEvent>) -> (ProveFlow, Seq<ProveAction>)
    decreases events.len(),
{
    if events.len() == 0 {
        (flow, Seq::<ProveAction>::empty())
    } else {
        let (before, actions) = run(flow, events.drop_last());
        let (after, action) = next(before, events.last());
        (after, actions.push(action))
    }
}

/// Each of the events was awaited when it came.
pub open spec fn accepted(flow: ProveFlow, events: Seq<ProveEvent>) -> bool
    decreases events.len(),
{
    events.len() == 0 || (accepted(flow, events.drop_last()) && expects(
        run(flow, events.drop_last()).0,
        events.last(),
    ))
}

/// The number of proving phases a request asks for.
pub open spec fn required_phases(request: ProveRequest) -> nat {
    if request.risc_wrapper_only {
        1
    } else {
        3
    }
}

/// The events of a run in which every proof verifies: the start, one
/// accepted verdict per phase, and the writing of the outputs.
pub open spec fn happy_events(request: ProveRequest) -> Seq<ProveEvent> {
    seq![ProveEvent::Start] + Seq::new(
        required_phases(request),
        |i: int| ProveEvent::ProofChecked { is_valid: true },
    ) + seq![ProveEvent::OutputsWritten]
}

/// The actions of a run in which every proof verifies.
pub open spec fn happy_actions(request: ProveRequest) -> Seq<ProveAction> {
    if request.risc_wrapper_only {
        seq![
            ProveAction::ProveRiscWrapper,
            ProveAction::WriteOutputs { first: OutputFile::RiscWrapperVk, second: OutputFile::RiscWrapperProof },
            ProveAction::Finish,
        ]
    } else {
        seq![
            ProveAction::ProveRiscWrapper,
            ProveAction::ProveCompression,
            ProveAction::ProveSnarkWrapper {
                crs: spec_crs_source(request.trusted_setup_file is Some),
                finalization: spec_snark_finalization(request.use_zk),
            },
            ProveAction::WriteOutputs { first: OutputFile::SnarkProof, second: OutputFile::SnarkVk },
            ProveAction::Finish,
        ]
    }
}

/// The stage a run reaches after the first `n` events of the run in which
/// every proof verifies.
pub open spec fn happy_stage(request: ProveRequest, n: int) -> ProveStage {
    if n <= 0 {
        ProveStage::NotStarted
    } else if n == 1 {
        ProveStage::ProvingRiscWrapper
    } else if request.risc_wrapper_only {
        if n == 2 {
            ProveStage::WritingOutputs
        } else {
            ProveStage::Finished
        }
    } else if n == 2 {
        ProveStage::ProvingCompression
    } else if n == 3 {
        ProveStage::ProvingSnarkWrapper
    } else if n == 4 {
        ProveStage::WritingOutputs
    } else {
        ProveStage::Finished
    }
}

/// The phase whose verdict is the `j`-th event of a run (counting the start
/// as event 0).
pub open spec fn phase_of_check(j: int) -> Phase {
    if j == 1 {
        Phase::RiscWrapper
    } else if j == 2 {
        Phase::Compression
    } else {
        Phase::SnarkWrapper
    }
}

proof fn lemma_happy_prefix_step(request: ProveRequest, n: int)
    requires
        0 <= n < happy_events(request).len(),
        run(start(request), happy_events(request).take(n)) == (
            ProveFlow { request, stage: happy_stage(request, n) },
            happy_actions(request).take(n),
        ),
    ensures
        expects(
            ProveFlow { request, stage: happy_stage(request, n) },
            happy_events(request)[n],
        ),
        run(start(request), happy_events(request).take(n + 1)) == (
            ProveFlow { request, stage: happy_stage(request, n + 1) },
            happy_actions(request).take(n + 1),
        ),
{
    let h = happy_events(request);
    let a = happy_actions(request);
    assert(h.take(n + 1).drop_last() =~= h.take(n));
    assert(h.take(n + 1).last() == h[n]);
    assert(a.take(n).push(a[n]) =~= a.take(n + 1));
}

/// The run in which every proof verifies: each event is awaited, the run
/// asks for the phases in order, the RISC wrapper only when only it was
/// requested, writes the key and proof of the last phase, and ends well.
pub proof fn lemma_happy_run(request: ProveRequest)
    ensures
        accepted(start(request), happy_events(request)),
        run(start(request), happy_events(request)) == (
            ProveFlow { request, stage: ProveStage::Finished },
            happy_actions(request),
        ),
{
    lemma_happy_prefixes(request, happy_events(request).len() as int);
    assert(happy_events(request).take(happy_events(request).len() as int) =~= happy_events(
        request,
    ));
    assert(happy_actions(request).take(happy_events(request).len() as int) =~= happy_actions(
        request,
    ));
}

/// A run hands out one action per event.
pub proof fn lemma_run_len(flow: ProveFlow, events: Seq<ProveEvent>)
    ensures
        run(flow, events).1.len() == events.len(),
    decreases events.len(),
{
    if events.len() > 0 {
        lemma_run_len(flow, events.drop_last());
    }
}

/// Every prefix of the run in which every proof verifies is awaited, and
/// leads to the matching stage and prefix of actions.
pub proof fn lemma_happy_prefixes(request: ProveRequest, n: int)
    requires
        0 <= n <= happy_events(request).len(),
    ensures
        accepted(start(request), happy_events(request).take(n)),
        run(start(request), happy_events(request).take(n)) == (
            ProveFlow { request, stage: happy_stage(request, n) },
            happy_actions(request).take(n),
        ),
    decreases n,
{
    let h = happy_events(request);
    if n == 0 {
        assert(h.take(0) =~= Seq::<ProveEvent>::empty());
        assert(happy_actions(request).take(0) =~= Seq::<ProveAction>::empty());
    } else {
        lemma_happy_prefixes(request, n - 1);
        lemma_happy_prefix_step(request, n - 1);
        assert(h.take(n).drop_last() =~= h.take(n - 1));
        assert(h.take(n).last() == h[n - 1]);
    }
}

/// The events of a run whose `j`-th event, the verdict of the `j`-th phase,
/// rejects the proof, every earlier proof having verified.
pub open spec fn failing_events(request: ProveRequest, j: int) -> Seq<ProveEvent> {
    happy_events(request).take(j).push(ProveEvent::ProofChecked { is_valid: false })
}

/// A run whose `j`-th event rejects the proof is aborted there, with the error of
/// the phase that made it, after the actions of the run in which every proof
/// verifies up to that phase.
pub proof fn lemma_failing_run(request: ProveRequest, j: int)
    requires
        1 <= j <= required_phases(request),
    ensures
        accepted(start(request), failing_events(request, j)),
        run(start(request), failing_events(request, j)) == (
            ProveFlow { request, stage: ProveStage::Finished },
            happy_actions(request).take(j).push(
                ProveAction::Abort { error: PipelineError::ProofNotValid { phase: phase_of_check(j) } },
            ),
        ),
{
    lemma_happy_prefixes(request, j);
    let f = failing_events(request, j);
    assert(f.drop_last() =~= happy_events(request).take(j));
}

/// Every run from the start, as long as each event was awaited, is either a
/// prefix of the run in which every proof verifies (with the matching prefix
/// of its actions), or such a run up to a phase whose proof was rejected and
/// then aborted with that phase's error. Nothing else can happen.
pub proof fn lemma_accepted_runs(request: ProveRequest, events: Seq<ProveEvent>)
    requires
        accepted(start(request), events),
    ensures
        ({
            ||| (events.len() <= happy_events(request).len() && events == happy_events(
                request,
            ).take(events.len() as int) && run(start(request), events) == (
                ProveFlow { request, stage: happy_stage(request, events.len() as int) },
                happy_actions(request).take(events.len() as int),
            ))
            ||| (2 <= events.len() <= required_phases(request) + 1 && events == failing_events(
                request,
                events.len() - 1,
            ) && run(start(request), events) == (
                ProveFlow { request, stage: ProveStage::Finished },
                happy_actions(request).take(events.len() - 1).push(
                    ProveAction::Abort { error: PipelineError::ProofNotValid { phase: phase_of_check(events.len() - 1) } },
                ),
            ))
        }),
    decreases events.len(),
{
    let h = happy_events(request);
    let n = events.len() as int;
    if n == 0 {
        assert(events =~= h.take(0));
        lemma_happy_prefixes(request, 0);
    } else {
        let init = events.drop_last();
        lemma_accepted_runs(request, init);
        let m = n - 1;
        if m >= 2 && m <= required_phases(request) + 1 && init == failing_events(request, m - 1) {
            // the run had already ended: no event is awaited
            assert(run(start(request), init).0.stage == ProveStage::Finished);
            assert(false);
        } else {
            assert(init == h.take(m));
            lemma_happy_prefixes(request, m);
            let st = happy_stage(request, m);
            assert(expects(ProveFlow { request, stage: st }, events.last()));
            if m < h.len() {
                lemma_happy_prefix_step(request, m);
            }
            match events.last() {
                ProveEvent::ProofChecked { is_valid } => {
                    if is_valid {
                        assert(h[m] == events.last());
                        assert(events =~= h.take(n));
                        lemma_happy_prefixes(request, n);
                    } else {
                        assert(events =~= failing_events(request, m));
                        lemma_failing_run(request, m);
                    }
                },
                _ => {
                    assert(h[m] == events.last());
                    assert(events =~= h.take(n));
                    lemma_happy_prefixes(request, n);
                },
            }
        }
    }
}

/// Outputs are written only after every phase the request asks for made a
/// proof that verified: the request to write answers the verdict of the last
/// required phase, and the events up to it are the start and one accepting
/// verdict per required phase.
pub proof fn lemma_outputs_only_after_valid_proofs(
    request: ProveRequest,
    events: Seq<ProveEvent>,
    k: int,
)
    requires
        accepted(start(request), events),
        0 <= k < events.len(),
        run(start(request), events).1[k] is WriteOutputs,
    ensures
        k == required_phases(request),
        events.take(k + 1) == happy_events(request).take(k + 1),
        forall|i: int| 0 <= i <= k ==> !(#[trigger] events[i] matches ProveEvent::ProofChecked {
            is_valid: false,
        }),
{
    lemma_accepted_runs(request, events);
    lemma_run_len(start(request), events);
    let h = happy_events(request);
    let a = happy_actions(request);
    let acts = run(start(request), events).1;
    if events.len() <= h.len() && events == h.take(events.len() as int) {
        assert(acts[k] == a[k]);
        if request.risc_wrapper_only {
            assert(k == 1);
        } else {
            assert(k == 3);
        }
        assert(events.take(k + 1) =~= h.take(k + 1));
        assert forall|i: int| 0 <= i <= k implies !(#[trigger] events[i] matches ProveEvent::ProofChecked {
            is_valid: false,
        }) by {
            assert(events[i] == h[i]);
        }
    } else {
        if k < events.len() - 1 {
            assert(acts[k] == a[k]);
            if request.risc_wrapper_only {
                assert(k == 0);
            } else {
                assert(k < 3);
            }
        } else {
            assert(acts[k] is Abort);
        }
    }
}

/// A rejected proof ends the run: the verdict that rejects it is the last
/// event the run takes, it answers one of the required phases, and the run
/// is aborted (the caller panics) with the error of that phase without writing
/// any output.
pub proof fn lemma_rejected_proof_ends_run(request: ProveRequest, events: Seq<ProveEvent>, i: int)
    requires
        accepted(start(request), events),
        0 <= i < events.len(),
        events[i] == (ProveEvent::ProofChecked { is_valid: false }),
    ensures
        i == events.len() - 1,
        1 <= i <= required_phases(request),
        run(start(request), events).0.stage == ProveStage::Finished,
        run(start(request), events).1.last() == (ProveAction::Abort { error: PipelineError::ProofNotValid { phase: phase_of_check(i) } }),
        forall|k: int|
            0 <= k < events.len() ==> !(#[trigger] run(start(request), events).1[k] is WriteOutputs),
{
    lemma_accepted_runs(request, events);
    lemma_run_len(start(request), events);
    let h = happy_events(request);
    if events.len() <= h.len() && events == h.take(events.len() as int) {
        assert(events[i] == h[i]);
        assert(false);
    }
    let acts = run(start(request), events).1;
    assert forall|k: int| 0 <= k < events.len() implies !(#[trigger] acts[k] is WriteOutputs) by {
        if k < events.len() - 1 {
            assert(acts[k] == happy_actions(request)[k]);
        }
    }
}

/// A run that asks for the RISC wrapper only never makes a compression or a
/// SNARK proof.
pub proof fn lemma_risc_wrapper_only_run(request: ProveRequest, events: Seq<ProveEvent>, k: int)
    requires
        request.risc_wrapper_only,
        accepted(start(request), events),
        0 <= k < events.len(),
    ensures
        !(run(start(request), events).1[k] is ProveCompression),
        !(run(start(request), events).1[k] is ProveSnarkWrapper),
{
    lemma_accepted_runs(request, events);
    lemma_run_len(start(request), events);
    let acts = run(start(request), events).1;
    if k < happy_actions(request).len() && acts[k] != happy_actions(request)[k] {
        assert(acts[k] is Abort);
    }
}

/// A run ends well only after its outputs were written: the successful end
/// answers the report that the files of the last required phase were written,
/// and every required phase made a proof that verified.
pub proof fn lemma_success_only_after_outputs(
    request: ProveRequest,
    events: Seq<ProveEvent>,
    k: int,
)
    requires
        accepted(start(request), events),
        0 <= k < events.len(),
        run(start(request), events).1[k] == (ProveAction::Finish),
    ensures
        k == required_phases(request) + 1,
        events.take(k + 1) == happy_events(request),
        run(start(request), events).1[k - 1] is WriteOutputs,
{
    lemma_accepted_runs(request, events);
    lemma_run_len(start(request), events);
    let h = happy_events(request);
    let a = happy_actions(request);
    let acts = run(start(request), events).1;
    if events.len() <= h.len() && events == h.take(events.len() as int) {
        assert(acts[k] == a[k]);
        if request.risc_wrapper_only {
            assert(k == 2);
        } else {
            assert(k == 4);
        }
        assert(acts[k - 1] == a[k - 1]);
        assert(events.take(k + 1) =~= h);
    } else {
        if k < events.len() - 1 {
            assert(acts[k] == a[k]);
            if request.risc_wrapper_only {
                assert(k == 0);
            } else {
                assert(k < 3);
            }
        } else {
            assert(acts[k] is Abort);
        }
    }
}

} // verus!
