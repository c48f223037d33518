//! The protocol of one benchmark run, as a state machine.
//!
//! A run starts idle. Told to start, it works out its workload and asks for
//! the backend's setup. When setup is done it asks for a proof. When the
//! proof is there, it checks the output that the proof commits to against
//! the workload's kernel, and asks for the proof to be verified. When the
//! verifier accepts, the run is verified and holds its record. Anything else
//! fails the run for good: an error in any phase, a proof that commits to
//! another input than the run's or to an output that is not the kernel's, a
//! proof that the verifier turns down, an event that the run is not waiting
//! for. Nothing is tried twice.
//!
//! The machine does no work of its own on the backend. Whoever drives it
//! performs the action that a step returns and reports what happened as the
//! next event, with the time that the action took.

use vstd::prelude::*;
use crate::config::{resolve, resolved, text_of};
use crate::stats::{record_of, Backend, Metadata, Stats, StatsView};
use crate::workload::{Output, OutputView, Workload, WorkloadKind, WorkloadView};

verus! {

/// The states of a run.
#[derive(Clone, Copy, Debug, PartialEq, Eq, Structural)]
pub enum Phase {
    Idle,
    Setup,
    Proving,
    Verified,
    Failed,
}

/// Why a run failed.
#[derive(Clone, Copy, Debug, PartialEq, Eq, Structural)]
pub enum Fault {
    /// An override that should be a number is none.
    Configuration,
    /// The backend could not load the program or make its keys.
    Setup,
    /// The backend could not run or prove the workload.
    Proving,
    /// The proof commits to an input that is not the run's, or to an output
    /// that is not the kernel's.
    Mismatch,
    /// The verifier turned the proof down, or could not check it.
    Verification,
    /// The run was told of something that it was not waiting for.
    OutOfOrder,
}

/// What the driver of a run reports to it.
#[derive(Debug)]
pub enum Event {
    /// The run is to start, with what is set under the workload's keys.
    Start { first: Option<String>, second: Option<String> },
    /// Setup is done, after `nanos` nanoseconds.
    SetupDone { nanos: u128 },
    /// Setup ended in an error.
    SetupFailed,
    /// The backend proved the workload, after `nanos` nanoseconds, and the
    /// proof commits to `output`. Where the proof commits to its input too,
    /// `echo` is the workload with that input.
    Proved { echo: Option<Workload>, output: Output, nanos: u128 },
    /// Proving ended in an error.
    ProveFailed,
    /// The verifier gave its verdict on the proof, after `nanos`
    /// nanoseconds. `told` is what the backend tells of its trace.
    Checked { valid: bool, nanos: u128, told: Metadata },
    /// Verifying ended in an error.
    CheckFailed,
}

/// What a run asks of its driver.
#[derive(Clone, Copy, Debug, PartialEq, Eq, Structural)]
pub enum Action {
    /// Run the backend's setup for the run's workload, and time it.
    Setup,
    /// Have the backend prove the workload, and time it.
    Prove,
    /// Have the proof verified, and time it.
    Verify,
    /// Write out the run's record: the run is verified.
    Report,
    /// Give up and say why: the run has failed.
    Abort { fault: Fault },
    /// Do nothing: the run was over before this event.
    Halt,
}

/// What a run holds in each state.
enum Stage {
    Idle,
    Setup { workload: Workload },
    Proving { workload: Workload, setup_nanos: u128, proved: Option<(Output, u128)> },
    Verified { record: Stats, output: Output },
    Failed { fault: Fault },
}

/// What a run holds in each state, as a mathematical value.
pub ghost enum StageView {
    /// Not started.
    Idle,
    /// Waiting for the backend's setup.
    Setup { workload: WorkloadView },
    /// Waiting for the proof, while `proved` is `None`; then, with the
    /// committed output and the time that proving took, waiting for the
    /// verifier.
    Proving { workload: WorkloadView, setup_nanos: u128, proved: Option<(OutputView, u128)> },
    /// Verified, with the record and the output that the proof commits to.
    Verified { record: StatsView, output: OutputView },
    /// Failed.
    Failed { fault: Fault },
}

/// One run of one kind of workload on one backend.
pub struct Run {
    backend: Backend,
    kind: WorkloadKind,
    stage: Stage,
}

/// A run as a mathematical value.
pub ghost struct RunView {
    pub backend: Backend,
    pub kind: WorkloadKind,
    pub stage: StageView,
}

impl View for Run {
    type V = RunView;

    closed spec fn view(&self) -> RunView {
        RunView {
            backend: self.backend,
            kind: self.kind,
            stage: match self.stage {
                Stage::Idle => StageView::Idle,
                Stage::Setup { workload } => StageView::Setup { workload: workload@ },
                Stage::Proving { workload, setup_nanos, proved } => StageView::Proving {
                    workload: workload@,
                    setup_nanos,
                    proved: match proved {
                        Some((output, nanos)) => Some((output@, nanos)),
                        None => None,
                    },
                },
                Stage::Verified { record, output } => StageView::Verified {
                    record: record@,
                    output: output@,
                },
                Stage::Failed { fault } => StageView::Failed { fault },
            },
        }
    }
}

/// The proof's commitments are what they must be for the workload: the
/// input, where the proof commits to one, is the workload's own, and the
/// output is the output of the workload's kernel.
pub open spec fn commits_to(
    workload: WorkloadView,
    echo: Option<Workload>,
    output: Output,
) -> bool {
    &&& echo matches Some(committed) ==> committed@ == workload
    &&& output@ == workload.expected()
}

impl RunView {
    /// The state that the run is in.
    pub open spec fn phase(self) -> Phase {
        match self.stage {
            StageView::Idle => Phase::Idle,
            StageView::Setup { .. } => Phase::Setup,
            StageView::Proving { .. } => Phase::Proving,
            StageView::Verified { .. } => Phase::Verified,
            StageView::Failed { .. } => Phase::Failed,
        }
    }

    /// The run is over: verified or failed.
    pub open spec fn is_over(self) -> bool {
        self.phase() == Phase::Verified || self.phase() == Phase::Failed
    }

    /// The run's workload, from the moment it is known until the run fails.
    pub open spec fn workload(self) -> Option<WorkloadView> {
        match self.stage {
            StageView::Setup { workload } => Some(workload),
            StageView::Proving { workload, .. } => Some(workload),
            StageView::Verified { record, .. } => Some(record.workload),
            _ => None,
        }
    }

    /// The run's record: there is one if and only if the run is verified.
    pub open spec fn record(self) -> Option<StatsView> {
        match self.stage {
            StageView::Verified { record, .. } => Some(record),
            _ => None,
        }
    }

    /// The output that the proof commits to, once it has passed the check
    /// against the kernel.
    pub open spec fn output(self) -> Option<OutputView> {
        match self.stage {
            StageView::Proving { proved: Some((output, _)), .. } => Some(output),
            StageView::Verified { output, .. } => Some(output),
            _ => None,
        }
    }

    /// Why the run failed, if it did.
    pub open spec fn fault(self) -> Option<Fault> {
        match self.stage {
            StageView::Failed { fault } => Some(fault),
            _ => None,
        }
    }

    /// What holds of every run: its workload is of its kind; an output that
    /// it holds is the output of the kernel on its workload; and its record
    /// is the record of its backend and workload.
    pub open spec fn well_formed(self) -> bool {
        match self.stage {
            StageView::Idle => true,
            StageView::Setup { workload } => workload.kind() == self.kind,
            StageView::Proving { workload, setup_nanos, proved } => {
                &&& workload.kind() == self.kind
                &&& proved matches Some((output, _)) ==> output == workload.expected()
            },
            StageView::Verified { record, output } => {
                &&& record.workload.kind() == self.kind
                &&& output == record.workload.expected()
                &&& record == record_of(
                    self.backend,
                    record.workload,
                    record.setup_nanos,
                    record.prove_nanos,
                    record.verify_nanos,
                    record.metadata,
                )
            },
            StageView::Failed { .. } => true,
        }
    }

    /// The same run in another stage.
    pub open spec fn at(self, stage: StageView) -> RunView {
        RunView { backend: self.backend, kind: self.kind, stage }
    }

    /// The run failed, and the action that says so. Nothing of what the run
    /// held is kept.
    pub open spec fn failed(self, fault: Fault) -> (RunView, Action) {
        (self.at(StageView::Failed { fault }), Action::Abort { fault })
    }

    /// How far the run has come: one more with every step, up to four.
    pub open spec fn progress(self) -> nat {
        match self.stage {
            StageView::Idle => 0,
            StageView::Setup { .. } => 1,
            StageView::Proving { proved: None, .. } => 2,
            StageView::Proving { proved: Some(_), .. } => 3,
            StageView::Verified { .. } => 4,
            StageView::Failed { .. } => 4,
        }
    }

    /// The run after the event, and what it asks of its driver.
    pub open spec fn step(self, event: Event) -> (RunView, Action) {
        match self.stage {
            StageView::Idle => match event {
                Event::Start { first, second } => match resolved(
                    self.kind,
                    text_of(first),
                    text_of(second),
                ) {
                    Ok(workload) => (self.at(StageView::Setup { workload }), Action::Setup),
                    Err(_) => self.failed(Fault::Configuration),
                },
                _ => self.failed(Fault::OutOfOrder),
            },
            StageView::Setup { workload } => match event {
                Event::SetupDone { nanos } => (
                    self.at(StageView::Proving { workload, setup_nanos: nanos, proved: None }),
                    Action::Prove,
                ),
                Event::SetupFailed => self.failed(Fault::Setup),
                _ => self.failed(Fault::OutOfOrder),
            },
            StageView::Proving { workload, setup_nanos, proved: None } => match event {
                Event::Proved { echo, output, nanos } => if commits_to(workload, echo, output) {
                    (
                        self.at(
                            StageView::Proving {
                                workload,
                                setup_nanos,
                                proved: Some((output@, nanos)),
                            },
                        ),
                        Action::Verify,
                    )
                } else {
                    self.failed(Fault::Mismatch)
                },
                Event::ProveFailed => self.failed(Fault::Proving),
                _ => self.failed(Fault::OutOfOrder),
            },
            StageView::Proving {
                workload,
                setup_nanos,
                proved: Some((output, prove_nanos)),
            } => match event {
                Event::Checked { valid, nanos, told } => if valid {
                    (
                        self.at(
                            StageView::Verified {
                                record: record_of(
                                    self.backend,
                                    workload,
                                    setup_nanos,
                                    prove_nanos,
                                    nanos,
                                    told,
                                ),
                                output,
                            },
                        ),
                        Action::Report,
                    )
                } else {
                    self.failed(Fault::Verification)
                },
                Event::CheckFailed => self.failed(Fault::Verification),
                _ => self.failed(Fault::OutOfOrder),
            },
            StageView::Verified { .. } => (self, Action::Halt),
            StageView::Failed { .. } => (self, Action::Halt),
        }
    }
}

impl Run {
    #[verifier::type_invariant]
    spec fn inv(self) -> bool {
        self@.well_formed()
    }

    /// Makes an idle run of the given kind of workload on the given backend.
    pub fn new(backend: Backend, kind: WorkloadKind) -> (run: Run)
        ensures
            run@ == (RunView { backend, kind, stage: StageView::Idle }),
            run@.well_formed(),
    {
        Run { backend, kind, stage: Stage::Idle }
    }

    /// Takes the run one step further: from the state it is in and the event
    /// that its driver reports to the next state and the action that the
    /// driver is to perform.
    pub fn step(self, event: Event) -> (next: (Run, Action))
        ensures
            next.0@ == self@.step(event).0,
            next.1 == self@.step(event).1,
            next.0@.well_formed(),
    {
        proof {
            use_type_invariant(&self);
            lemma_step_keeps_well_formed(self@, event);
        }
        let Run { backend, kind, stage } = self;
        match stage {
            Stage::Idle => match event {
                Event::Start { first, second } => match resolve(kind, first, second) {
                    Ok(workload) => {
                        proof {
                            crate::config::lemma_resolved_kind(
                                kind,
                                text_of(first),
                                text_of(second),
                            );
                        }
                        (Run { backend, kind, stage: Stage::Setup { workload } }, Action::Setup)
                    },
                    Err(_) => Run::fail(backend, kind, Fault::Configuration),
                },
                _ => Run::fail(backend, kind, Fault::OutOfOrder),
            },
            Stage::Setup { workload } => match event {
                Event::SetupDone { nanos } => (
                    Run {
                        backend,
                        kind,
                        stage: Stage::Proving { workload, setup_nanos: nanos, proved: None },
                    },
                    Action::Prove,
                ),
                Event::SetupFailed => Run::fail(backend, kind, Fault::Setup),
                _ => Run::fail(backend, kind, Fault::OutOfOrder),
            },
            Stage::Proving { workload, setup_nanos, proved: None } => match event {
                Event::Proved { echo, output, nanos } => {
                    let echoed: bool = match &echo {
                        Some(committed) => committed.same(&workload),
                        None => true,
                    };
                    if echoed && output.same(&workload.evaluate()) {
                        (
                            Run {
                                backend,
                                kind,
                                stage: Stage::Proving {
                                    workload,
                                    setup_nanos,
                                    proved: Some((output, nanos)),
                                },
                            },
                            Action::Verify,
                        )
                    } else {
                        Run::fail(backend, kind, Fault::Mismatch)
                    }
                },
                Event::ProveFailed => Run::fail(backend, kind, Fault::Proving),
                _ => Run::fail(backend, kind, Fault::OutOfOrder),
            },
            Stage::Proving {
                workload,
                setup_nanos,
                proved: Some((output, prove_nanos)),
            } => match event {
                Event::Checked { valid, nanos, told } => {
                    if valid {
                        let record = Stats::assemble(
                            backend,
                            workload,
                            setup_nanos,
                            prove_nanos,
                            nanos,
                            told,
                        );
                        (
                            Run { backend, kind, stage: Stage::Verified { record, output } },
                            Action::Report,
                        )
                    } else {
                        Run::fail(backend, kind, Fault::Verification)
                    }
                },
                Event::CheckFailed => Run::fail(backend, kind, Fault::Verification),
                _ => Run::fail(backend, kind, Fault::OutOfOrder),
            },
            Stage::Verified { record, output } => (
                Run { backend, kind, stage: Stage::Verified { record, output } },
                Action::Halt,
            ),
            Stage::Failed { fault } => (
                Run { backend, kind, stage: Stage::Failed { fault } },
                Action::Halt,
            ),
        }
    }

    /// The failed run and the action that says so.
    fn fail(backend: Backend, kind: WorkloadKind, fault: Fault) -> (next: (Run, Action))
        ensures
            next.0@ == (RunView { backend, kind, stage: StageView::Failed { fault } }),
            next.1 == (Action::Abort { fault }),
    {
        (Run { backend, kind, stage: Stage::Failed { fault } }, Action::Abort { fault })
    }

    /// Returns the backend that the run drives.
    pub fn backend(&self) -> (backend: Backend)
        ensures
            backend == self@.backend,
    {
        self.backend
    }

    /// Returns the kind of workload that the run is for.
    pub fn kind(&self) -> (kind: WorkloadKind)
        ensures
            kind == self@.kind,
    {
        self.kind
    }

    /// Returns the state that the run is in. Like every run, this one is
    /// well formed.
    pub fn phase(&self) -> (phase: Phase)
        ensures
            phase == self@.phase(),
            self@.well_formed(),
    {
        proof {
            use_type_invariant(self);
        }
        match &self.stage {
            Stage::Idle => Phase::Idle,
            Stage::Setup { .. } => Phase::Setup,
            Stage::Proving { .. } => Phase::Proving,
            Stage::Verified { .. } => Phase::Verified,
            Stage::Failed { .. } => Phase::Failed,
        }
    }

    /// Returns the run's workload, from the moment it is known until the run
    /// fails.
    pub fn workload(&self) -> (workload: Option<&Workload>)
        ensures
            match workload {
                Some(w) => self@.workload() == Some(w@),
                None => self@.workload() is None,
            },
    {
        match &self.stage {
            Stage::Setup { workload } => Some(workload),
            Stage::Proving { workload, .. } => Some(workload),
            Stage::Verified { record, .. } => Some(&record.workload),
            _ => None,
        }
    }

    /// Returns the run's record, which there is if and only if the run is
    /// verified.
    pub fn record(&self) -> (record: Option<&Stats>)
        ensures
            match record {
                Some(r) => self@.record() == Some(r@),
                None => self@.record() is None,
            },
            record is Some <==> self@.phase() == Phase::Verified,
            self@.well_formed(),
    {
        proof {
            use_type_invariant(self);
        }
        match &self.stage {
            Stage::Verified { record, .. } => Some(record),
            _ => None,
        }
    }

    /// Returns the output that the proof commits to, once it has passed the
    /// check against the kernel.
    pub fn output(&self) -> (output: Option<&Output>)
        ensures
            match output {
                Some(o) => self@.output() == Some(o@),
                None => self@.output() is None,
            },
            self@.well_formed(),
    {
        proof {
            use_type_invariant(self);
        }
        match &self.stage {
            Stage::Proving { proved: Some((output, _)), .. } => Some(output),
            Stage::Verified { output, .. } => Some(output),
            _ => None,
        }
    }

    /// Returns why the run failed, if it did.
    pub fn fault(&self) -> (fault: Option<Fault>)
        ensures
            fault == self@.fault(),
    {
        match &self.stage {
            Stage::Failed { fault } => Some(*fault),
            _ => None,
        }
    }
}

/// A step keeps a run well formed.
pub proof fn lemma_step_keeps_well_formed(run: RunView, event: Event)
    requires
        run.well_formed(),
    ensures
        run.step(event).0.well_formed(),
        run.step(event).0.backend == run.backend,
        run.step(event).0.kind == run.kind,
{
    match run.stage {
        StageView::Idle => {
            if let Event::Start { first, second } = event {
                crate::config::lemma_resolved_kind(run.kind, text_of(first), text_of(second));
            }
        },
        StageView::Proving { workload, setup_nanos, proved: Some((output, prove_nanos)) } => {
            if let Event::Checked { valid, nanos, told } = event {
                crate::stats::lemma_kept_for_idempotent(told, run.backend, workload.kind());
            }
        },
        _ => {},
    }
}

/// A run that is over stays as it is, whatever it is told, and asks for
/// nothing more: it writes no second record and is never tried again.
pub proof fn lemma_over_is_final(run: RunView, event: Event)
    requires
        run.is_over(),
    ensures
        run.step(event) == (run, Action::Halt),
{
}

/// Every step of a run that is not over takes it forward, and nothing takes
/// it back: a run passes through each state at most once and is over after
/// four steps at the most.
pub proof fn lemma_step_advances(run: RunView, event: Event)
    requires
        !run.is_over(),
    ensures
        run.step(event).0.progress() > run.progress(),
        run.step(event).0.progress() <= 4,
        run.step(event).0.is_over() <==> run.step(event).0.progress() == 4,
        run.step(event).1 != Action::Halt,
{
}

/// Four steps end every run, wherever it stands and whatever it is told.
pub proof fn lemma_four_steps_end_a_run(
    run: RunView,
    first: Event,
    second: Event,
    third: Event,
    fourth: Event,
)
    ensures
        run.step(first).0.step(second).0.step(third).0.step(fourth).0.is_over(),
{
}

/// A run asks for its record to be written exactly when a step verifies it.
/// It then holds a record, which no run in another state does, and the
/// output that its proof commits to is the kernel's output on the record's
/// workload.
pub proof fn lemma_report_means_verified(run: RunView, event: Event)
    requires
        run.well_formed(),
    ensures
        run.step(event).1 == Action::Report <==> !run.is_over() && run.step(event).0.phase()
            == Phase::Verified,
        run.step(event).0.record() is Some <==> run.step(event).0.phase() == Phase::Verified,
        run.step(event).0.record() matches Some(record) ==> run.step(event).0.output() == Some(
            record.workload.expected(),
        ),
{
    lemma_step_keeps_well_formed(run, event);
}

/// A run fails exactly when a step asks to give up, and a failed run holds
/// the reason and nothing else: no workload, no timing, no record.
pub proof fn lemma_abort_means_failed(run: RunView, event: Event)
    ensures
        run.step(event).1 matches Action::Abort { fault } ==> run.step(event).0 == run.at(
            StageView::Failed { fault },
        ),
        !run.is_over() && run.step(event).0.phase() == Phase::Failed ==> run.step(event).1
            == (Action::Abort { fault: run.step(event).0.fault()->Some_0 }),
        run.step(event).0.phase() == Phase::Failed ==> run.step(event).0.record() is None
            && run.step(event).0.workload() is None && run.step(event).0.output() is None,
{
}

/// A sound backend verifies the run. Where the overrides give a workload,
/// setup succeeds, the proof commits to the kernel's output and the
/// verifier accepts it, the run goes from idle through setup and proving to
/// verified, asks for setup, proof, verification and the record in turn,
/// and its record is that of the workload with the three durations
/// reported.
pub proof fn lemma_sound_run_is_verified(
    backend: Backend,
    kind: WorkloadKind,
    first: Option<String>,
    second: Option<String>,
    echo: Option<Workload>,
    output: Output,
    setup_nanos: u128,
    prove_nanos: u128,
    verify_nanos: u128,
    told: Metadata,
)
    requires
        resolved(kind, text_of(first), text_of(second)) matches Ok(workload) && commits_to(
            workload,
            echo,
            output,
        ),
    ensures
        ({
            let workload = resolved(kind, text_of(first), text_of(second))->Ok_0;
            let idle = RunView { backend, kind, stage: StageView::Idle };
            let (in_setup, first_action) = idle.step(Event::Start { first, second });
            let (proving, second_action) = in_setup.step(Event::SetupDone { nanos: setup_nanos });
            let (checking, third_action) = proving.step(
                Event::Proved { echo, output, nanos: prove_nanos },
            );
            let (verified, fourth_action) = checking.step(
                Event::Checked { valid: true, nanos: verify_nanos, told },
            );
            &&& in_setup.phase() == Phase::Setup && first_action == Action::Setup
            &&& proving.phase() == Phase::Proving && second_action == Action::Prove
            &&& checking.phase() == Phase::Proving && third_action == Action::Verify
            &&& verified.phase() == Phase::Verified && fourth_action == Action::Report
            &&& verified.record() == Some(
                record_of(backend, workload, setup_nanos, prove_nanos, verify_nanos, told),
            )
            &&& verified.output() == Some(workload.expected())
        }),
{
}

/// A proof that the verifier turns down, or cannot check, fails the run,
/// and the run holds no record.
pub proof fn lemma_rejected_proof_is_fatal(run: RunView, nanos: u128, told: Metadata)
    requires
        run.stage matches StageView::Proving { proved: Some(_), .. },
    ensures
        run.step(Event::Checked { valid: false, nanos, told }) == run.failed(Fault::Verification),
        run.step(Event::CheckFailed) == run.failed(Fault::Verification),
        run.failed(Fault::Verification).0.record() is None,
{
}

/// A proof that commits to anything but the kernel's output fails the run
/// before the verifier is asked, whatever the verifier would have said. So
/// does a proof that commits to another input than the run's.
pub proof fn lemma_wrong_commitment_is_fatal(
    run: RunView,
    echo: Option<Workload>,
    output: Output,
    nanos: u128,
)
    requires
        run.stage matches StageView::Proving { workload, proved: None, .. } && (output@
            != workload.expected() || (echo matches Some(committed) && committed@ != workload)),
    ensures
        run.step(Event::Proved { echo, output, nanos }) == run.failed(Fault::Mismatch),
        run.failed(Fault::Mismatch).0.record() is None,
{
}

/// An error in any phase fails the run with the fault of that phase.
pub proof fn lemma_phase_errors_are_fatal(
    run: RunView,
    first: Option<String>,
    second: Option<String>,
)
    ensures
        run.stage is Idle && resolved(run.kind, text_of(first), text_of(second)) is Err
            ==> run.step(Event::Start { first, second }) == run.failed(Fault::Configuration),
        run.stage is Setup ==> run.step(Event::SetupFailed) == run.failed(Fault::Setup),
        run.stage matches StageView::Proving { proved: None, .. } ==> run.step(Event::ProveFailed)
            == run.failed(Fault::Proving),
{
}

} // verus!
