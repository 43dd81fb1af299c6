//! The process-supervision state machine: a store of one optional worker
//! handle plus a running flag, and the start/stop/status transitions over it.
//!
//! The store records the worker by an opaque numeric token handed in by the
//! host when it spawns the process; spawning and killing are host work, so
//! each transition takes the outcome of that work as an argument and is
//! verified for every outcome. A start is two transitions: `begin_start`
//! takes the prior handle out of the store so the host can terminate it, and
//! `finish_start` records the outcome of the new launch. A stop is driven by
//! `stop_target` (who to kill, if anyone) followed by `stop` with the kill
//! outcome.

use vstd::prelude::*;

verus! {

/// Outcome of the host's attempt to launch a new worker process: the token of
/// the new process, or the launch error's text.
pub enum SpawnOutcome {
    Spawned(u64),
    SpawnFailed(String),
}

/// Outcome of the host's attempt to terminate the recorded worker process.
pub enum KillOutcome {
    Killed,
    KillFailed(String),
}

/// Abstract state of the supervisor: the recorded worker handle (at most one)
/// and the running flag.
pub struct SupervisorModel {
    pub handle: Option<u64>,
    pub running: bool,
}

/// The store is consistent: the flag is set exactly while a handle is stored.
pub open spec fn model_wf(m: SupervisorModel) -> bool {
    m.running <==> m.handle is Some
}

/// The state the host starts from: no handle recorded, flag down.
pub open spec fn model_init() -> SupervisorModel {
    SupervisorModel { handle: None, running: false }
}

/// One supervisor transition, with the outcome of the host work it reacted to.
pub enum SupervisorOp {
    BeginStart,
    FinishStart(SpawnOutcome),
    Stop(Option<KillOutcome>),
}

/// What each transition does to the store.
pub open spec fn step(m: SupervisorModel, op: SupervisorOp) -> SupervisorModel {
    match op {
        SupervisorOp::BeginStart => SupervisorModel { handle: None, running: false },
        SupervisorOp::FinishStart(o) => match o {
            SpawnOutcome::Spawned(id) => SupervisorModel { handle: Some(id), running: true },
            SpawnOutcome::SpawnFailed(_) => SupervisorModel { handle: None, running: false },
        },
        SupervisorOp::Stop(o) => match o {
            None => m,
            Some(KillOutcome::Killed) => SupervisorModel { handle: None, running: false },
            Some(KillOutcome::KillFailed(_)) => m,
        },
    }
}

/// The state after a whole sequence of transitions.
pub open spec fn run_from(m: SupervisorModel, ops: Seq<SupervisorOp>) -> SupervisorModel
    decreases ops.len(),
{
    if ops.len() == 0 {
        m
    } else {
        step(run_from(m, ops.drop_last()), ops.last())
    }
}

/// The supervisor: both fields are held together in one value, so a caller
/// holding it exclusively can never observe a torn (flag, handle) pair.
pub struct Supervisor {
    handle: Option<u64>,
    running: bool,
}

impl View for Supervisor {
    type V = SupervisorModel;

    closed spec fn view(&self) -> SupervisorModel {
        SupervisorModel { handle: self.handle, running: self.running }
    }
}

impl Supervisor {
    /// A fresh supervisor: nothing recorded, flag down.
    pub fn new() -> (s: Self)
        ensures
            s@ == model_init(),
    {
        Supervisor { handle: None, running: false }
    }

    /// The running flag, read under the same exclusive access as the
    /// transitions; never fails.
    pub fn status(&self) -> (r: Result<bool, String>)
        ensures
            r == Ok::<bool, String>(self@.running),
    {
        Ok(self.running)
    }

    /// The handle a stop would have to terminate: the recorded one, if any.
    pub fn stop_target(&self) -> (t: Option<u64>)
        ensures
            t == self@.handle,
    {
        self.handle
    }

    /// First half of a start: take the prior handle out of the store and hand
    /// it back so the host can terminate it (best effort); the store is left
    /// empty with the flag down, ready for `finish_start`.
    pub fn begin_start(&mut self) -> (prior: Option<u64>)
        ensures
            prior == old(self)@.handle,
            final(self)@ == step(old(self)@, SupervisorOp::BeginStart),
    {
        self.running = false;
        let prior = self.handle;
        self.handle = None;
        prior
    }

    /// Second half of a start: record the launch outcome. On success the new
    /// handle is stored and the flag raised; on failure nothing is recorded,
    /// the flag stays down, and the error text is passed on.
    pub fn finish_start(&mut self, outcome: SpawnOutcome) -> (r: Result<String, String>)
        requires
            old(self)@.handle is None,
        ensures
            final(self)@ == step(old(self)@, SupervisorOp::FinishStart(outcome)),
            ({
                match outcome {
                    SpawnOutcome::Spawned(_) => r is Ok && r->Ok_0@ == "Python runner started"@,
                    SpawnOutcome::SpawnFailed(e) => r is Err && r->Err_0@
                        == "Failed to start Python runner: "@ + e@,
                }
            }),
    {
        match outcome {
            SpawnOutcome::Spawned(id) => {
                self.handle = Some(id);
                self.running = true;
                Ok("Python runner started".to_owned())
            },
            SpawnOutcome::SpawnFailed(e) => {
                self.handle = None;
                self.running = false;
                Err("Failed to start Python runner: ".to_owned().concat(e.as_str()))
            },
        }
    }

    /// A stop. With nothing recorded there is nothing to kill: the state is
    /// untouched and the result is an informational success. With a handle
    /// recorded, a successful kill clears the store and lowers the flag; a
    /// failed kill leaves handle and flag exactly as they were, so the stop
    /// can be retried, and passes the error text on.
    pub fn stop(&mut self, outcome: Option<KillOutcome>) -> (r: Result<String, String>)
        requires
            (outcome is Some) <==> (old(self)@.handle is Some),
        ensures
            final(self)@ == step(old(self)@, SupervisorOp::Stop(outcome)),
            ({
                match outcome {
                    None => r is Ok && r->Ok_0@ == "No runner process to stop"@,
                    Some(KillOutcome::Killed) => r is Ok && r->Ok_0@ == "Python runner stopped"@,
                    Some(KillOutcome::KillFailed(e)) => r is Err && r->Err_0@
                        == "Failed to stop Python runner: "@ + e@,
                }
            }),
    {
        match outcome {
            None => Ok("No runner process to stop".to_owned()),
            Some(KillOutcome::Killed) => {
                self.handle = None;
                self.running = false;
                Ok("Python runner stopped".to_owned())
            },
            Some(KillOutcome::KillFailed(e)) => Err(
                "Failed to stop Python runner: ".to_owned().concat(e.as_str()),
            ),
        }
    }
}

/// The fixed launch contract of the worker: the interpreter to run, its
/// single entry-script argument, and the working directory to run it in.
/// The host spawns exactly this, with standard output and error captured.
pub fn worker_command() -> (c: (String, String, String))
    ensures
        c.0@ == "python"@,
        c.1@ == "main.py"@,
        c.2@ == "src"@,
{
    ("python".to_owned(), "main.py".to_owned(), "src".to_owned())
}

/// The fixed delay, in whole seconds, after which host startup invokes one
/// start of the worker.
pub fn startup_delay_secs() -> (r: u64)
    ensures
        r == 2,
{
    2
}

/// Law: every single transition keeps the store consistent — the flag is set
/// exactly while the (at most one) handle is stored.
pub proof fn lemma_step_preserves_wf(m: SupervisorModel, op: SupervisorOp)
    requires
        model_wf(m),
    ensures
        model_wf(step(m, op)),
{
}

/// Law: from the initial state, every sequence of start/stop transitions
/// leaves the store consistent: at most one handle is recorded at any instant,
/// and the flag is up exactly while one is.
pub proof fn lemma_run_wf(ops: Seq<SupervisorOp>)
    ensures
        model_wf(run_from(model_init(), ops)),
    decreases ops.len(),
{
    if ops.len() == 0 {
    } else {
        lemma_run_wf(ops.drop_last());
        lemma_step_preserves_wf(run_from(model_init(), ops.drop_last()), ops.last());
    }
}

/// Law: a start first empties the store — the prior handle leaves it before
/// anything new is recorded (and `begin_start` hands exactly that handle back
/// for termination, once) — and after the full start the store holds exactly
/// the newly spawned handle, or none when the launch failed. The handle
/// recorded before the start is never still recorded after it.
pub proof fn lemma_start_replaces_prior(m: SupervisorModel, o: SpawnOutcome)
    ensures
        step(m, SupervisorOp::BeginStart).handle is None,
        ({
            let after = step(step(m, SupervisorOp::BeginStart), SupervisorOp::FinishStart(o));
            match o {
                SpawnOutcome::Spawned(id) => after.handle == Some(id) && after.running,
                SpawnOutcome::SpawnFailed(_) => after.handle is None && !after.running,
            }
        }),
{
}

/// Law: stopping with nothing recorded is not an error path: the state is
/// exactly unchanged, and in a consistent state the flag therefore stays down.
pub proof fn lemma_stop_idle_is_noop(m: SupervisorModel)
    requires
        model_wf(m),
        m.handle is None,
    ensures
        step(m, SupervisorOp::Stop(None)) == m,
        !step(m, SupervisorOp::Stop(None)).running,
{
}

/// Law: a failed kill leaves the recorded handle and the flag exactly as they
/// were, so the stop can be retried.
pub proof fn lemma_stop_failure_leaves_state(m: SupervisorModel, e: String)
    ensures
        step(m, SupervisorOp::Stop(Some(KillOutcome::KillFailed(e)))) == m,
{
}

} // verus!
