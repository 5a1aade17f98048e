//! The monitor state machine: owns at most one active sync process, reacts
//! to submitted work, tick and cancel inputs, and emits exactly one typed
//! event per input. Terminal-outcome detection takes priority over progress
//! reporting, and a process is dropped from the state the first time a
//! terminal outcome is observed.
//!
//! The caller performs the outside work: it polls the child once per tick
//! and hands the observation in with the tick; the returned action says
//! what to do with the child handle it holds.

use vstd::prelude::*;
use vstd::pervasive::unreached;

use crate::process::{first_stats, progress, CommandError, ProcessInfo, ProcessPoll};

verus! {

/// One event of the monitor's output stream.
#[derive(Debug)]
pub enum Event {
    /// The monitor is ready to accept inputs.
    Ready,
    /// Heartbeat: nothing new this cycle.
    Tick,
    /// A fresh progress sample, in bytes transferred and bytes total.
    Progress { current: u64, max: u64 },
    /// The active process exited with code zero.
    Succeeded,
    /// The active process ended otherwise.
    Failed(CommandError),
    /// A cancel input was processed.
    Cancelled,
}

/// One input to the monitor.
#[derive(Debug)]
pub enum Input {
    /// Hand a freshly launched process over to the monitor.
    Process(ProcessInfo),
    /// Drive one polling cycle, carrying what a non-blocking poll of the
    /// child observed: its wait status and the lines currently buffered on
    /// its two output streams.
    Tick { poll: ProcessPoll, stdout_lines: Vec<String>, stderr_lines: Vec<String> },
    /// Stop monitoring the active process, if any.
    Cancel,
}

/// What the caller must do with the child handle it holds for the monitor.
#[derive(Clone, Copy, Debug, PartialEq, Eq, Structural)]
pub enum Action {
    /// Keep holding whatever is held.
    Retain,
    /// The process is done with: release its handle without touching it.
    Discard,
    /// Send the process a kill signal, best effort, and release its handle.
    Kill,
}

/// The monitor's state: not yet activated, or ready with at most one
/// process under watch.
pub enum State {
    Starting,
    Ready { process: Option<ProcessInfo> },
}

/// The shape of an event, with the payloads that identify it: progress
/// samples and exit codes, but not the diagnostic text.
#[derive(PartialEq, Eq, Structural)]
pub enum EventKind {
    Ready,
    Tick,
    Progress(u64, u64),
    Succeeded,
    FailedExit(i32),
    FailedAbnormal,
    Cancelled,
}

/// The shape of an event.
pub open spec fn kind_of(e: Event) -> EventKind {
    match e {
        Event::Ready => EventKind::Ready,
        Event::Tick => EventKind::Tick,
        Event::Progress { current, max } => EventKind::Progress(current, max),
        Event::Succeeded => EventKind::Succeeded,
        Event::Failed(err) => match err {
            CommandError::Exited { code, .. } => EventKind::FailedExit(code),
            _ => EventKind::FailedAbnormal,
        },
        Event::Cancelled => EventKind::Cancelled,
    }
}

/// The terminal event shape a terminal wait observation classifies to.
pub open spec fn terminal_kind(poll: ProcessPoll) -> EventKind
    recommends
        poll.is_terminal(),
{
    match poll {
        ProcessPoll::Exited(c) => match c {
            Some(code) => if code == 0 {
                EventKind::Succeeded
            } else {
                EventKind::FailedExit(code)
            },
            None => EventKind::FailedAbnormal,
        },
        _ => EventKind::FailedAbnormal,
    }
}

/// The process under watch after one input is processed.
pub open spec fn spec_next_process(p: Option<ProcessInfo>, input: Input) -> Option<ProcessInfo> {
    match input {
        Input::Process(new_process) => Some(new_process),
        Input::Tick { poll, .. } => if p is Some && poll.is_terminal() {
            None
        } else {
            p
        },
        Input::Cancel => None,
    }
}

/// The shape of the one event emitted for one input.
pub open spec fn spec_event_kind(p: Option<ProcessInfo>, input: Input) -> EventKind {
    match input {
        Input::Process(_) => EventKind::Tick,
        Input::Tick { poll, stderr_lines, .. } => {
            if p is None {
                EventKind::Tick
            } else if poll.is_terminal() {
                terminal_kind(poll)
            } else {
                match first_stats(stderr_lines.deep_view()) {
                    Some(sample) => EventKind::Progress(sample.0, sample.1),
                    None => EventKind::Tick,
                }
            }
        },
        Input::Cancel => EventKind::Cancelled,
    }
}

/// The action the caller must take for one input.
pub open spec fn spec_action(p: Option<ProcessInfo>, input: Input) -> Action {
    match input {
        Input::Process(_) => Action::Retain,
        Input::Tick { poll, .. } => if p is Some && poll.is_terminal() {
            Action::Discard
        } else {
            Action::Retain
        },
        Input::Cancel => if p is Some {
            Action::Kill
        } else {
            Action::Retain
        },
    }
}

impl State {
    /// The process under watch; none before activation.
    pub open spec fn spec_process(self) -> Option<ProcessInfo> {
        match self {
            State::Starting => None,
            State::Ready { process } => process,
        }
    }

    /// First activation: become ready, with nothing under watch, and
    /// announce readiness so the caller can submit work and drive ticks.
    pub fn activate(self) -> (r: (State, Event))
        requires
            self is Starting,
        ensures
            r.0 == (State::Ready { process: Option::<ProcessInfo>::None }),
            r.1 is Ready,
    {
        (State::Ready { process: None }, Event::Ready)
    }

    /// Processes one input and emits exactly one event.
    ///
    /// On a tick with a process under watch, a terminal wait observation
    /// wins over progress: code zero emits `Succeeded`, a nonzero code
    /// emits `Failed` carrying that code and the buffered output, a
    /// missing code or failed wait emits `Failed` with abnormal
    /// termination, and in each case the process leaves the state. Only a
    /// still-running process has its error stream scanned for the first
    /// decodable progress sample. Cancel always emits `Cancelled`, and
    /// kills the process exactly when one was under watch.
    pub fn next(self, input: Input) -> (r: (State, Event, Action))
        requires
            self is Ready,
        ensures
            r.0 == (State::Ready { process: spec_next_process(self.spec_process(), input) }),
            kind_of(r.1) == spec_event_kind(self.spec_process(), input),
            r.2 == spec_action(self.spec_process(), input),
            match input {
                Input::Tick { poll, stdout_lines, stderr_lines } => (r.1 matches Event::Failed(
                    err,
                ) ==> match poll {
                    ProcessPoll::Exited(c) => match c {
                        Some(code) => self.spec_process().unwrap().is_exit_error(
                            err,
                            code,
                            stdout_lines.deep_view(),
                            stderr_lines.deep_view(),
                        ),
                        None => self.spec_process().unwrap().is_terminated_error(err),
                    },
                    _ => self.spec_process().unwrap().is_terminated_error(err),
                }),
                _ => true,
            },
    {
        match self {
            State::Ready { process } => match input {
                Input::Process(new_process) => (
                    State::Ready { process: Some(new_process) },
                    Event::Tick,
                    Action::Retain,
                ),
                Input::Tick { poll, stdout_lines, stderr_lines } => match process {
                    Some(info) => match info.succeeded(&poll, &stdout_lines, &stderr_lines) {
                        Some(outcome) => match outcome {
                            Ok(()) => (
                                State::Ready { process: None },
                                Event::Succeeded,
                                Action::Discard,
                            ),
                            Err(err) => (
                                State::Ready { process: None },
                                Event::Failed(err),
                                Action::Discard,
                            ),
                        },
                        None => match progress(&stderr_lines) {
                            Some(sample) => (
                                State::Ready { process: Some(info) },
                                Event::Progress { current: sample.0, max: sample.1 },
                                Action::Retain,
                            ),
                            None => (
                                State::Ready { process: Some(info) },
                                Event::Tick,
                                Action::Retain,
                            ),
                        },
                    },
                    None => (State::Ready { process: None }, Event::Tick, Action::Retain),
                },
                Input::Cancel => {
                    let kill = process.is_some();
                    (
                        State::Ready { process: None },
                        Event::Cancelled,
                        if kill {
                            Action::Kill
                        } else {
                            Action::Retain
                        },
                    )
                },
            },
            State::Starting => unreached(),
        }
    }
}

/// The shapes of the events a ready monitor emits over a whole run of
/// inputs, starting with `p` under watch.
pub open spec fn run_kinds(p: Option<ProcessInfo>, inputs: Seq<Input>) -> Seq<EventKind>
    decreases inputs.len(),
{
    if inputs.len() == 0 {
        Seq::empty()
    } else {
        seq![spec_event_kind(p, inputs[0])] + run_kinds(
            spec_next_process(p, inputs[0]),
            inputs.drop_first(),
        )
    }
}

/// Whether an event shape reports that the watched process ended.
pub open spec fn is_terminal_kind(k: EventKind) -> bool {
    k is Succeeded || k is FailedExit || k is FailedAbnormal
}

/// How many events of a run report that a process ended.
pub open spec fn count_terminal(ks: Seq<EventKind>) -> nat
    decreases ks.len(),
{
    if ks.len() == 0 {
        0
    } else {
        (if is_terminal_kind(ks[0]) {
            1nat
        } else {
            0nat
        }) + count_terminal(ks.drop_first())
    }
}

/// Whether a run of inputs submits a new process at some point.
pub open spec fn no_submit(inputs: Seq<Input>) -> bool {
    forall|i: int| 0 <= i < inputs.len() ==> !(inputs[i] is Process)
}

/// Whether an input is a tick whose poll observed the process still running.
pub open spec fn is_running_tick(input: Input) -> bool {
    input matches Input::Tick { poll, .. } && !poll.is_terminal()
}

/// A run emits exactly one event per input.
pub proof fn lemma_run_len(p: Option<ProcessInfo>, inputs: Seq<Input>)
    ensures
        run_kinds(p, inputs).len() == inputs.len(),
    decreases inputs.len(),
{
    if inputs.len() > 0 {
        lemma_run_len(spec_next_process(p, inputs[0]), inputs.drop_first());
    }
}

proof fn lemma_run_unfold(p: Option<ProcessInfo>, inputs: Seq<Input>)
    requires
        inputs.len() > 0,
    ensures
        run_kinds(p, inputs).len() == inputs.len(),
        run_kinds(p, inputs)[0] == spec_event_kind(p, inputs[0]),
        run_kinds(p, inputs).drop_first() =~= run_kinds(
            spec_next_process(p, inputs[0]),
            inputs.drop_first(),
        ),
{
    lemma_run_len(p, inputs);
    lemma_run_len(spec_next_process(p, inputs[0]), inputs.drop_first());
}

/// With nothing under watch and no new submission, the monitor only
/// heartbeats or acknowledges cancellations: it emits no progress, success
/// or failure event.
pub proof fn lemma_idle_run(inputs: Seq<Input>)
    requires
        no_submit(inputs),
    ensures
        run_kinds(None, inputs).len() == inputs.len(),
        forall|i: int|
            0 <= i < inputs.len() ==> (#[trigger] run_kinds(None, inputs)[i]) matches EventKind::Tick
                || run_kinds(None, inputs)[i] matches EventKind::Cancelled,
    decreases inputs.len(),
{
    lemma_run_len(None, inputs);
    if inputs.len() > 0 {
        lemma_run_unfold(None, inputs);
        assert(inputs.drop_first().len() == inputs.len() - 1);
        assert(no_submit(inputs.drop_first())) by {
            assert(forall|i: int|
                0 <= i < inputs.drop_first().len() ==> inputs.drop_first()[i] == inputs[i + 1]);
        }
        assert(spec_next_process(None, inputs[0]) is None);
        lemma_idle_run(inputs.drop_first());
        assert forall|i: int| 0 <= i < inputs.len() implies (#[trigger] run_kinds(None, inputs)[i])
            matches EventKind::Tick || run_kinds(None, inputs)[i] matches EventKind::Cancelled by {
            if i > 0 {
                assert(run_kinds(None, inputs)[i] == run_kinds(None, inputs.drop_first())[i - 1]);
            }
        }
    }
}

/// A run whose events are all heartbeats or cancellations reports no
/// process as ended.
pub proof fn lemma_count_terminal_zero(ks: Seq<EventKind>)
    requires
        forall|i: int| 0 <= i < ks.len() ==> !is_terminal_kind(#[trigger] ks[i]),
    ensures
        count_terminal(ks) == 0,
    decreases ks.len(),
{
    if ks.len() > 0 {
        lemma_count_terminal_zero(ks.drop_first());
    }
}

/// However a run unfolds without a new submission, the monitor reports a
/// process as ended at most once, and never when nothing was under watch.
pub proof fn lemma_at_most_one_terminal(p: Option<ProcessInfo>, inputs: Seq<Input>)
    requires
        no_submit(inputs),
    ensures
        count_terminal(run_kinds(p, inputs)) <= 1,
        p is None ==> count_terminal(run_kinds(p, inputs)) == 0,
    decreases inputs.len(),
{
    if p is None {
        lemma_idle_run(inputs);
        lemma_count_terminal_zero(run_kinds(None, inputs));
    } else if inputs.len() > 0 {
        lemma_run_unfold(p, inputs);
        assert(no_submit(inputs.drop_first())) by {
            assert(forall|i: int|
                0 <= i < inputs.drop_first().len() ==> inputs.drop_first()[i] == inputs[i + 1]);
        }
        let k0 = spec_event_kind(p, inputs[0]);
        let watched = spec_next_process(p, inputs[0]);
        lemma_at_most_one_terminal(watched, inputs.drop_first());
        if is_terminal_kind(k0) {
            assert(watched is None);
        }
    }
}

/// When the first terminal wait observation arrives at position `k`, after
/// ticks that all observed the process still running, the monitor reports
/// the end of the watched process exactly once: at position `k`, with the
/// shape that observation classifies to.
pub proof fn lemma_exactly_one_terminal(p: ProcessInfo, inputs: Seq<Input>, k: int)
    requires
        no_submit(inputs),
        0 <= k < inputs.len(),
        forall|j: int| 0 <= j < k ==> is_running_tick(#[trigger] inputs[j]),
        inputs[k] matches Input::Tick { poll, .. } && poll.is_terminal(),
    ensures
        run_kinds(Some(p), inputs).len() == inputs.len(),
        inputs[k] matches Input::Tick { poll, .. } ==> run_kinds(Some(p), inputs)[k]
            == terminal_kind(poll),
        count_terminal(run_kinds(Some(p), inputs)) == 1,
        forall|i: int|
            0 <= i < inputs.len() && i != k ==> !is_terminal_kind(
                #[trigger] run_kinds(Some(p), inputs)[i],
            ),
    decreases k,
{
    lemma_run_unfold(Some(p), inputs);
    let ks = run_kinds(Some(p), inputs);
    let rest = inputs.drop_first();
    assert(no_submit(rest) && forall|i: int| 0 <= i < rest.len() ==> rest[i] == inputs[i + 1]);
    if k == 0 {
        assert(is_terminal_kind(ks[0]));
        assert(spec_next_process(Some(p), inputs[0]) is None);
        lemma_idle_run(rest);
        lemma_count_terminal_zero(run_kinds(None, rest));
        assert(count_terminal(ks) == 1) by {
            assert(ks.drop_first() =~= run_kinds(None, rest));
        }
        assert forall|i: int| 0 <= i < inputs.len() && i != 0 implies !is_terminal_kind(
            #[trigger] ks[i],
        ) by {
            assert(ks[i] == run_kinds(None, rest)[i - 1]);
        }
    } else {
        assert(inputs[0] matches Input::Tick { poll, .. } && !poll.is_terminal());
        assert(spec_next_process(Some(p), inputs[0]) == Some(p));
        assert(!is_terminal_kind(ks[0]));
        lemma_exactly_one_terminal(p, rest, k - 1);
        let tail_kinds = run_kinds(Some(p), rest);
        assert(ks.drop_first() =~= tail_kinds);
        assert(ks[k] == tail_kinds[k - 1]);
        assert forall|i: int| 0 <= i < inputs.len() && i != k implies !is_terminal_kind(
            #[trigger] ks[i],
        ) by {
            if i > 0 {
                assert(ks[i] == tail_kinds[i - 1]);
            }
        }
    }
}

/// A process that is seen to exit with code zero yields exactly one
/// `Succeeded` event and no `Failed` event.
pub proof fn lemma_success_exactly_once(p: ProcessInfo, inputs: Seq<Input>, k: int)
    requires
        no_submit(inputs),
        0 <= k < inputs.len(),
        forall|j: int| 0 <= j < k ==> is_running_tick(#[trigger] inputs[j]),
        inputs[k] matches Input::Tick { poll, .. } && poll == ProcessPoll::Exited(Some(0i32)),
    ensures
        run_kinds(Some(p), inputs).len() == inputs.len(),
        run_kinds(Some(p), inputs)[k] is Succeeded,
        count_terminal(run_kinds(Some(p), inputs)) == 1,
        forall|i: int|
            0 <= i < inputs.len() ==> !((#[trigger] run_kinds(Some(p), inputs)[i]) is FailedExit)
                && !(run_kinds(Some(p), inputs)[i] is FailedAbnormal),
{
    lemma_exactly_one_terminal(p, inputs, k);
}

/// A process that is seen to exit with a nonzero code `n` yields exactly
/// one `Failed` event, whose outcome carries `n`, and no `Succeeded` event.
pub proof fn lemma_failure_carries_code(p: ProcessInfo, inputs: Seq<Input>, k: int, n: i32)
    requires
        no_submit(inputs),
        0 <= k < inputs.len(),
        n != 0,
        forall|j: int| 0 <= j < k ==> is_running_tick(#[trigger] inputs[j]),
        inputs[k] matches Input::Tick { poll, .. } && poll == ProcessPoll::Exited(Some(n)),
    ensures
        run_kinds(Some(p), inputs).len() == inputs.len(),
        run_kinds(Some(p), inputs)[k] == EventKind::FailedExit(n),
        count_terminal(run_kinds(Some(p), inputs)) == 1,
        forall|i: int|
            0 <= i < inputs.len() ==> !((#[trigger] run_kinds(Some(p), inputs)[i]) is Succeeded),
{
    lemma_exactly_one_terminal(p, inputs, k);
}

/// A process seen to end without a usable exit code, or whose wait call
/// failed, yields exactly one `Failed` event with abnormal termination.
pub proof fn lemma_abnormal_termination(p: ProcessInfo, inputs: Seq<Input>, k: int)
    requires
        no_submit(inputs),
        0 <= k < inputs.len(),
        forall|j: int| 0 <= j < k ==> is_running_tick(#[trigger] inputs[j]),
        inputs[k] matches Input::Tick { poll, .. } && (poll == ProcessPoll::Exited(
            Option::<i32>::None,
        ) || poll == ProcessPoll::WaitFailed),
    ensures
        run_kinds(Some(p), inputs).len() == inputs.len(),
        run_kinds(Some(p), inputs)[k] is FailedAbnormal,
        count_terminal(run_kinds(Some(p), inputs)) == 1,
{
    lemma_exactly_one_terminal(p, inputs, k);
}

/// Cancelling with a process under watch kills it and yields exactly one
/// `Cancelled` event; no progress, success or failure event for that
/// process can follow, as long as no new process is submitted.
pub proof fn lemma_cancel_active(p: ProcessInfo, inputs: Seq<Input>)
    requires
        no_submit(inputs),
        inputs.len() > 0,
        inputs[0] is Cancel,
    ensures
        spec_action(Some(p), inputs[0]) == Action::Kill,
        run_kinds(Some(p), inputs).len() == inputs.len(),
        run_kinds(Some(p), inputs)[0] is Cancelled,
        count_terminal(run_kinds(Some(p), inputs)) == 0,
        forall|i: int|
            0 < i < inputs.len() ==> (#[trigger] run_kinds(Some(p), inputs)[i])
                matches EventKind::Tick || run_kinds(Some(p), inputs)[i]
                matches EventKind::Cancelled,
{
    lemma_run_unfold(Some(p), inputs);
    let ks = run_kinds(Some(p), inputs);
    let rest = inputs.drop_first();
    assert(no_submit(rest) && forall|i: int| 0 <= i < rest.len() ==> rest[i] == inputs[i + 1]);
    lemma_idle_run(rest);
    assert(ks.drop_first() =~= run_kinds(None, rest));
    assert forall|i: int| 0 < i < inputs.len() implies (#[trigger] ks[i]) matches EventKind::Tick
        || ks[i] matches EventKind::Cancelled by {
        assert(ks[i] == run_kinds(None, rest)[i - 1]);
    }
    assert forall|i: int| 0 <= i < ks.len() implies !is_terminal_kind(#[trigger] ks[i]) by {
        if i > 0 {
            assert(ks[i] == run_kinds(None, rest)[i - 1]);
        }
    }
    lemma_count_terminal_zero(ks);
}

/// Cancelling with nothing under watch yields `Cancelled` and has no other
/// observable effect: nothing is killed and nothing enters the state.
pub proof fn lemma_cancel_idle()
    ensures
        spec_event_kind(None, Input::Cancel) == EventKind::Cancelled,
        spec_next_process(None, Input::Cancel) is None,
        spec_action(None, Input::Cancel) == Action::Retain,
{
}

} // verus!
