//! The run orchestrator: a five-stage sequential lifecycle — pull the
//! image, create a container, start it, wait for it to leave the running
//! state, capture its log only on a nonzero exit with a sink configured —
//! followed by an unconditional removal request.
//!
//! Each engine call and each stream read is a suspension point performed
//! outside this crate; the decisions between them are the verified step
//! function [`run_step`]. A whole invocation is a trace of observed events,
//! and the lifecycle guarantees are proved over such traces.

use vstd::prelude::*;

use crate::errors::EngineError;
use crate::errors::EngineErrorModel;

verus! {

/// What one `run` invocation was asked to do.
pub struct RunConfig {
    /// The image reference to pull and instantiate.
    pub image: String,
    /// The command to execute inside the fresh container.
    pub cmd: Vec<String>,
    /// Whether an output sink is configured for failure-path log capture.
    pub has_sink: bool,
}

/// Spec-level value of a [`RunConfig`].
pub ghost struct RunConfigModel {
    pub image: Seq<char>,
    pub cmd: Seq<Seq<char>>,
    pub has_sink: bool,
}

impl View for RunConfig {
    type V = RunConfigModel;

    open spec fn view(&self) -> RunConfigModel {
        RunConfigModel {
            image: self.image@,
            cmd: self.cmd@.map(|i: int, s: String| s@),
            has_sink: self.has_sink,
        }
    }
}

/// Where an invocation stands. The container identifier assigned by the
/// engine at creation is carried until the removal request.
#[derive(Debug, PartialEq, Eq)]
pub enum RunState {
    /// The pull request is out; its stream is being drained.
    Pulling,
    /// The create request is out.
    Creating,
    /// The container exists; the start request is out.
    Starting(String),
    /// The wait request is out, with the not-running condition.
    Waiting(String),
    /// The log stream is open; lines are being read.
    Logging(String),
    /// One log line was handed to the sink; its outcome is pending.
    Sending(String),
    /// The forced-removal request is out.
    Removing(String),
    /// Every stage completed; the invocation reports success.
    Done,
    /// The invocation ended with an error; no further engine call is made.
    Failed,
}

/// Spec-level value of a [`RunState`].
pub ghost enum RunStateModel {
    Pulling,
    Creating,
    Starting(Seq<char>),
    Waiting(Seq<char>),
    Logging(Seq<char>),
    Sending(Seq<char>),
    Removing(Seq<char>),
    Done,
    Failed,
}

impl View for RunState {
    type V = RunStateModel;

    open spec fn view(&self) -> RunStateModel {
        match self {
            RunState::Pulling => RunStateModel::Pulling,
            RunState::Creating => RunStateModel::Creating,
            RunState::Starting(id) => RunStateModel::Starting(id@),
            RunState::Waiting(id) => RunStateModel::Waiting(id@),
            RunState::Logging(id) => RunStateModel::Logging(id@),
            RunState::Sending(id) => RunStateModel::Sending(id@),
            RunState::Removing(id) => RunStateModel::Removing(id@),
            RunState::Done => RunStateModel::Done,
            RunState::Failed => RunStateModel::Failed,
        }
    }
}

/// What the surrounding task observed at the current suspension point.
pub enum RunEvent {
    /// The pull stream was drained, or failed.
    PullFinished(Result<(), EngineError>),
    /// The engine answered the create request, with the container id.
    CreateFinished(Result<String, EngineError>),
    /// The engine answered the start request.
    StartFinished(Result<(), EngineError>),
    /// The wait stream ended; the exit status code, if any was reported.
    /// No outcome at all is not an error and skips no later stage.
    WaitFinished(Option<i64>),
    /// The log stream yielded one line.
    LogLine(String),
    /// The log stream ended.
    LogEnd,
    /// The log stream failed mid-way.
    LogFailed(EngineError),
    /// The sink accepted (`true`) or rejected (`false`) the forwarded line.
    SendFinished(bool),
    /// The engine answered the removal request.
    RemoveFinished(Result<(), EngineError>),
}

/// Spec-level value of a [`RunEvent`].
pub ghost enum RunEventModel {
    PullFinished(Result<(), EngineErrorModel>),
    CreateFinished(Result<Seq<char>, EngineErrorModel>),
    StartFinished(Result<(), EngineErrorModel>),
    WaitFinished(Option<i64>),
    LogLine(Seq<char>),
    LogEnd,
    LogFailed(EngineErrorModel),
    SendFinished(bool),
    RemoveFinished(Result<(), EngineErrorModel>),
}

impl View for RunEvent {
    type V = RunEventModel;

    open spec fn view(&self) -> RunEventModel {
        match self {
            RunEvent::PullFinished(r) => RunEventModel::PullFinished(
                match r {
                    Ok(_) => Ok(()),
                    Err(e) => Err(e@),
                },
            ),
            RunEvent::CreateFinished(r) => RunEventModel::CreateFinished(
                match r {
                    Ok(id) => Ok(id@),
                    Err(e) => Err(e@),
                },
            ),
            RunEvent::StartFinished(r) => RunEventModel::StartFinished(
                match r {
                    Ok(_) => Ok(()),
                    Err(e) => Err(e@),
                },
            ),
            RunEvent::WaitFinished(o) => RunEventModel::WaitFinished(*o),
            RunEvent::LogLine(l) => RunEventModel::LogLine(l@),
            RunEvent::LogEnd => RunEventModel::LogEnd,
            RunEvent::LogFailed(e) => RunEventModel::LogFailed(e@),
            RunEvent::SendFinished(b) => RunEventModel::SendFinished(*b),
            RunEvent::RemoveFinished(r) => RunEventModel::RemoveFinished(
                match r {
                    Ok(_) => Ok(()),
                    Err(e) => Err(e@),
                },
            ),
        }
    }
}

/// The next request or report the surrounding task must perform.
#[derive(Debug, PartialEq, Eq)]
pub enum RunAction {
    /// Request the engine pull the configured image and drain the stream.
    Pull,
    /// Submit the container configuration for the image and command, with
    /// standard-output and standard-error capture enabled.
    Create,
    /// Instruct the engine to start this container.
    Start(String),
    /// Wait until this container leaves the running state.
    Wait(String),
    /// Open this container's log stream, combined output with timestamps.
    FetchLogs(String),
    /// Hand this log line to the sink.
    Forward(String),
    /// No request: read the next item of the already-open stream.
    Proceed,
    /// Request forced removal of this container.
    Remove(String),
    /// The invocation is complete; report success.
    Succeed,
    /// The invocation is over; report this error.
    Fail(EngineError),
}

/// Spec-level value of a [`RunAction`].
pub ghost enum RunActionModel {
    Pull,
    Create,
    Start(Seq<char>),
    Wait(Seq<char>),
    FetchLogs(Seq<char>),
    Forward(Seq<char>),
    Proceed,
    Remove(Seq<char>),
    Succeed,
    Fail(EngineErrorModel),
}

impl View for RunAction {
    type V = RunActionModel;

    open spec fn view(&self) -> RunActionModel {
        match self {
            RunAction::Pull => RunActionModel::Pull,
            RunAction::Create => RunActionModel::Create,
            RunAction::Start(id) => RunActionModel::Start(id@),
            RunAction::Wait(id) => RunActionModel::Wait(id@),
            RunAction::FetchLogs(id) => RunActionModel::FetchLogs(id@),
            RunAction::Forward(l) => RunActionModel::Forward(l@),
            RunAction::Proceed => RunActionModel::Proceed,
            RunAction::Remove(id) => RunActionModel::Remove(id@),
            RunAction::Succeed => RunActionModel::Succeed,
            RunAction::Fail(e) => RunActionModel::Fail(e@),
        }
    }
}

/// Which events can be observed in which state: each stage answers the one
/// request that is out, and nothing is observed once the invocation ended.
pub open spec fn event_fits(s: RunStateModel, e: RunEventModel) -> bool {
    match s {
        RunStateModel::Pulling => e is PullFinished,
        RunStateModel::Creating => e is CreateFinished,
        RunStateModel::Starting(_) => e is StartFinished,
        RunStateModel::Waiting(_) => e is WaitFinished,
        RunStateModel::Logging(_) => e is LogLine || e is LogEnd || e is LogFailed,
        RunStateModel::Sending(_) => e is SendFinished,
        RunStateModel::Removing(_) => e is RemoveFinished,
        RunStateModel::Done => false,
        RunStateModel::Failed => false,
    }
}

/// Whether a wait outcome triggers log capture: a sink is configured and
/// an exit status was observed and it is nonzero.
pub open spec fn wants_logs(cfg: RunConfigModel, outcome: Option<i64>) -> bool {
    cfg.has_sink && match outcome {
        Some(c) => c != 0,
        None => false,
    }
}

/// The decision at one suspension point: from the current stage and the
/// observed event, the next stage and the next request.
pub open spec fn spec_run_step(cfg: RunConfigModel, s: RunStateModel, e: RunEventModel) -> (
    RunStateModel,
    RunActionModel,
)
    recommends
        event_fits(s, e),
{
    match (s, e) {
        (RunStateModel::Pulling, RunEventModel::PullFinished(r)) => match r {
            Ok(_) => (RunStateModel::Creating, RunActionModel::Create),
            Err(er) => (RunStateModel::Failed, RunActionModel::Fail(er)),
        },
        (RunStateModel::Creating, RunEventModel::CreateFinished(r)) => match r {
            Ok(id) => (RunStateModel::Starting(id), RunActionModel::Start(id)),
            Err(er) => (RunStateModel::Failed, RunActionModel::Fail(er)),
        },
        (RunStateModel::Starting(id), RunEventModel::StartFinished(r)) => match r {
            Ok(_) => (RunStateModel::Waiting(id), RunActionModel::Wait(id)),
            Err(er) => (RunStateModel::Failed, RunActionModel::Fail(er)),
        },
        (RunStateModel::Waiting(id), RunEventModel::WaitFinished(outcome)) => if wants_logs(
            cfg,
            outcome,
        ) {
            (RunStateModel::Logging(id), RunActionModel::FetchLogs(id))
        } else {
            (RunStateModel::Removing(id), RunActionModel::Remove(id))
        },
        (RunStateModel::Logging(id), RunEventModel::LogLine(l)) => (
            RunStateModel::Sending(id),
            RunActionModel::Forward(l),
        ),
        (RunStateModel::Logging(id), RunEventModel::LogEnd) => (
            RunStateModel::Removing(id),
            RunActionModel::Remove(id),
        ),
        (RunStateModel::Logging(_), RunEventModel::LogFailed(er)) => (
            RunStateModel::Failed,
            RunActionModel::Fail(er),
        ),
        (RunStateModel::Sending(id), RunEventModel::SendFinished(accepted)) => if accepted {
            (RunStateModel::Logging(id), RunActionModel::Proceed)
        } else {
            (RunStateModel::Failed, RunActionModel::Fail(EngineErrorModel::SinkClosed))
        },
        (RunStateModel::Removing(id), RunEventModel::RemoveFinished(r)) => match r {
            Ok(_) => (RunStateModel::Done, RunActionModel::Succeed),
            Err(er) => (RunStateModel::Failed, RunActionModel::Fail(er)),
        },
        (s0, _) => (s0, RunActionModel::Proceed),
    }
}

/// Where every invocation begins: the pull request goes out first.
pub fn run_init() -> (r: (RunState, RunAction))
    ensures
        r.0@ == RunStateModel::Pulling,
        r.1@ == RunActionModel::Pull,
{
    (RunState::Pulling, RunAction::Pull)
}

/// The executable decision step; it decides exactly as [`spec_run_step`].
pub fn run_step(cfg: &RunConfig, state: RunState, event: RunEvent) -> (r: (RunState, RunAction))
    requires
        event_fits(state@, event@),
    ensures
        (r.0@, r.1@) == spec_run_step(cfg@, state@, event@),
{
    match (state, event) {
        (RunState::Pulling, RunEvent::PullFinished(res)) => match res {
            Ok(_) => (RunState::Creating, RunAction::Create),
            Err(er) => (RunState::Failed, RunAction::Fail(er)),
        },
        (RunState::Creating, RunEvent::CreateFinished(res)) => match res {
            Ok(id) => (RunState::Starting(id.clone()), RunAction::Start(id)),
            Err(er) => (RunState::Failed, RunAction::Fail(er)),
        },
        (RunState::Starting(id), RunEvent::StartFinished(res)) => match res {
            Ok(_) => (RunState::Waiting(id.clone()), RunAction::Wait(id)),
            Err(er) => (RunState::Failed, RunAction::Fail(er)),
        },
        (RunState::Waiting(id), RunEvent::WaitFinished(outcome)) => {
            let nonzero = match &outcome {
                Some(c) => *c != 0,
                None => false,
            };
            if cfg.has_sink && nonzero {
                (RunState::Logging(id.clone()), RunAction::FetchLogs(id))
            } else {
                (RunState::Removing(id.clone()), RunAction::Remove(id))
            }
        },
        (RunState::Logging(id), RunEvent::LogLine(l)) => (
            RunState::Sending(id),
            RunAction::Forward(l),
        ),
        (RunState::Logging(id), RunEvent::LogEnd) => (
            RunState::Removing(id.clone()),
            RunAction::Remove(id),
        ),
        (RunState::Logging(_), RunEvent::LogFailed(er)) => (RunState::Failed, RunAction::Fail(er)),
        (RunState::Sending(id), RunEvent::SendFinished(accepted)) => if accepted {
            (RunState::Logging(id), RunAction::Proceed)
        } else {
            (RunState::Failed, RunAction::Fail(EngineError::SinkClosed))
        },
        (RunState::Removing(id), RunEvent::RemoveFinished(res)) => match res {
            Ok(_) => (RunState::Done, RunAction::Succeed),
            Err(er) => (RunState::Failed, RunAction::Fail(er)),
        },
        (s0, _) => (s0, RunAction::Proceed),
    }
}

/// The invocation ended: success was reported, or the first error was
/// returned to the caller.
pub open spec fn is_terminal(s: RunStateModel) -> bool {
    s is Done || s is Failed
}

/// A trace of observed events is well formed from `s` when each event
/// answers the one request that was out when it arrived.
pub open spec fn wf_trace(cfg: RunConfigModel, s: RunStateModel, events: Seq<RunEventModel>) -> bool
    decreases events.len(),
{
    events.len() == 0 || (event_fits(s, events[0]) && wf_trace(
        cfg,
        spec_run_step(cfg, s, events[0]).0,
        events.drop_first(),
    ))
}

/// Every request and report issued along a trace, in order.
pub open spec fn run_trace(
    cfg: RunConfigModel,
    s: RunStateModel,
    events: Seq<RunEventModel>,
) -> Seq<RunActionModel>
    decreases events.len(),
{
    if events.len() == 0 {
        Seq::empty()
    } else {
        seq![spec_run_step(cfg, s, events[0]).1] + run_trace(
            cfg,
            spec_run_step(cfg, s, events[0]).0,
            events.drop_first(),
        )
    }
}

/// The stage reached after a trace.
pub open spec fn final_state(
    cfg: RunConfigModel,
    s: RunStateModel,
    events: Seq<RunEventModel>,
) -> RunStateModel
    decreases events.len(),
{
    if events.len() == 0 {
        s
    } else {
        final_state(cfg, spec_run_step(cfg, s, events[0]).0, events.drop_first())
    }
}

/// How many log-fetch requests a sequence of actions holds.
pub open spec fn fetch_count(actions: Seq<RunActionModel>) -> nat
    decreases actions.len(),
{
    if actions.len() == 0 {
        0
    } else {
        ((if actions[0] is FetchLogs {
            1nat
        } else {
            0nat
        }) + fetch_count(actions.drop_first())) as nat
    }
}

/// How many removal requests a sequence of actions holds.
pub open spec fn remove_count(actions: Seq<RunActionModel>) -> nat
    decreases actions.len(),
{
    if actions.len() == 0 {
        0
    } else {
        ((if actions[0] is Remove {
            1nat
        } else {
            0nat
        }) + remove_count(actions.drop_first())) as nat
    }
}

/// The lines handed to the sink along a sequence of actions, in order.
pub open spec fn forwarded_lines(actions: Seq<RunActionModel>) -> Seq<Seq<char>>
    decreases actions.len(),
{
    if actions.len() == 0 {
        Seq::empty()
    } else {
        (match actions[0] {
            RunActionModel::Forward(l) => seq![l],
            _ => Seq::empty(),
        }) + forwarded_lines(actions.drop_first())
    }
}

/// The log lines the engine provided along a trace of events, in order.
pub open spec fn log_lines(events: Seq<RunEventModel>) -> Seq<Seq<char>>
    decreases events.len(),
{
    if events.len() == 0 {
        Seq::empty()
    } else {
        (match events[0] {
            RunEventModel::LogLine(l) => seq![l],
            _ => Seq::empty(),
        }) + log_lines(events.drop_first())
    }
}

/// The event that reports a nonzero exit status.
pub open spec fn is_nonzero_wait(e: RunEventModel) -> bool {
    match e {
        RunEventModel::WaitFinished(o) => match o {
            Some(c) => c != 0,
            None => false,
        },
        _ => false,
    }
}

/// The event that reports a successful creation.
pub open spec fn is_create_ok(e: RunEventModel) -> bool {
    e matches RunEventModel::CreateFinished(r) && r is Ok
}

/// The failures after which the baseline design skips cleanup: a failed
/// start, a log stream that failed mid-way, and a sink that rejected a
/// forwarded line. A container created before one of these leaks.
pub open spec fn skips_cleanup(e: RunEventModel) -> bool {
    ||| (e matches RunEventModel::StartFinished(r) && r is Err)
    ||| e is LogFailed
    ||| (e matches RunEventModel::SendFinished(accepted) && !accepted)
}

/// How far through the lifecycle a stage is; steps never go backwards.
pub open spec fn stage_index(s: RunStateModel) -> nat {
    match s {
        RunStateModel::Pulling => 0,
        RunStateModel::Creating => 1,
        RunStateModel::Starting(_) => 2,
        RunStateModel::Waiting(_) => 3,
        RunStateModel::Logging(_) => 4,
        RunStateModel::Sending(_) => 4,
        RunStateModel::Removing(_) => 5,
        RunStateModel::Done => 6,
        RunStateModel::Failed => 6,
    }
}

/// Splitting one action off the front of a trace splits each projection.
proof fn lemma_split_head(a: RunActionModel, rest: Seq<RunActionModel>)
    ensures
        fetch_count(seq![a] + rest) == (if a is FetchLogs {
            1nat
        } else {
            0nat
        }) + fetch_count(rest),
        remove_count(seq![a] + rest) == (if a is Remove {
            1nat
        } else {
            0nat
        }) + remove_count(rest),
        forwarded_lines(seq![a] + rest) == (match a {
            RunActionModel::Forward(l) => seq![l],
            _ => Seq::<Seq<char>>::empty(),
        }) + forwarded_lines(rest),
{
    assert((seq![a] + rest).drop_first() =~= rest);
    assert((seq![a] + rest)[0] == a);
}

/// Once log capture has begun (or was passed over), no further log-fetch
/// request is ever issued.
pub proof fn lemma_no_fetch_after_logging(
    cfg: RunConfigModel,
    s: RunStateModel,
    events: Seq<RunEventModel>,
)
    requires
        wf_trace(cfg, s, events),
        stage_index(s) >= 4,
    ensures
        fetch_count(run_trace(cfg, s, events)) == 0,
    decreases events.len(),
{
    if events.len() > 0 {
        let e0 = events[0];
        let s2 = spec_run_step(cfg, s, e0).0;
        let a = spec_run_step(cfg, s, e0).1;
        let rest = events.drop_first();
        lemma_split_head(a, run_trace(cfg, s2, rest));
        lemma_no_fetch_after_logging(cfg, s2, rest);
    }
}

/// No invocation ever issues more than one log-fetch request.
pub proof fn lemma_at_most_one_fetch(
    cfg: RunConfigModel,
    s: RunStateModel,
    events: Seq<RunEventModel>,
)
    requires
        wf_trace(cfg, s, events),
    ensures
        fetch_count(run_trace(cfg, s, events)) <= 1,
    decreases events.len(),
{
    if events.len() > 0 {
        let e0 = events[0];
        let s2 = spec_run_step(cfg, s, e0).0;
        let a = spec_run_step(cfg, s, e0).1;
        let rest = events.drop_first();
        lemma_split_head(a, run_trace(cfg, s2, rest));
        if a is FetchLogs {
            lemma_no_fetch_after_logging(cfg, s2, rest);
        } else {
            lemma_at_most_one_fetch(cfg, s2, rest);
        }
    }
}

/// Whenever the observed exit status is zero — in fact whenever no event
/// reports a nonzero exit status — no log-fetch request is issued, for any
/// command, image and sink.
pub proof fn lemma_no_fetch_on_zero_exit(
    cfg: RunConfigModel,
    s: RunStateModel,
    events: Seq<RunEventModel>,
)
    requires
        wf_trace(cfg, s, events),
        forall|i: int| 0 <= i < events.len() ==> !is_nonzero_wait(#[trigger] events[i]),
    ensures
        fetch_count(run_trace(cfg, s, events)) == 0,
    decreases events.len(),
{
    if events.len() > 0 {
        let e0 = events[0];
        let s2 = spec_run_step(cfg, s, e0).0;
        let a = spec_run_step(cfg, s, e0).1;
        let rest = events.drop_first();
        lemma_split_head(a, run_trace(cfg, s2, rest));
        assert(!is_nonzero_wait(e0));
        assert(!(a is FetchLogs));
        assert forall|i: int| 0 <= i < rest.len() implies !is_nonzero_wait(#[trigger] rest[i]) by {
            assert(rest[i] == events[i + 1]);
        }
        lemma_no_fetch_on_zero_exit(cfg, s2, rest);
    }
}

/// Without a configured sink no log-fetch request is ever issued.
pub proof fn lemma_no_fetch_without_sink(
    cfg: RunConfigModel,
    s: RunStateModel,
    events: Seq<RunEventModel>,
)
    requires
        wf_trace(cfg, s, events),
        !cfg.has_sink,
    ensures
        fetch_count(run_trace(cfg, s, events)) == 0,
    decreases events.len(),
{
    if events.len() > 0 {
        let e0 = events[0];
        let s2 = spec_run_step(cfg, s, e0).0;
        let a = spec_run_step(cfg, s, e0).1;
        let rest = events.drop_first();
        lemma_split_head(a, run_trace(cfg, s2, rest));
        lemma_no_fetch_without_sink(cfg, s2, rest);
    }
}

/// When a sink is configured and the engine reported a nonzero exit
/// status, exactly one log-fetch request is issued.
pub proof fn lemma_one_fetch_on_nonzero_exit(
    cfg: RunConfigModel,
    s: RunStateModel,
    events: Seq<RunEventModel>,
)
    requires
        wf_trace(cfg, s, events),
        cfg.has_sink,
        exists|i: int| 0 <= i < events.len() && is_nonzero_wait(#[trigger] events[i]),
    ensures
        fetch_count(run_trace(cfg, s, events)) == 1,
    decreases events.len(),
{
    let i = choose|i: int| 0 <= i < events.len() && is_nonzero_wait(#[trigger] events[i]);
    let e0 = events[0];
    let s2 = spec_run_step(cfg, s, e0).0;
    let a = spec_run_step(cfg, s, e0).1;
    let rest = events.drop_first();
    lemma_split_head(a, run_trace(cfg, s2, rest));
    if is_nonzero_wait(e0) {
        assert(a is FetchLogs);
        lemma_no_fetch_after_logging(cfg, s2, rest);
    } else {
        assert(i > 0);
        assert(0 <= i - 1 < rest.len() && is_nonzero_wait(rest[i - 1])) by {
            assert(rest[i - 1] == events[i]);
        }
        assert(!(a is FetchLogs));
        lemma_one_fetch_on_nonzero_exit(cfg, s2, rest);
    }
}

/// Every engine-provided log line is handed to the sink, in order, and
/// nothing else is: the forwarded lines of any invocation are exactly the
/// lines its log stream yielded.
pub proof fn lemma_forwards_log_lines(
    cfg: RunConfigModel,
    s: RunStateModel,
    events: Seq<RunEventModel>,
)
    requires
        wf_trace(cfg, s, events),
    ensures
        forwarded_lines(run_trace(cfg, s, events)) == log_lines(events),
    decreases events.len(),
{
    if events.len() == 0 {
        assert(forwarded_lines(run_trace(cfg, s, events)) =~= log_lines(events));
    } else {
        let e0 = events[0];
        let s2 = spec_run_step(cfg, s, e0).0;
        let a = spec_run_step(cfg, s, e0).1;
        let rest = events.drop_first();
        lemma_split_head(a, run_trace(cfg, s2, rest));
        lemma_forwards_log_lines(cfg, s2, rest);
        assert(forwarded_lines(run_trace(cfg, s, events)) =~= log_lines(events));
    }
}

/// Once the removal request is out, no second one is ever issued.
pub proof fn lemma_no_remove_after_removing(
    cfg: RunConfigModel,
    s: RunStateModel,
    events: Seq<RunEventModel>,
)
    requires
        wf_trace(cfg, s, events),
        stage_index(s) >= 5,
    ensures
        remove_count(run_trace(cfg, s, events)) == 0,
    decreases events.len(),
{
    if events.len() > 0 {
        let e0 = events[0];
        let s2 = spec_run_step(cfg, s, e0).0;
        let a = spec_run_step(cfg, s, e0).1;
        let rest = events.drop_first();
        lemma_split_head(a, run_trace(cfg, s2, rest));
        lemma_no_remove_after_removing(cfg, s2, rest);
    }
}

/// No invocation ever issues more than one removal request.
pub proof fn lemma_at_most_one_remove(
    cfg: RunConfigModel,
    s: RunStateModel,
    events: Seq<RunEventModel>,
)
    requires
        wf_trace(cfg, s, events),
    ensures
        remove_count(run_trace(cfg, s, events)) <= 1,
    decreases events.len(),
{
    if events.len() > 0 {
        let e0 = events[0];
        let s2 = spec_run_step(cfg, s, e0).0;
        let a = spec_run_step(cfg, s, e0).1;
        let rest = events.drop_first();
        lemma_split_head(a, run_trace(cfg, s2, rest));
        if a is Remove {
            lemma_no_remove_after_removing(cfg, s2, rest);
        } else {
            lemma_at_most_one_remove(cfg, s2, rest);
        }
    }
}

/// From any stage after a successful creation, an invocation that runs to
/// its end without a cleanup-skipping failure issues exactly one removal
/// request, whatever the exit code, the sink and the removal's own outcome.
proof fn lemma_one_remove_from_created(
    cfg: RunConfigModel,
    s: RunStateModel,
    events: Seq<RunEventModel>,
)
    requires
        wf_trace(cfg, s, events),
        is_terminal(final_state(cfg, s, events)),
        forall|i: int| 0 <= i < events.len() ==> !skips_cleanup(#[trigger] events[i]),
        s is Starting || s is Waiting || s is Logging || s is Sending,
    ensures
        remove_count(run_trace(cfg, s, events)) == 1,
    decreases events.len(),
{
    if events.len() == 0 {
        assert(final_state(cfg, s, events) == s);
        assert(false);
    } else {
        let e0 = events[0];
        let s2 = spec_run_step(cfg, s, e0).0;
        let a = spec_run_step(cfg, s, e0).1;
        let rest = events.drop_first();
        lemma_split_head(a, run_trace(cfg, s2, rest));
        assert(!skips_cleanup(e0));
        assert forall|i: int| 0 <= i < rest.len() implies !skips_cleanup(#[trigger] rest[i]) by {
            assert(rest[i] == events[i + 1]);
        }
        if a is Remove {
            lemma_no_remove_after_removing(cfg, s2, rest);
        } else {
            lemma_one_remove_from_created(cfg, s2, rest);
        }
    }
}

/// Every invocation that reached the create stage successfully and ran to
/// its end without a cleanup-skipping failure issues exactly one removal
/// request — whatever the exit code, the sink, and whether the removal
/// itself succeeded.
pub proof fn lemma_one_remove_per_created_run(cfg: RunConfigModel, events: Seq<RunEventModel>)
    requires
        wf_trace(cfg, RunStateModel::Pulling, events),
        is_terminal(final_state(cfg, RunStateModel::Pulling, events)),
        exists|i: int| 0 <= i < events.len() && is_create_ok(#[trigger] events[i]),
        forall|i: int| 0 <= i < events.len() ==> !skips_cleanup(#[trigger] events[i]),
    ensures
        remove_count(run_trace(cfg, RunStateModel::Pulling, events)) == 1,
{
    lemma_one_remove_before_created(cfg, RunStateModel::Pulling, events);
}

/// The inductive core behind [`lemma_one_remove_per_created_run`]: the
/// same claim, from either stage that precedes creation.
proof fn lemma_one_remove_before_created(
    cfg: RunConfigModel,
    s: RunStateModel,
    events: Seq<RunEventModel>,
)
    requires
        wf_trace(cfg, s, events),
        is_terminal(final_state(cfg, s, events)),
        exists|i: int| 0 <= i < events.len() && is_create_ok(#[trigger] events[i]),
        forall|i: int| 0 <= i < events.len() ==> !skips_cleanup(#[trigger] events[i]),
        s is Pulling || s is Creating,
    ensures
        remove_count(run_trace(cfg, s, events)) == 1,
    decreases events.len(),
{
    let i = choose|i: int| 0 <= i < events.len() && is_create_ok(#[trigger] events[i]);
    let e0 = events[0];
    let s2 = spec_run_step(cfg, s, e0).0;
    let a = spec_run_step(cfg, s, e0).1;
    let rest = events.drop_first();
    lemma_split_head(a, run_trace(cfg, s2, rest));
    assert forall|i2: int| 0 <= i2 < rest.len() implies !skips_cleanup(#[trigger] rest[i2]) by {
        assert(rest[i2] == events[i2 + 1]);
    }
    if is_create_ok(e0) {
        assert(s is Creating);
        lemma_one_remove_from_created(cfg, s2, rest);
    } else {
        assert(i > 0);
        assert(0 <= i - 1 < rest.len() && is_create_ok(rest[i - 1])) by {
            assert(rest[i - 1] == events[i]);
        }
        if s2 is Failed {
            assert(rest.len() > 0);
            assert(!event_fits(s2, rest[0]));
            assert(false) by {
                reveal_with_fuel(wf_trace, 2);
            }
        } else {
            lemma_one_remove_before_created(cfg, s2, rest);
        }
    }
}

} // verus!
