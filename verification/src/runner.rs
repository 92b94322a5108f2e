use vstd::prelude::*;
use crate::config::{ConfigModel, ServerConfig};
use crate::status::{is_terminal, EventModel, LifecycleResult, ResultModel, StatusEvent};

verus! {

/// Phase of one supervised run, from creation to its terminal result.
#[derive(Clone, Copy, Debug, PartialEq, Eq, Structural)]
pub enum RunState {
    /// Created; nothing has happened yet.
    Idle,
    /// A listener is being bound for the configured address.
    Binding,
    /// The accept loop is running.
    Serving,
    /// Cancellation was observed: no new connections, in-flight ones drain.
    Draining,
    /// The run has resolved, exactly once.
    Done,
}

/// Mathematical model of one supervised run: its configuration, its phase,
/// the ordered status events emitted so far, and the terminal result.
#[verifier::ext_equal]
pub struct RunModel {
    pub config: ConfigModel,
    pub state: RunState,
    pub log: Seq<EventModel>,
    pub result: Option<ResultModel>,
}

/// The observations the driver reports to a run: the start request, the
/// outcome of binding, the cancellation signal, and the end of the serve
/// loop (clean, or with a listener-level error message).
pub enum RunEventModel {
    Begin,
    BindOk,
    BindFailed(Seq<char>),
    Cancel,
    ServeEnded(Option<Seq<char>>),
}

/// A fresh run: nothing emitted, nothing resolved.
pub open spec fn init(config: ConfigModel) -> RunModel {
    RunModel { config, state: RunState::Idle, log: Seq::empty(), result: None }
}

/// The transition relation of a run, total over every state and event: an
/// event that does not apply to the current phase changes nothing, so a
/// repeated or late observation is a harmless no-op.
pub open spec fn step(pre: RunModel, event: RunEventModel) -> RunModel {
    match event {
        RunEventModel::Begin => if pre.state is Idle {
            if pre.config.address is None {
                // No address: the run performs no binding and completes
                // immediately as a no-op success.
                RunModel { state: RunState::Done, result: Some(ResultModel::Completed), ..pre }
            } else {
                RunModel { state: RunState::Binding, ..pre }
            }
        } else {
            pre
        },
        RunEventModel::BindOk => if pre.state is Binding && pre.config.address is Some {
            RunModel {
                state: RunState::Serving,
                log: pre.log.push(EventModel::Starting(pre.config.address.unwrap())),
                ..pre
            }
        } else {
            pre
        },
        RunEventModel::BindFailed(message) => if pre.state is Binding {
            RunModel {
                state: RunState::Done,
                log: pre.log.push(EventModel::ExitedWithError(message)),
                result: Some(ResultModel::Failed(message)),
                ..pre
            }
        } else {
            pre
        },
        RunEventModel::Cancel => if pre.state is Serving {
            RunModel {
                state: RunState::Draining,
                log: pre.log.push(EventModel::Cancelling),
                ..pre
            }
        } else {
            pre
        },
        RunEventModel::ServeEnded(outcome) => if pre.state is Serving || pre.state is Draining {
            match outcome {
                None => RunModel {
                    state: RunState::Done,
                    log: pre.log.push(EventModel::Exited),
                    result: Some(ResultModel::Completed),
                    ..pre
                },
                Some(message) => RunModel {
                    state: RunState::Done,
                    log: pre.log.push(EventModel::ExitedWithError(message)),
                    result: Some(ResultModel::Failed(message)),
                    ..pre
                },
            }
        } else {
            pre
        },
    }
}

/// The terminal event of a done run matches its terminal result.
pub open spec fn terminal_matches(e: EventModel, r: ResultModel) -> bool {
    match r {
        ResultModel::Completed => e == EventModel::Exited,
        ResultModel::Failed(message) => e == EventModel::ExitedWithError(message),
    }
}

/// The log shapes a done run can show. A run without an address emitted
/// nothing; a bind failure emitted only its error event (so never a
/// `Starting`); otherwise `Starting` came first, `Cancelling` exactly when
/// cancellation was observed, and one terminal event ended the log.
pub open spec fn done_log_ok(m: RunModel) -> bool {
    let r = m.result.unwrap();
    if m.config.address is None {
        m.log.len() == 0 && r == ResultModel::Completed
    } else {
        let address = m.config.address.unwrap();
        ||| (m.log.len() == 1 && m.log[0] is ExitedWithError && terminal_matches(m.log[0], r))
        ||| (m.log.len() == 2 && m.log[0] == EventModel::Starting(address) && terminal_matches(
            m.log[1],
            r,
        ))
        ||| (m.log.len() == 3 && m.log[0] == EventModel::Starting(address) && m.log[1]
            == EventModel::Cancelling && terminal_matches(m.log[2], r))
    }
}

/// Well-formedness of a run: every phase pins down exactly which status
/// events are in the log and whether a result exists. Constructors establish
/// it and every step preserves it.
pub open spec fn wf(m: RunModel) -> bool {
    match m.state {
        RunState::Idle => m.log.len() == 0 && m.result is None,
        RunState::Binding => m.log.len() == 0 && m.result is None && m.config.address is Some,
        RunState::Serving => m.config.address is Some && m.log.len() == 1 && m.log[0]
            == EventModel::Starting(m.config.address.unwrap()) && m.result is None,
        RunState::Draining => m.config.address is Some && m.log.len() == 2 && m.log[0]
            == EventModel::Starting(m.config.address.unwrap()) && m.log[1]
            == EventModel::Cancelling && m.result is None,
        RunState::Done => m.result is Some && done_log_ok(m),
    }
}

/// A fresh run is well-formed.
pub proof fn lemma_init_wf(config: ConfigModel)
    ensures
        wf(init(config)),
{
}

/// Every event preserves well-formedness: whatever the driver reports, and
/// in whatever order, the run's log keeps the documented shape.
pub proof fn lemma_step_preserves_wf(m: RunModel, event: RunEventModel)
    requires
        wf(m),
    ensures
        wf(step(m, event)),
{
}

/// A finished run is final: no further event changes its state, its log or
/// its result. The handle resolves exactly once, and a late cancellation —
/// or any other late observation — is a no-op.
pub proof fn lemma_done_is_final(m: RunModel, event: RunEventModel)
    requires
        m.state is Done,
    ensures
        step(m, event) == m,
{
}

/// Cancelling twice is the same as cancelling once: the second signal
/// changes nothing and emits no further event.
pub proof fn lemma_cancel_idempotent(m: RunModel)
    ensures
        step(step(m, RunEventModel::Cancel), RunEventModel::Cancel) == step(
            m,
            RunEventModel::Cancel,
        ),
{
}

/// Cancelling a serving run whose accept loop then winds down cleanly —
/// in particular one that never accepted a connection — completes the run:
/// the result is `Completed`, the log is exactly
/// `Starting, Cancelling, Exited`, and no error event was ever emitted.
pub proof fn lemma_cancel_then_clean_completion(m: RunModel)
    requires
        wf(m),
        m.state is Serving,
    ensures
        ({
            let done = step(step(m, RunEventModel::Cancel), RunEventModel::ServeEnded(None));
            &&& done.state is Done
            &&& done.result == Some(ResultModel::Completed)
            &&& done.log =~= seq![
                EventModel::Starting(m.config.address.unwrap()),
                EventModel::Cancelling,
                EventModel::Exited,
            ]
            &&& forall|i: int|
                0 <= i < done.log.len() ==> !(#[trigger] done.log[i] is ExitedWithError)
        }),
{
}

/// A draining run whose in-flight connections finish on their own completes
/// normally, whatever the timeout: natural completion wins the race against
/// the force-close deadline whenever it comes first.
pub proof fn lemma_drain_natural_completion(m: RunModel)
    requires
        wf(m),
        m.state is Draining,
    ensures
        step(m, RunEventModel::ServeEnded(None)).result == Some(ResultModel::Completed),
{
}

/// A bind failure is reported before any `Starting` event is ever emitted
/// for the run: it resolves to `Failed` with the error event alone in its
/// log.
pub proof fn lemma_bind_failure_reports_no_starting(m: RunModel, message: Seq<char>)
    requires
        wf(m),
        m.state is Binding,
    ensures
        ({
            let done = step(m, RunEventModel::BindFailed(message));
            &&& done.state is Done
            &&& done.result == Some(ResultModel::Failed(message))
            &&& done.log =~= seq![EventModel::ExitedWithError(message)]
            &&& forall|i: int| 0 <= i < done.log.len() ==> !(#[trigger] done.log[i] is Starting)
        }),
{
}

/// A well-formed run emits at most one terminal status event, and none at
/// all before it is done.
pub proof fn lemma_at_most_one_terminal(m: RunModel)
    requires
        wf(m),
    ensures
        forall|i: int, j: int|
            0 <= i < j < m.log.len() ==> !(is_terminal(#[trigger] m.log[i]) && is_terminal(
                #[trigger] m.log[j],
            )),
        !(m.state is Done) ==> forall|i: int|
            0 <= i < m.log.len() ==> !is_terminal(#[trigger] m.log[i]),
{
}

/// One supervised run. The driver reports each observation (bind outcome,
/// cancellation, end of the serve loop) and the run keeps the ordered log of
/// status events and its terminal result, exactly as `step` describes.
pub struct AppHost {
    pub config: ServerConfig,
    pub state: RunState,
    pub log: Vec<StatusEvent>,
    pub result: Option<LifecycleResult>,
}

impl View for AppHost {
    type V = RunModel;

    open spec fn view(&self) -> RunModel {
        RunModel {
            config: self.config@,
            state: self.state,
            log: self.log.deep_view(),
            result: self.result.deep_view(),
        }
    }
}

impl AppHost {
    /// The plugin symbol this host registers under.
    pub fn symbol() -> (s: &'static str)
        ensures
            s@ == "app_host"@,
    {
        "app_host"
    }

    /// What the plugin does.
    pub fn description() -> (s: &'static str)
        ensures
            s@ == "Creates an app host with `address`, w/ routes provided by some type `A` which implements WebApp"@,
    {
        "Creates an app host with `address`, w/ routes provided by some type `A` which implements WebApp"
    }

    /// A fresh run for the given configuration.
    pub fn new(config: ServerConfig) -> (host: AppHost)
        ensures
            host@ == init(config@),
            wf(host@),
    {
        let host = AppHost { config, state: RunState::Idle, log: Vec::new(), result: None };
        proof {
            assert(host@ =~= init(host.config@));
        }
        host
    }

    /// Starts the run. With no configured address it completes at once as a
    /// no-op success and no listener is needed; otherwise the caller must now
    /// bind one, and `true` is returned.
    pub fn begin(&mut self) -> (bind_needed: bool)
        requires
            wf(old(self)@),
            old(self)@.state is Idle,
        ensures
            final(self)@ == step(old(self)@, RunEventModel::Begin),
            wf(final(self)@),
            bind_needed <==> old(self)@.config.address is Some,
    {
        let bind_needed = match &self.config.address {
            Some(_) => {
                self.state = RunState::Binding;
                true
            }
            None => {
                self.state = RunState::Done;
                self.result = Some(LifecycleResult::Completed);
                false
            }
        };
        proof {
            assert(self@ =~= step(old(self)@, RunEventModel::Begin));
            lemma_step_preserves_wf(old(self)@, RunEventModel::Begin);
        }
        bind_needed
    }

    /// The listener is bound: emits `Starting {address}` and begins serving.
    pub fn bind_succeeded(&mut self)
        requires
            wf(old(self)@),
            old(self)@.state is Binding,
        ensures
            final(self)@ == step(old(self)@, RunEventModel::BindOk),
            wf(final(self)@),
    {
        match &self.config.address {
            Some(address) => {
                let address = address.clone();
                self.log.push(StatusEvent::Starting(address));
                self.state = RunState::Serving;
            }
            None => {
                proof {
                    assert(false);
                }
            }
        }
        proof {
            assert(self@ =~= step(old(self)@, RunEventModel::BindOk));
            lemma_step_preserves_wf(old(self)@, RunEventModel::BindOk);
        }
    }

    /// Binding failed — the address is malformed or the port unavailable.
    /// The run fails at once: the error event is emitted before any
    /// `Starting` could ever be, and nothing is retried.
    pub fn bind_failed(&mut self, message: String)
        requires
            wf(old(self)@),
            old(self)@.state is Binding,
        ensures
            final(self)@ == step(old(self)@, RunEventModel::BindFailed(message@)),
            wf(final(self)@),
    {
        let event_message = message.clone();
        self.log.push(StatusEvent::ExitedWithError(event_message));
        self.result = Some(LifecycleResult::Failed(message));
        self.state = RunState::Done;
        proof {
            assert(self@ =~= step(old(self)@, RunEventModel::BindFailed(message@)));
            lemma_step_preserves_wf(old(self)@, RunEventModel::BindFailed(message@));
        }
    }

    /// Observes the cancellation signal. Harmless whenever it arrives: only
    /// a serving run reacts, by emitting `Cancelling` and draining; a
    /// repeated or late signal changes nothing.
    pub fn cancellation_observed(&mut self)
        requires
            wf(old(self)@),
        ensures
            final(self)@ == step(old(self)@, RunEventModel::Cancel),
            wf(final(self)@),
    {
        if self.state == RunState::Serving {
            self.log.push(StatusEvent::Cancelling);
            self.state = RunState::Draining;
        }
        proof {
            assert(self@ =~= step(old(self)@, RunEventModel::Cancel));
            lemma_step_preserves_wf(old(self)@, RunEventModel::Cancel);
        }
    }

    /// The serve loop ended, on its own or after draining: cleanly with
    /// `None`, or with a listener-level error message. The run resolves to
    /// its terminal result and emits its one terminal event.
    pub fn serve_ended(&mut self, error: Option<String>)
        requires
            wf(old(self)@),
            old(self)@.state is Serving || old(self)@.state is Draining,
        ensures
            final(self)@ == step(old(self)@, RunEventModel::ServeEnded(error.deep_view())),
            wf(final(self)@),
    {
        match error {
            None => {
                self.log.push(StatusEvent::Exited);
                self.result = Some(LifecycleResult::Completed);
            }
            Some(message) => {
                let event_message = message.clone();
                self.log.push(StatusEvent::ExitedWithError(event_message));
                self.result = Some(LifecycleResult::Failed(message));
            }
        }
        self.state = RunState::Done;
        proof {
            assert(self@ =~= step(old(self)@, RunEventModel::ServeEnded(error.deep_view())));
            lemma_step_preserves_wf(old(self)@, RunEventModel::ServeEnded(error.deep_view()));
        }
    }
}

/// When a cancelled run must force-close the connections still open: the
/// moment cancellation was observed plus the configured timeout — or never,
/// when no timeout is configured, so the run waits indefinitely for the
/// drain.
pub open spec fn force_close_deadline_spec(cancelled_at_ms: u64, timeout_ms: Option<u64>) -> Option<
    int,
> {
    match timeout_ms {
        None => None,
        Some(t) => Some(cancelled_at_ms + t),
    }
}

/// An exec deadline as the model sees it.
pub open spec fn deadline_model(deadline_ms: Option<u64>) -> Option<int> {
    match deadline_ms {
        None => None,
        Some(d) => Some(d as int),
    }
}

/// Whether the clock has reached a force-close deadline.
pub open spec fn should_force_close_spec(now_ms: u64, deadline_ms: Option<int>) -> bool {
    match deadline_ms {
        None => false,
        Some(d) => now_ms >= d,
    }
}

/// Computes the force-close deadline for a cancellation observed at
/// `cancelled_at_ms` under the configured timeout.
pub fn force_close_deadline(cancelled_at_ms: u64, timeout_ms: Option<u64>) -> (deadline_ms: Option<
    u64,
>)
    requires
        timeout_ms matches Some(t) ==> cancelled_at_ms + t <= u64::MAX,
    ensures
        deadline_model(deadline_ms) == force_close_deadline_spec(cancelled_at_ms, timeout_ms),
{
    match timeout_ms {
        None => None,
        Some(t) => Some(cancelled_at_ms + t),
    }
}

/// Decides whether a draining run must now force-close what is still open.
pub fn should_force_close(now_ms: u64, deadline_ms: Option<u64>) -> (force: bool)
    ensures
        force == should_force_close_spec(now_ms, deadline_model(deadline_ms)),
{
    match deadline_ms {
        None => false,
        Some(d) => now_ms >= d,
    }
}

/// The graceful-shutdown window: with a configured timeout `T`, a cancelled
/// run force-closes a still-open connection no earlier and no later than the
/// deadline `cancelled_at + T`; with no timeout it never force-closes. A
/// connection that finishes naturally first instead ends the run through
/// `ServeEnded(None)` — see `lemma_drain_natural_completion`.
pub proof fn lemma_graceful_shutdown_window(cancelled_at_ms: u64, timeout_ms: u64, now_ms: u64)
    ensures
        now_ms < cancelled_at_ms + timeout_ms ==> !should_force_close_spec(
            now_ms,
            force_close_deadline_spec(cancelled_at_ms, Some(timeout_ms)),
        ),
        now_ms >= cancelled_at_ms + timeout_ms ==> should_force_close_spec(
            now_ms,
            force_close_deadline_spec(cancelled_at_ms, Some(timeout_ms)),
        ),
        !should_force_close_spec(now_ms, force_close_deadline_spec(cancelled_at_ms, None)),
{
}

} // verus!
