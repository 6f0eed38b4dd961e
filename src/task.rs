//! The probe task of one target, as a state machine. Each iteration probes
//! the target, logs the outcome, pushes a metric after a success only, then
//! waits a fixed interval. The caller performs the actions that a step hands
//! out and feeds back the event that each one produced.
use vstd::prelude::*;
use crate::report::{
    failure_line, failure_line_text, payload_text, push_url, push_url_text, render_payload,
    success_line, success_line_text,
};

verus! {

/// How long one probe may wait for its reply.
pub const PROBE_TIMEOUT_MS: u64 = 10000;

/// The pause between the end of one iteration and the start of the next.
pub const INTERVAL_MS: u64 = 1000;

/// Where a task stands within its iteration.
#[derive(Clone, Copy, Debug, PartialEq, Eq, Structural)]
pub enum Phase {
    /// A probe of the target is in flight.
    Probing,
    /// The metric of a successful probe is being pushed.
    Reporting,
    /// The task waits out the interval.
    Sleeping,
}

/// The outcome of one probe.
#[derive(Debug)]
pub enum Measurement {
    Success { rtt_ms: u32 },
    Failure { reason: String },
}

/// What the caller reports back after performing an action.
#[derive(Debug)]
pub enum Event {
    /// The probe finished at `at_millis` (Unix epoch) with `outcome`.
    Probed { at_millis: u64, outcome: Measurement },
    /// The push finished; `delivered` says whether the collector took it.
    Pushed { delivered: bool },
    /// The interval has passed.
    Slept,
}

/// What the caller is asked to do.
#[derive(Debug)]
pub enum Action {
    /// Probe `target`, waiting at most `timeout_ms` for the reply.
    Probe { target: String, timeout_ms: u64 },
    /// Write `line` to the log.
    Log { line: String },
    /// POST `body` as `text/plain` to `url`.
    Push { url: String, body: String },
    /// Wait `millis` milliseconds.
    Sleep { millis: u64 },
}

/// The abstract value of a `Measurement`.
pub enum MeasurementModel {
    Success { rtt_ms: nat },
    Failure { reason: Seq<char> },
}

/// The abstract value of an `Event`.
pub enum EventModel {
    Probed { at_millis: nat, outcome: MeasurementModel },
    Pushed { delivered: bool },
    Slept,
}

/// The abstract value of an `Action`.
pub enum ActionModel {
    Probe { target: Seq<char>, timeout_ms: nat },
    Log { line: Seq<char> },
    Push { url: Seq<char>, body: Seq<char> },
    Sleep { millis: nat },
}

/// The abstract state of a task.
pub struct TaskModel {
    pub target: Seq<char>,
    pub client: Seq<char>,
    pub host: Seq<char>,
    pub port: Seq<char>,
    pub identity: Seq<char>,
    pub phase: Phase,
}

impl View for Measurement {
    type V = MeasurementModel;

    open spec fn view(&self) -> MeasurementModel {
        match self {
            Measurement::Success { rtt_ms } => MeasurementModel::Success { rtt_ms: *rtt_ms as nat },
            Measurement::Failure { reason } => MeasurementModel::Failure { reason: reason@ },
        }
    }
}

impl View for Event {
    type V = EventModel;

    open spec fn view(&self) -> EventModel {
        match self {
            Event::Probed { at_millis, outcome } => EventModel::Probed {
                at_millis: *at_millis as nat,
                outcome: outcome@,
            },
            Event::Pushed { delivered } => EventModel::Pushed { delivered: *delivered },
            Event::Slept => EventModel::Slept,
        }
    }
}

impl View for Action {
    type V = ActionModel;

    open spec fn view(&self) -> ActionModel {
        match self {
            Action::Probe { target, timeout_ms } => ActionModel::Probe {
                target: target@,
                timeout_ms: *timeout_ms as nat,
            },
            Action::Log { line } => ActionModel::Log { line: line@ },
            Action::Push { url, body } => ActionModel::Push { url: url@, body: body@ },
            Action::Sleep { millis } => ActionModel::Sleep { millis: *millis as nat },
        }
    }
}

/// The abstract values of a list of actions.
pub open spec fn actions_view(v: Seq<Action>) -> Seq<ActionModel> {
    v.map_values(|a: Action| a@)
}

/// The probe that starts each iteration of `t`.
pub open spec fn probe_action(t: TaskModel) -> ActionModel {
    ActionModel::Probe { target: t.target, timeout_ms: PROBE_TIMEOUT_MS as nat }
}

/// The wait that ends each iteration.
pub open spec fn sleep_action() -> ActionModel {
    ActionModel::Sleep { millis: INTERVAL_MS as nat }
}

/// `t` in phase `p`.
pub open spec fn with_phase(t: TaskModel, p: Phase) -> TaskModel {
    TaskModel { phase: p, ..t }
}

/// One step of a task: the state after event `e` and the actions it asks for.
/// An event that does not belong to the current phase changes nothing.
pub open spec fn next(t: TaskModel, e: EventModel) -> (TaskModel, Seq<ActionModel>) {
    match e {
        EventModel::Probed { at_millis, outcome } => {
            if t.phase != Phase::Probing {
                (t, seq![])
            } else {
                match outcome {
                    MeasurementModel::Success { rtt_ms } => (
                        with_phase(t, Phase::Reporting),
                        seq![
                            ActionModel::Log { line: success_line_text(at_millis, t.target, rtt_ms) },
                            ActionModel::Push {
                                url: push_url_text(t.host, t.port, t.identity),
                                body: payload_text(t.client, t.target, rtt_ms),
                            },
                        ],
                    ),
                    MeasurementModel::Failure { reason } => (
                        with_phase(t, Phase::Sleeping),
                        seq![
                            ActionModel::Log { line: failure_line_text(at_millis, t.target, reason) },
                            sleep_action(),
                        ],
                    ),
                }
            }
        },
        EventModel::Pushed { delivered } => {
            if t.phase != Phase::Reporting {
                (t, seq![])
            } else {
                (with_phase(t, Phase::Sleeping), seq![sleep_action()])
            }
        },
        EventModel::Slept => {
            if t.phase != Phase::Sleeping {
                (t, seq![])
            } else {
                (with_phase(t, Phase::Probing), seq![probe_action(t)])
            }
        },
    }
}

/// The lowercase hyphenated text of a UUID: 36 characters, a `-` at
/// positions 8, 13, 18 and 23, a hexadecimal digit from `0-9a-f` elsewhere.
pub open spec fn is_hyphenated_uuid(s: Seq<char>) -> bool {
    &&& s.len() == 36
    &&& forall|i: int|
        0 <= i < 36 ==> if i == 8 || i == 13 || i == 18 || i == 23 {
            #[trigger] s[i] == '-'
        } else {
            ('0' <= s[i] <= '9') || ('a' <= s[i] <= 'f')
        }
}

/// Relies on `uuid::Uuid::new_v4` for a random identifier and on its
/// `Display` impl, which writes the lowercase hyphenated form.
#[verifier::external_body]
fn fresh_identity() -> (r: String)
    ensures
        is_hyphenated_uuid(r@),
{
    uuid::Uuid::new_v4().to_string()
}

/// The task of one target.
pub struct ProbeTask {
    pub target: String,
    pub client: String,
    pub host: String,
    pub port: String,
    pub identity: String,
    pub phase: Phase,
}

impl View for ProbeTask {
    type V = TaskModel;

    open spec fn view(&self) -> TaskModel {
        TaskModel {
            target: self.target@,
            client: self.client@,
            host: self.host@,
            port: self.port@,
            identity: self.identity@,
            phase: self.phase,
        }
    }
}

impl ProbeTask {
    /// A task that probes `target`, reports as `client` to the collector at
    /// `host`:`port`, and labels its pushes with job `identity`. It starts
    /// with a probe in flight (see `first_action`).
    pub fn with_identity(target: String, client: String, host: String, port: String, identity: String) -> (r: ProbeTask)
        ensures
            r@ == (TaskModel {
                target: target@,
                client: client@,
                host: host@,
                port: port@,
                identity: identity@,
                phase: Phase::Probing,
            }),
    {
        ProbeTask { target, client, host, port, identity, phase: Phase::Probing }
    }

    /// A task for `target` with a fresh random job identity, which it keeps
    /// for its whole life.
    pub fn new(target: String, client: String, host: String, port: String) -> (r: ProbeTask)
        ensures
            r@.target == target@,
            r@.client == client@,
            r@.host == host@,
            r@.port == port@,
            r@.phase == Phase::Probing,
            is_hyphenated_uuid(r@.identity),
    {
        let identity = fresh_identity();
        ProbeTask::with_identity(target, client, host, port, identity)
    }

    /// The probe that opens the first iteration.
    pub fn first_action(&self) -> (r: Action)
        ensures
            r@ == probe_action(self@),
    {
        Action::Probe { target: self.target.clone(), timeout_ms: PROBE_TIMEOUT_MS }
    }

    /// Takes the event that the last action produced, moves on, and returns
    /// the actions to perform next, in order.
    pub fn step(&mut self, event: Event) -> (r: Vec<Action>)
        ensures
            (final(self)@, actions_view(r@)) == next(old(self)@, event@),
    {
        let mut out: Vec<Action> = Vec::new();
        match event {
            Event::Probed { at_millis, outcome } => {
                if self.phase == Phase::Probing {
                    match outcome {
                        Measurement::Success { rtt_ms } => {
                            let line = success_line(at_millis, self.target.as_str(), rtt_ms);
                            let url = push_url(self.host.as_str(), self.port.as_str(), self.identity.as_str());
                            let body = render_payload(self.client.as_str(), self.target.as_str(), rtt_ms);
                            out.push(Action::Log { line });
                            out.push(Action::Push { url, body });
                            self.phase = Phase::Reporting;
                        },
                        Measurement::Failure { reason } => {
                            let line = failure_line(at_millis, self.target.as_str(), reason.as_str());
                            out.push(Action::Log { line });
                            out.push(Action::Sleep { millis: INTERVAL_MS });
                            self.phase = Phase::Sleeping;
                        },
                    }
                }
            },
            Event::Pushed { delivered: _ } => {
                if self.phase == Phase::Reporting {
                    out.push(Action::Sleep { millis: INTERVAL_MS });
                    self.phase = Phase::Sleeping;
                }
            },
            Event::Slept => {
                if self.phase == Phase::Sleeping {
                    out.push(Action::Probe { target: self.target.clone(), timeout_ms: PROBE_TIMEOUT_MS });
                    self.phase = Phase::Probing;
                }
            },
        }
        assert(actions_view(out@) =~= next(old(self)@, event@).1);
        out
    }
}

} // verus!
