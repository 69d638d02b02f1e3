//! The worker of one backend port.
//!
//! A worker owns the single connection to its backend. It connects, on failure tries the
//! standby port one above and comes back, probes the connection, and then forwards the
//! requests of its mailbox one at a time. A request that lost its connection waits in a
//! slot of one and is taken up first on the next connection, once: if it loses that
//! connection too it goes back to the slot only to be dropped. A request that is two
//! seconds old is dropped wherever it waits: its client has given up.
//!
//! The worker here is the state and the rule. The thread that drives it performs each
//! [`Action`] and reports what came of it as the next [`Event`].

use crate::clock::{can_measure, is_stale, measurable, read_clock, stale, Stamp};
use crate::config::is_backend_port;
use crate::http::{HttpRequest, HttpResponse};
use vstd::prelude::*;

verus! {

/// How long a worker waits before each connection attempt but its first.
pub const RECONNECT_PAUSE_MILLIS: u64 = 2000;

/// How long a connection attempt may take.
pub const CONNECT_TIMEOUT_MILLIS: u64 = 2000;

/// A message between a worker and its backend.
#[derive(Clone, Debug, PartialEq, Eq)]
pub enum Msg {
    /// The probe that a worker sends on a new connection.
    OKQ,
    /// The backend's answer to the probe.
    OKR,
    /// A request, forwarded to the backend.
    H1Q(HttpRequest),
    /// The backend's response to a request.
    H1P(HttpResponse),
    /// The backend's answer where it has no response to a request.
    Top,
    /// Kept for a backend that hangs up; no rule answers it yet.
    HUP,
}

/// A request in a mailbox: when it was enqueued, the request, and the slot that takes
/// its one reply.
#[derive(Debug)]
pub struct Job<S> {
    pub enqueued: Stamp,
    pub request: HttpRequest,
    pub reply: S,
}

impl<S> Job<S> {
    /// A request for a mailbox, stamped with the reading of the clock.
    pub fn new(request: HttpRequest, reply: S) -> (job: Job<S>)
        ensures
            job.enqueued.valid(),
            job.request == request,
            job.reply == reply,
    {
        Job { enqueued: read_clock(), request, reply }
    }
}

/// What a worker is waiting for.
#[derive(Clone, Copy, Debug, PartialEq, Eq, Structural)]
pub enum Phase {
    /// Not started.
    Idle,
    /// Waiting out the pause before the next connection attempt.
    Pausing,
    /// Waiting for a connection attempt to end.
    Connecting,
    /// Waiting for the answer to the probe.
    Probing,
    /// Connected, and waiting for the next request of the mailbox.
    Polling,
    /// Waiting for the backend's answer to the request in flight.
    Forwarding,
    /// Waiting for a reply to be handed to its slot.
    Delivering,
}

/// What the driving thread reports.
#[derive(Debug)]
pub enum Event<S> {
    /// The worker is to start.
    Started,
    /// The pause is over.
    Woke,
    /// The connection attempt failed.
    ConnectFailed,
    /// The connection stands.
    Connected,
    /// The probe was answered, or the exchange failed (`None`); with the clock reading
    /// taken after it.
    Probed { answer: Option<Msg>, now: Stamp },
    /// The mailbox gave a request; with the clock reading taken after it.
    Dequeued { job: Job<S>, now: Stamp },
    /// The mailbox gave nothing: every sender is gone.
    MailboxClosed,
    /// The forwarded request was answered, or the exchange failed (`None`).
    Answered { answer: Option<Msg> },
    /// The reply was handed to its slot, or the slot was gone.
    Delivered,
}

impl<S> Event<S> {
    /// The event for a probe that was answered or failed just now: with the reading
    /// of the clock.
    pub fn probed(answer: Option<Msg>) -> (e: Event<S>)
        ensures
            e matches Event::Probed { answer: a, now } && a == answer && now.valid(),
    {
        Event::Probed { answer, now: read_clock() }
    }

    /// The event for a request that the mailbox gave just now: with the reading of
    /// the clock.
    pub fn dequeued(job: Job<S>) -> (e: Event<S>)
        ensures
            e matches Event::Dequeued { job: j, now } && j == job && now.valid(),
    {
        Event::Dequeued { job, now: read_clock() }
    }
}

/// What the driving thread is to do next.
#[derive(Debug)]
pub enum Action<S> {
    /// Connect to the local port, within `timeout_millis`.
    Connect { port: u16, timeout_millis: u64 },
    /// Sleep.
    Pause { millis: u64 },
    /// Send the probe and wait for its answer.
    Probe,
    /// Send the request in flight and wait for its answer.
    Forward,
    /// Wait for the next request of the mailbox.
    Receive,
    /// Hand the reply to the slot: the response, or `None` where the backend had none.
    Deliver { reply: S, response: Option<HttpResponse> },
}

/// The port to try after `port` failed: the standby after the base port, the base port
/// after the standby.
pub open spec fn next_port(base: u16, port: u16) -> u16 {
    if port >= base + 1 {
        base
    } else {
        (port + 1) as u16
    }
}

/// The backend's answer to a probe is the one that is due.
pub open spec fn probe_ok(answer: Option<Msg>) -> bool {
    answer matches Some(Msg::OKR)
}

/// The state of a worker.
#[derive(Debug)]
pub struct Worker<S> {
    /// The port of the backend; its standby is one above.
    pub base: u16,
    /// The port to connect to next, or connected to.
    pub port: u16,
    pub phase: Phase,
    /// The request that lost its connection, waiting for the next one.
    pub retry: Option<Job<S>>,
    /// The request that the backend is working on.
    pub in_flight: Option<Job<S>>,
    /// The request in flight, or in the slot, has been forwarded a second time.
    pub retried: bool,
    /// The clock reading at which the request in flight, or in the slot, was last taken up.
    pub taken_at: Stamp,
}

impl<S> Worker<S> {
    /// A request that is held was young enough when it was taken up.
    pub open spec fn fresh_when_taken(self, job: Option<Job<S>>) -> bool {
        match job {
            Some(job) => measurable(self.taken_at, job.enqueued) && !stale(
                self.taken_at,
                job.enqueued,
            ),
            None => true,
        }
    }

    /// The parts of the state agree with each other.
    pub open spec fn valid(self) -> bool {
        &&& is_backend_port(self.base)
        &&& (self.port == self.base || self.port == self.base + 1)
        &&& (self.in_flight is Some <==> self.phase is Forwarding)
        &&& (self.retry is Some ==> self.phase is Pausing || self.phase is Connecting
            || self.phase is Probing)
        &&& (self.retried ==> self.in_flight is Some || self.retry is Some)
        &&& self.fresh_when_taken(self.in_flight)
        &&& self.fresh_when_taken(self.retry)
    }

    /// The event is one that the worker waits for, and the clock reading that comes with
    /// it can be held against the request whose age is in question.
    pub open spec fn admits(self, event: Event<S>) -> bool {
        match (self.phase, event) {
            (Phase::Idle, Event::Started) => true,
            (Phase::Pausing, Event::Woke) => true,
            (Phase::Connecting, Event::ConnectFailed) => true,
            (Phase::Connecting, Event::Connected) => true,
            (Phase::Probing, Event::Probed { answer, now }) => match self.retry {
                Some(job) => probe_ok(answer) && !self.retried ==> measurable(now, job.enqueued),
                None => true,
            },
            (Phase::Polling, Event::Dequeued { job, now }) => measurable(now, job.enqueued),
            (Phase::Polling, Event::MailboxClosed) => true,
            (Phase::Forwarding, Event::Answered { answer }) => true,
            (Phase::Delivering, Event::Delivered) => true,
            _ => false,
        }
    }

    /// The state after a failure of the connection, with what is left to retry.
    pub open spec fn disconnected(self, port: u16, retry: Option<Job<S>>) -> Worker<S> {
        Worker { port, phase: Phase::Pausing, retry, in_flight: None, ..self }
    }

    /// The state in which a request is in flight: for the first time, or as a retry.
    pub open spec fn forwarding(self, job: Job<S>, now: Stamp, retried: bool) -> Worker<S> {
        Worker {
            phase: Phase::Forwarding,
            retry: None,
            in_flight: Some(job),
            retried,
            taken_at: now,
            ..self
        }
    }

    /// The state in which the worker holds no request and waits for `phase`.
    pub open spec fn unloaded(self, phase: Phase) -> Worker<S> {
        Worker { phase, retry: None, in_flight: None, retried: false, ..self }
    }

    /// The rule of the worker: the state and the action that follow an event.
    pub open spec fn next(self, event: Event<S>) -> (Worker<S>, Action<S>) {
        let pause = Action::Pause { millis: RECONNECT_PAUSE_MILLIS };
        match (self.phase, event) {
            (Phase::Idle, Event::Started) | (Phase::Pausing, Event::Woke) => (
                Worker { phase: Phase::Connecting, ..self },
                Action::Connect { port: self.port, timeout_millis: CONNECT_TIMEOUT_MILLIS },
            ),
            (Phase::Connecting, Event::ConnectFailed) => (
                self.disconnected(next_port(self.base, self.port), self.retry),
                pause,
            ),
            (Phase::Connecting, Event::Connected) => (
                Worker { phase: Phase::Probing, ..self },
                Action::Probe,
            ),
            (Phase::Probing, Event::Probed { answer, now }) => if !probe_ok(answer) {
                (self.disconnected(next_port(self.base, self.port), self.retry), pause)
            } else {
                match self.retry {
                    Some(job) => if self.retried || stale(now, job.enqueued) {
                        (self.unloaded(Phase::Polling), Action::Receive)
                    } else {
                        (self.forwarding(job, now, true), Action::Forward)
                    },
                    None => (self.unloaded(Phase::Polling), Action::Receive),
                }
            },
            (Phase::Polling, Event::Dequeued { job, now }) => if stale(now, job.enqueued) {
                (self, Action::Receive)
            } else {
                (self.forwarding(job, now, false), Action::Forward)
            },
            (Phase::Polling, Event::MailboxClosed) => (self, Action::Receive),
            (Phase::Forwarding, Event::Answered { answer }) => match (self.in_flight, answer) {
                (Some(job), Some(Msg::Top)) => (
                    self.unloaded(Phase::Delivering),
                    Action::Deliver { reply: job.reply, response: None },
                ),
                (Some(job), Some(Msg::H1P(response))) => (
                    self.unloaded(Phase::Delivering),
                    Action::Deliver { reply: job.reply, response: Some(response) },
                ),
                _ => (self.disconnected(self.port, self.in_flight), pause),
            },
            (Phase::Delivering, Event::Delivered) => (
                self.unloaded(Phase::Polling),
                Action::Receive,
            ),
            _ => (self, Action::Receive),
        }
    }

    /// A worker for the backend on `base`, not started.
    pub fn new(base: u16) -> (w: Worker<S>)
        requires
            is_backend_port(base),
        ensures
            w.valid(),
            w == (Worker::<S> {
                base,
                port: base,
                phase: Phase::Idle,
                retry: None,
                in_flight: None,
                retried: false,
                taken_at: Stamp { sec: 0, nsec: 0 },
            }),
    {
        Worker {
            base,
            port: base,
            phase: Phase::Idle,
            retry: None,
            in_flight: None,
            retried: false,
            taken_at: Stamp { sec: 0, nsec: 0 },
        }
    }

    /// Whether the state is valid.
    pub fn is_valid(&self) -> (r: bool)
        ensures
            r == self.valid(),
    {
        if self.base % 2 != 0 {
            return false;
        }
        if !(self.port == self.base || self.port == self.base + 1) {
            return false;
        }
        let forwarding = match self.phase {
            Phase::Forwarding => true,
            _ => false,
        };
        if self.in_flight.is_some() != forwarding {
            return false;
        }
        let waiting = match self.phase {
            Phase::Pausing | Phase::Connecting | Phase::Probing => true,
            _ => false,
        };
        if self.retry.is_some() && !waiting {
            return false;
        }
        if self.retried && self.in_flight.is_none() && self.retry.is_none() {
            return false;
        }
        let first = match &self.in_flight {
            Some(job) => can_measure(self.taken_at, job.enqueued) && !is_stale(
                self.taken_at,
                job.enqueued,
            ),
            None => true,
        };
        let second = match &self.retry {
            Some(job) => can_measure(self.taken_at, job.enqueued) && !is_stale(
                self.taken_at,
                job.enqueued,
            ),
            None => true,
        };
        first && second
    }

    /// Whether the worker, in the state it is in, admits the event.
    pub fn can_take(&self, event: &Event<S>) -> (r: bool)
        ensures
            r == self.admits(*event),
    {
        match (self.phase, event) {
            (Phase::Idle, Event::Started) => true,
            (Phase::Pausing, Event::Woke) => true,
            (Phase::Connecting, Event::ConnectFailed) => true,
            (Phase::Connecting, Event::Connected) => true,
            (Phase::Probing, Event::Probed { answer, now }) => match &self.retry {
                Some(job) => match answer {
                    Some(Msg::OKR) => self.retried || can_measure(*now, job.enqueued),
                    _ => true,
                },
                None => true,
            },
            (Phase::Polling, Event::Dequeued { job, now }) => can_measure(*now, job.enqueued),
            (Phase::Polling, Event::MailboxClosed) => true,
            (Phase::Forwarding, Event::Answered { answer }) => true,
            (Phase::Delivering, Event::Delivered) => true,
            _ => false,
        }
    }

    /// Takes an event and says what to do next.
    pub fn step(self, event: Event<S>) -> (r: (Worker<S>, Action<S>))
        requires
            self.valid(),
            self.admits(event),
        ensures
            r == self.next(event),
            r.0.valid(),
    {
        let mut w = self;
        match (w.phase, event) {
            (Phase::Idle, Event::Started) | (Phase::Pausing, Event::Woke) => {
                w.phase = Phase::Connecting;
                let port = w.port;
                (w, Action::Connect { port, timeout_millis: CONNECT_TIMEOUT_MILLIS })
            },
            (Phase::Connecting, Event::ConnectFailed) => {
                w.port = rotate(w.base, w.port);
                w.phase = Phase::Pausing;
                (w, Action::Pause { millis: RECONNECT_PAUSE_MILLIS })
            },
            (Phase::Connecting, Event::Connected) => {
                w.phase = Phase::Probing;
                (w, Action::Probe)
            },
            (Phase::Probing, Event::Probed { answer, now }) => {
                let answered = match answer {
                    Some(Msg::OKR) => true,
                    _ => false,
                };
                if !answered {
                    w.port = rotate(w.base, w.port);
                    w.phase = Phase::Pausing;
                    return (w, Action::Pause { millis: RECONNECT_PAUSE_MILLIS });
                }
                let retried = w.retried;
                w.retried = false;
                w.phase = Phase::Polling;
                match w.retry.take() {
                    Some(job) => {
                        if retried || is_stale(now, job.enqueued) {
                            (w, Action::Receive)
                        } else {
                            w.phase = Phase::Forwarding;
                            w.in_flight = Some(job);
                            w.retried = true;
                            w.taken_at = now;
                            (w, Action::Forward)
                        }
                    },
                    None => (w, Action::Receive),
                }
            },
            (Phase::Polling, Event::Dequeued { job, now }) => {
                if is_stale(now, job.enqueued) {
                    (w, Action::Receive)
                } else {
                    w.phase = Phase::Forwarding;
                    w.in_flight = Some(job);
                    w.retried = false;
                    w.taken_at = now;
                    (w, Action::Forward)
                }
            },
            (Phase::Polling, Event::MailboxClosed) => (w, Action::Receive),
            (Phase::Forwarding, Event::Answered { answer }) => {
                let held = w.in_flight.take();
                match (held, answer) {
                    (Some(job), Some(Msg::Top)) => {
                        w.phase = Phase::Delivering;
                        w.retried = false;
                        (w, Action::Deliver { reply: job.reply, response: None })
                    },
                    (Some(job), Some(Msg::H1P(response))) => {
                        w.phase = Phase::Delivering;
                        w.retried = false;
                        (w, Action::Deliver { reply: job.reply, response: Some(response) })
                    },
                    (held, _) => {
                        w.phase = Phase::Pausing;
                        w.retry = held;
                        (w, Action::Pause { millis: RECONNECT_PAUSE_MILLIS })
                    },
                }
            },
            (Phase::Delivering, Event::Delivered) => {
                w.phase = Phase::Polling;
                (w, Action::Receive)
            },
            _ => (w, Action::Receive),
        }
    }
}

/// The port to try after `port` failed.
fn rotate(base: u16, port: u16) -> (r: u16)
    requires
        is_backend_port(base),
        port == base || port == base + 1,
    ensures
        r == next_port(base, port),
        r == base || r == base + 1,
{
    if port > base {
        base
    } else {
        port + 1
    }
}

/// A request that is stale when the worker comes to it is never forwarded. One from the
/// mailbox is dropped and the worker waits for the next; one in the retry slot is dropped
/// and the slot is empty. Whenever the worker does forward, the request in flight is the
/// one that the event brought up, and it is not stale at the clock reading of that event.
pub proof fn law_stale_is_never_forwarded<S>(w: Worker<S>, event: Event<S>)
    requires
        w.valid(),
        w.admits(event),
    ensures
        event matches Event::Dequeued { job, now } && stale(now, job.enqueued) ==> w.next(event)
            == (w, Action::<S>::Receive),
        event matches Event::Probed { answer, now } && probe_ok(answer) && (
        w.retry matches Some(job) && stale(now, job.enqueued)) ==> w.next(event) == (
            w.unloaded(Phase::Polling),
            Action::<S>::Receive,
        ),
        w.next(event).1 is Forward ==> ({
            let after = w.next(event).0;
            &&& after.in_flight matches Some(job) && !stale(after.taken_at, job.enqueued)
            &&& after.retry is None
            &&& event matches Event::Dequeued { job, now } ==> after.in_flight == Some(job)
                && after.taken_at == now
            &&& event matches Event::Probed { answer, now } ==> after.in_flight == w.retry
                && after.taken_at == now
            &&& event is Dequeued || event is Probed
        }),
{
}

/// A reply is delivered only for the request in flight, to its own slot, and that
/// request was not stale when it was forwarded: none is delivered for a request that had
/// waited beyond the deadline.
pub proof fn law_reply_only_for_fresh<S>(w: Worker<S>, event: Event<S>)
    requires
        w.valid(),
        w.admits(event),
    ensures
        w.next(event).1 matches Action::Deliver { reply, response } ==> (
        w.in_flight matches Some(job) && job.reply == reply && !stale(w.taken_at, job.enqueued)),
        w.next(event).1 is Deliver ==> w.next(event).0.in_flight is None && w.next(
            event,
        ).0.retry is None,
{
}

/// A request that lost its connection is retried at most once. It waits in the slot,
/// unmarked, and is the first thing taken up on the next connection that answers the
/// probe; from then on it is marked. A marked request that loses its connection goes
/// back to the slot with its mark, keeps it while the worker reconnects, and is dropped
/// on the next connection, whatever the clock reads: no marked request is ever forwarded.
pub proof fn law_at_most_one_retry<S>(w: Worker<S>, event: Event<S>)
    requires
        w.valid(),
        w.admits(event),
    ensures
        ({
            let after = w.next(event);
            // A request from the mailbox starts without the mark.
            &&& event is Dequeued && after.1 is Forward ==> !after.0.retried
            // The request of the slot is forwarded only while it is unmarked, and is marked then.
            &&& event is Probed && after.1 is Forward ==> !w.retried && w.retry is Some
                && after.0.in_flight == w.retry && after.0.retried
            // No other event forwards anything.
            &&& after.1 is Forward ==> event is Dequeued || event is Probed
            // A request that loses its connection goes to the slot as it is.
            &&& event is Answered && after.1 is Pause ==> after.0.retry == w.in_flight
                && after.0.retried == w.retried
            // The slot and the mark are kept until a connection answers the probe.
            &&& after.0.retry is Some && !(event is Answered) ==> after.0.retry == w.retry
                && after.0.retried == w.retried
            // A marked request in the slot is dropped there.
            &&& w.retried && (event matches Event::Probed { answer, .. } && probe_ok(answer))
                ==> after == (w.unloaded(Phase::Polling), Action::<S>::Receive)
        }),
{
}

/// An unmarked request in the slot that is not stale is forwarded as soon as a
/// connection answers the probe, before anything of the mailbox.
pub proof fn law_retry_comes_first<S>(w: Worker<S>, answer: Option<Msg>, now: Stamp)
    requires
        w.valid(),
        w.phase is Probing,
        w.admits(Event::Probed { answer, now }),
        probe_ok(answer),
        !w.retried,
    ensures
        w.retry matches Some(job) ==> (!stale(now, job.enqueued) ==> w.next(
            Event::Probed { answer, now },
        ) == (w.forwarding(job, now, true), Action::<S>::Forward)),
        w.next(Event::Probed { answer, now }).0.retry is None,
{
}

/// A worker never gives up on a backend that cannot be reached: a failed attempt is
/// followed by the pause and then by an attempt on the other of the two ports, and the
/// port after that is the first one again.
pub proof fn law_unreachable_backend_is_retried<S>(w: Worker<S>)
    requires
        w.valid(),
        w.phase is Connecting,
    ensures
        ({
            let failed = w.next(Event::ConnectFailed);
            let woken = failed.0.next(Event::Woke);
            &&& failed.1 == Action::<S>::Pause { millis: RECONNECT_PAUSE_MILLIS }
            &&& failed.0.admits(Event::Woke)
            &&& woken.1 == Action::<S>::Connect {
                port: next_port(w.base, w.port),
                timeout_millis: CONNECT_TIMEOUT_MILLIS,
            }
            &&& woken.0.phase is Connecting
            &&& woken.0.retry == w.retry
            &&& next_port(w.base, w.port) != w.port
            &&& next_port(w.base, next_port(w.base, w.port)) == w.port
        }),
{
}

} // verus!
