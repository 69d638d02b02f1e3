//! The life of the service: bind the listening socket, accept until told to hang up,
//! let the work in hand finish, and leave when told to.
//!
//! A [`Service`] is the state and the rule. The main thread performs each
//! [`ServiceAction`] and reports what came of it as the next [`ServiceEvent`].

use vstd::prelude::*;

verus! {

/// The port that the gateway listens on.
pub const LISTEN_PORT: u16 = 443;

/// The number of attempts to bind that are made at the short pause.
pub const BIND_QUICK_TRIES: u32 = 50;

/// The pause before an early attempt to bind, but the first.
pub const BIND_SHORT_PAUSE_MILLIS: u64 = 100;

/// The pause before a late attempt to bind.
pub const BIND_LONG_PAUSE_MILLIS: u64 = 2000;

/// How long one wait for a connection lasts before the signals are looked at again.
pub const POLL_TIMEOUT_MILLIS: u64 = 2000;

/// How long the socket stays open after the signal to hang up.
pub const DRAIN_PAUSE_MILLIS: u64 = 1000;

/// The pause between two looks at the signals that end the process.
pub const EXIT_POLL_MILLIS: u64 = 1000;

/// The pause before an attempt to bind, after `tries` attempts have failed: none before
/// the first, the short one while the attempts are few, the long one from then on.
pub open spec fn bind_pause(tries: u32) -> u64 {
    if tries >= BIND_QUICK_TRIES {
        BIND_LONG_PAUSE_MILLIS
    } else if tries > 0 {
        BIND_SHORT_PAUSE_MILLIS
    } else {
        0
    }
}

/// The pause in milliseconds before an attempt to bind, after `tries` attempts have
/// failed.
pub fn bind_pause_millis(tries: u32) -> (r: u64)
    ensures
        r == bind_pause(tries),
{
    if tries >= BIND_QUICK_TRIES {
        BIND_LONG_PAUSE_MILLIS
    } else if tries > 0 {
        BIND_SHORT_PAUSE_MILLIS
    } else {
        0
    }
}

/// One more failed attempt; the count stays where it is once it cannot grow.
pub open spec fn one_more(tries: u32) -> u32 {
    if tries < u32::MAX {
        (tries + 1) as u32
    } else {
        tries
    }
}

/// What the service is waiting for.
#[derive(Clone, Copy, Debug, PartialEq, Eq, Structural)]
pub enum Service {
    /// Not started.
    Idle,
    /// Waiting for an attempt to bind to end, after `tries` attempts have failed.
    Binding { tries: u32 },
    /// Waiting for the gateway to be set up: the socket made non-blocking, the process
    /// confined, the certificate loaded, the workers started.
    Starting,
    /// Waiting for a connection, or for the wait to time out.
    Polling,
    /// Waiting for one pending connection to be accepted.
    Accepting,
    /// Waiting out the time that the work in hand is given to finish.
    Draining,
    /// Waiting for the signal to leave.
    Leaving,
    /// Finished.
    Stopped,
}

/// What the main thread reports.
#[derive(Clone, Copy, Debug, PartialEq, Eq, Structural)]
pub enum ServiceEvent {
    /// The service is to start.
    Started,
    /// The attempt to bind failed.
    BindFailed,
    /// The socket is bound.
    Bound,
    /// The gateway is set up, or cannot be: no primary host is configured, or its
    /// certificate cannot be used.
    GatewayReady { ok: bool },
    /// The signal to hang up was looked for and, where it had not come, the socket was
    /// waited on: `ready` says that a connection is pending.
    Polled { hangup: bool, ready: bool },
    /// A pending connection was accepted and given a thread of its own, or there was
    /// none left.
    Accepted { any: bool },
    /// The pause is over, and the signals to leave were looked for.
    Signals { interrupt: bool, terminate: bool },
    /// The time to finish is over.
    Drained,
}

/// What the main thread is to do next.
#[derive(Clone, Copy, Debug, PartialEq, Eq, Structural)]
pub enum ServiceAction {
    /// Sleep, then try to bind the listening socket.
    Bind { port: u16, after_millis: u64 },
    /// Set the gateway up.
    StartGateway,
    /// Look for the signal to hang up; where it has not come, wait for a connection.
    Poll { timeout_millis: u64 },
    /// Accept one pending connection and serve it on a thread of its own.
    Accept,
    /// Sleep, then close the listening socket.
    Drain { millis: u64 },
    /// Sleep, then look for the signals to leave.
    AwaitSignal { after_millis: u64 },
    /// Leave.
    Exit,
}

impl Service {
    /// The event is one that the service waits for.
    pub open spec fn admits(self, event: ServiceEvent) -> bool {
        match (self, event) {
            (Service::Idle, ServiceEvent::Started) => true,
            (Service::Binding { .. }, ServiceEvent::BindFailed) => true,
            (Service::Binding { .. }, ServiceEvent::Bound) => true,
            (Service::Starting, ServiceEvent::GatewayReady { .. }) => true,
            (Service::Polling, ServiceEvent::Polled { .. }) => true,
            (Service::Accepting, ServiceEvent::Accepted { .. }) => true,
            (Service::Draining, ServiceEvent::Drained) => true,
            (Service::Leaving, ServiceEvent::Signals { .. }) => true,
            _ => false,
        }
    }

    /// The rule of the service: the state and the action that follow an event.
    pub open spec fn next(self, event: ServiceEvent) -> (Service, ServiceAction) {
        match (self, event) {
            (Service::Idle, ServiceEvent::Started) => (
                Service::Binding { tries: 0 },
                ServiceAction::Bind { port: LISTEN_PORT, after_millis: bind_pause(0) },
            ),
            (Service::Binding { tries }, ServiceEvent::BindFailed) => (
                Service::Binding { tries: one_more(tries) },
                ServiceAction::Bind {
                    port: LISTEN_PORT,
                    after_millis: bind_pause(one_more(tries)),
                },
            ),
            (Service::Binding { .. }, ServiceEvent::Bound) => (
                Service::Starting,
                ServiceAction::StartGateway,
            ),
            (Service::Starting, ServiceEvent::GatewayReady { ok }) => if ok {
                (Service::Polling, ServiceAction::Poll { timeout_millis: POLL_TIMEOUT_MILLIS })
            } else {
                (Service::Draining, ServiceAction::Drain { millis: DRAIN_PAUSE_MILLIS })
            },
            (Service::Polling, ServiceEvent::Polled { hangup, ready }) => if hangup {
                (Service::Draining, ServiceAction::Drain { millis: DRAIN_PAUSE_MILLIS })
            } else if ready {
                (Service::Accepting, ServiceAction::Accept)
            } else {
                (Service::Polling, ServiceAction::Poll { timeout_millis: POLL_TIMEOUT_MILLIS })
            },
            (Service::Accepting, ServiceEvent::Accepted { any }) => if any {
                (Service::Accepting, ServiceAction::Accept)
            } else {
                (Service::Polling, ServiceAction::Poll { timeout_millis: POLL_TIMEOUT_MILLIS })
            },
            (Service::Draining, ServiceEvent::Drained) => (
                Service::Leaving,
                ServiceAction::AwaitSignal { after_millis: 0 },
            ),
            (Service::Leaving, ServiceEvent::Signals { interrupt, terminate }) => if interrupt
                || terminate {
                (Service::Stopped, ServiceAction::Exit)
            } else {
                (Service::Leaving, ServiceAction::AwaitSignal { after_millis: EXIT_POLL_MILLIS })
            },
            _ => (Service::Stopped, ServiceAction::Exit),
        }
    }

    /// The service accepts no connection any more: it was told to hang up, or could
    /// not start.
    pub open spec fn closing(self) -> bool {
        self is Draining || self is Leaving || self is Stopped
    }

    /// The service before it is started.
    pub fn new() -> (r: Service)
        ensures
            r == Service::Idle,
    {
        Service::Idle
    }

    /// Whether the service, in the state it is in, admits the event.
    pub fn can_take(&self, event: &ServiceEvent) -> (r: bool)
        ensures
            r == self.admits(*event),
    {
        match (self, event) {
            (Service::Idle, ServiceEvent::Started) => true,
            (Service::Binding { .. }, ServiceEvent::BindFailed) => true,
            (Service::Binding { .. }, ServiceEvent::Bound) => true,
            (Service::Starting, ServiceEvent::GatewayReady { .. }) => true,
            (Service::Polling, ServiceEvent::Polled { .. }) => true,
            (Service::Accepting, ServiceEvent::Accepted { .. }) => true,
            (Service::Draining, ServiceEvent::Drained) => true,
            (Service::Leaving, ServiceEvent::Signals { .. }) => true,
            _ => false,
        }
    }

    /// Takes an event and says what to do next.
    pub fn step(self, event: ServiceEvent) -> (r: (Service, ServiceAction))
        requires
            self.admits(event),
        ensures
            r == self.next(event),
    {
        match (self, event) {
            (Service::Idle, ServiceEvent::Started) => (
                Service::Binding { tries: 0 },
                ServiceAction::Bind { port: LISTEN_PORT, after_millis: bind_pause_millis(0) },
            ),
            (Service::Binding { tries }, ServiceEvent::BindFailed) => {
                let tries: u32 = if tries < u32::MAX {
                    tries + 1
                } else {
                    tries
                };
                (
                    Service::Binding { tries },
                    ServiceAction::Bind {
                        port: LISTEN_PORT,
                        after_millis: bind_pause_millis(tries),
                    },
                )
            },
            (Service::Binding { .. }, ServiceEvent::Bound) => (
                Service::Starting,
                ServiceAction::StartGateway,
            ),
            (Service::Starting, ServiceEvent::GatewayReady { ok }) => if ok {
                (Service::Polling, ServiceAction::Poll { timeout_millis: POLL_TIMEOUT_MILLIS })
            } else {
                (Service::Draining, ServiceAction::Drain { millis: DRAIN_PAUSE_MILLIS })
            },
            (Service::Polling, ServiceEvent::Polled { hangup, ready }) => if hangup {
                (Service::Draining, ServiceAction::Drain { millis: DRAIN_PAUSE_MILLIS })
            } else if ready {
                (Service::Accepting, ServiceAction::Accept)
            } else {
                (Service::Polling, ServiceAction::Poll { timeout_millis: POLL_TIMEOUT_MILLIS })
            },
            (Service::Accepting, ServiceEvent::Accepted { any }) => if any {
                (Service::Accepting, ServiceAction::Accept)
            } else {
                (Service::Polling, ServiceAction::Poll { timeout_millis: POLL_TIMEOUT_MILLIS })
            },
            (Service::Draining, ServiceEvent::Drained) => (
                Service::Leaving,
                ServiceAction::AwaitSignal { after_millis: 0 },
            ),
            (Service::Leaving, ServiceEvent::Signals { interrupt, terminate }) => if interrupt
                || terminate {
                (Service::Stopped, ServiceAction::Exit)
            } else {
                (Service::Leaving, ServiceAction::AwaitSignal { after_millis: EXIT_POLL_MILLIS })
            },
            _ => (Service::Stopped, ServiceAction::Exit),
        }
    }
}

/// The service binds without a pause at first, then at the short pause, and at the long
/// one once the quick attempts are used up; it never stops trying.
pub proof fn law_bind_backs_off(tries: u32)
    ensures
        bind_pause(0) == 0,
        0 < tries < BIND_QUICK_TRIES ==> bind_pause(tries) == BIND_SHORT_PAUSE_MILLIS,
        tries >= BIND_QUICK_TRIES ==> bind_pause(tries) == BIND_LONG_PAUSE_MILLIS,
        (Service::Binding { tries }).next(ServiceEvent::BindFailed).0 is Binding,
        (Service::Binding { tries }).next(ServiceEvent::BindFailed).1 is Bind,
{
}

/// The signal to hang up ends the accepting for good: the service that sees it accepts
/// nothing on that look, and from a service that is closing no event leads back to a
/// state that accepts, nor to an order to accept, to poll or to bind.
pub proof fn law_hangup_stops_accepting(state: Service, ready: bool, later: ServiceEvent)
    ensures
        Service::Polling.next(ServiceEvent::Polled { hangup: true, ready }) == (
            Service::Draining,
            ServiceAction::Drain { millis: DRAIN_PAUSE_MILLIS },
        ),
        state.closing() && state.admits(later) ==> state.next(later).0.closing() && (state.next(
            later,
        ).1 is AwaitSignal || state.next(later).1 is Exit),
{
}

/// The process leaves only on the signal to interrupt or to terminate, and then at once.
pub proof fn law_leaves_on_signal(interrupt: bool, terminate: bool)
    ensures
        Service::Leaving.next(ServiceEvent::Signals { interrupt, terminate }).0 is Stopped <==> (
        interrupt || terminate),
        Service::Leaving.next(ServiceEvent::Signals { interrupt, terminate }).1 is Exit <==> (
        interrupt || terminate),
{
}

} // verus!
