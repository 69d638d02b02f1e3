//! What the gateway keeps for the certificate client: where the credentials of a domain
//! lie, whom an account is registered for, and the entry of the routing table that
//! answers one challenge while it lasts.

use crate::http::{path_view, Method};
use crate::route::{route_key, RouteKey, Router};
use vstd::prelude::*;
use vstd::string::StringExecFns;

verus! {

/// The port on which a challenge is answered.
pub const CHALLENGE_PORT: u16 = 80;

/// The path under which the answer to the challenge with this token is published.
pub open spec fn challenge_segments(token: Seq<char>) -> Seq<Seq<char>> {
    seq![".well-known"@, "acme-challenge"@, token]
}

/// The key of the routing table under which a challenge is answered.
pub open spec fn challenge_key(token: Seq<char>) -> RouteKey {
    RouteKey { port: CHALLENGE_PORT, method: Method::Get, path: challenge_segments(token) }
}

/// The segments of the path under which the answer to a challenge is published.
pub fn challenge_path(token: &str) -> (r: Vec<String>)
    ensures
        path_view(r@) == challenge_segments(token@),
{
    let mut path: Vec<String> = Vec::new();
    path.push(".well-known".to_owned());
    path.push("acme-challenge".to_owned());
    path.push(token.to_owned());
    path
}

/// Publishes the answer to a challenge: from now on `handler` answers a `GET` for the
/// challenge's path on the challenge port.
pub fn publish_challenge<H>(router: &mut Router<H>, token: &str, handler: H)
    requires
        old(router).wf(),
    ensures
        final(router).wf(),
        final(router)@ == old(router)@.insert(challenge_key(token@), handler),
{
    let path = challenge_path(token);
    router.insert(CHALLENGE_PORT, Method::Get, path, handler);
}

/// Takes the answer to a challenge back, and hands back its handler if it was there.
pub fn retract_challenge<H>(router: &mut Router<H>, token: &str) -> (r: Option<H>)
    requires
        old(router).wf(),
    ensures
        final(router).wf(),
        final(router)@ == old(router)@.remove(challenge_key(token@)),
        r == if old(router)@.contains_key(challenge_key(token@)) {
            Some(old(router)@[challenge_key(token@)])
        } else {
            None
        },
{
    let path = challenge_path(token);
    router.remove(CHALLENGE_PORT, Method::Get, &path)
}

/// The contact under which the account for a domain is registered.
pub fn account_contact(domain: &str) -> (r: String)
    ensures
        r@ == "dns@"@ + domain@,
{
    let mut contact = String::from_str("dns@");
    contact.append(domain);
    contact
}

/// The files that hold the certificate and the key of a domain, in this order.
pub fn credential_paths(domain: &str) -> (r: (String, String))
    ensures
        r.0@ == "/var/tmp/acme/"@ + domain@ + ".crt"@,
        r.1@ == "/var/tmp/acme/"@ + domain@ + ".key"@,
{
    let mut crt = String::from_str("/var/tmp/acme/");
    crt.append(domain);
    crt.append(".crt");
    let mut key = String::from_str("/var/tmp/acme/");
    key.append(domain);
    key.append(".key");
    (crt, key)
}

/// An answer to a challenge is there only while the challenge lasts: once it is taken
/// back the table no longer answers for its token, and where the table held nothing under
/// that key before, it is again what it was. Entries under other keys are never touched.
pub proof fn law_challenge_is_transient<H>(
    table: Map<RouteKey, H>,
    token: Seq<char>,
    handler: H,
    other: RouteKey,
)
    ensures
        table.insert(challenge_key(token), handler).contains_key(challenge_key(token)),
        table.insert(challenge_key(token), handler)[challenge_key(token)] == handler,
        !table.insert(challenge_key(token), handler).remove(challenge_key(token)).contains_key(
            challenge_key(token),
        ),
        !table.contains_key(challenge_key(token)) ==> table.insert(
            challenge_key(token),
            handler,
        ).remove(challenge_key(token)) == table,
        other != challenge_key(token) ==> (table.insert(challenge_key(token), handler).remove(
            challenge_key(token),
        ).contains_key(other) == table.contains_key(other)),
{
    assert(!table.contains_key(challenge_key(token)) ==> table.insert(
        challenge_key(token),
        handler,
    ).remove(challenge_key(token)) =~= table);
}

/// The interval at which the certificate authority is asked how a step has gone.
pub const ORDER_POLL_MILLIS: u64 = 10_000;

/// The pause after an order that failed, before the next one is opened.
pub const RENEWAL_PAUSE_MILLIS: u64 = 30_000;

/// A challenge of an order: the token to publish, and the proof that answers it.
#[derive(Clone, Debug, PartialEq, Eq)]
pub struct Challenge {
    pub token: String,
    pub proof: String,
}

/// Why an order came to nothing.
#[derive(Clone, Copy, Debug, PartialEq, Eq, Structural)]
pub enum Failure {
    /// The order was not validated, and named no challenge either.
    NoChallenge,
    /// The certificate client reported an error.
    Client,
}

/// What the renewal of a certificate is waiting for.
#[derive(Clone, Debug, PartialEq, Eq)]
pub enum Renewal {
    /// Not started.
    Idle,
    /// Waiting for an order to be opened.
    Opening,
    /// Waiting to hear whether every name of the order is validated.
    Confirming,
    /// Waiting for the open challenges of the order.
    Listing,
    /// Waiting for the answer to a challenge to be published.
    Publishing { token: String },
    /// Waiting for the challenge to be checked from outside.
    Validating { token: String },
    /// Waiting for the state of the order to be read anew.
    Refreshing { token: String },
    /// Waiting for the answer to the challenge to be taken back; `failed` says why the
    /// order is given up after that, if it is.
    Retracting { token: String, failed: Option<Failure> },
    /// Waiting for the certificate to be issued and stored.
    Finalizing,
    /// Waiting out the pause after an order that failed.
    Resting { why: Failure },
    /// The certificate is there.
    Done,
}

/// What the thread that renews the certificate reports.
#[derive(Clone, Debug, PartialEq, Eq)]
pub enum RenewalEvent {
    /// The renewal is to start.
    Started,
    /// An order was opened, or could not be.
    Opened { ok: bool },
    /// Every name of the order is validated, or is not.
    Confirmed { ready: bool },
    /// The open challenges of the order, or `None` where they could not be had.
    Listed { challenges: Option<Vec<Challenge>> },
    /// The answer to the challenge stands in the routing table.
    Published,
    /// The challenge was checked from outside, or the check failed.
    Validated { ok: bool },
    /// The state of the order was read anew, or could not be.
    Refreshed { ok: bool },
    /// The answer to the challenge is out of the routing table.
    Retracted,
    /// The certificate was issued and stored, or could not be.
    Finalized { ok: bool },
    /// The pause is over.
    Woke,
}

/// What the thread that renews the certificate is to do next.
#[derive(Clone, Debug, PartialEq, Eq)]
pub enum RenewalAction {
    /// Open an order for the domain, on the account of its contact.
    OpenOrder,
    /// Ask whether every name of the order is validated.
    Confirm,
    /// Ask for the open challenges of the order.
    List,
    /// Publish the answer to the challenge in the routing table.
    Publish { token: String, proof: String },
    /// Have the challenge checked from outside, asking at this interval.
    Validate { poll_millis: u64 },
    /// Read the state of the order anew.
    Refresh,
    /// Take the answer to the challenge out of the routing table.
    Retract { token: String },
    /// Make a key, have the certificate issued, and store both.
    Finalize { poll_millis: u64 },
    /// Sleep: the order failed.
    Pause { millis: u64, why: Failure },
    /// Nothing more: the certificate is there.
    Finish,
}

impl Renewal {
    /// The token whose answer stands, or is about to stand, in the routing table.
    pub open spec fn published(self) -> Option<String> {
        match self {
            Renewal::Publishing { token } => Some(token),
            Renewal::Validating { token } => Some(token),
            Renewal::Refreshing { token } => Some(token),
            Renewal::Retracting { token, .. } => Some(token),
            _ => None,
        }
    }

    /// The event is one that the renewal waits for.
    pub open spec fn admits(self, event: RenewalEvent) -> bool {
        match (self, event) {
            (Renewal::Idle, RenewalEvent::Started) => true,
            (Renewal::Opening, RenewalEvent::Opened { .. }) => true,
            (Renewal::Confirming, RenewalEvent::Confirmed { .. }) => true,
            (Renewal::Listing, RenewalEvent::Listed { .. }) => true,
            (Renewal::Publishing { .. }, RenewalEvent::Published) => true,
            (Renewal::Validating { .. }, RenewalEvent::Validated { .. }) => true,
            (Renewal::Refreshing { .. }, RenewalEvent::Refreshed { .. }) => true,
            (Renewal::Retracting { .. }, RenewalEvent::Retracted) => true,
            (Renewal::Finalizing, RenewalEvent::Finalized { .. }) => true,
            (Renewal::Resting { .. }, RenewalEvent::Woke) => true,
            _ => false,
        }
    }

    /// The state and the action after an order has failed for good.
    pub open spec fn given_up(why: Failure) -> (Renewal, RenewalAction) {
        (Renewal::Resting { why }, RenewalAction::Pause { millis: RENEWAL_PAUSE_MILLIS, why })
    }

    /// The state and the action that take the answer to a challenge back.
    pub open spec fn retracting(token: String, failed: Option<Failure>) -> (
        Renewal,
        RenewalAction,
    ) {
        (Renewal::Retracting { token, failed }, RenewalAction::Retract { token })
    }

    /// The rule of the renewal: the state and the action that follow an event.
    pub open spec fn next(self, event: RenewalEvent) -> (Renewal, RenewalAction) {
        match (self, event) {
            (Renewal::Idle, RenewalEvent::Started) | (Renewal::Resting { .. }, RenewalEvent::Woke) => (
                Renewal::Opening,
                RenewalAction::OpenOrder,
            ),
            (Renewal::Opening, RenewalEvent::Opened { ok }) => if ok {
                (Renewal::Confirming, RenewalAction::Confirm)
            } else {
                Renewal::given_up(Failure::Client)
            },
            (Renewal::Confirming, RenewalEvent::Confirmed { ready }) => if ready {
                (Renewal::Finalizing, RenewalAction::Finalize { poll_millis: ORDER_POLL_MILLIS })
            } else {
                (Renewal::Listing, RenewalAction::List)
            },
            (Renewal::Listing, RenewalEvent::Listed { challenges }) => match challenges {
                None => Renewal::given_up(Failure::Client),
                Some(list) => if list@.len() == 0 {
                    Renewal::given_up(Failure::NoChallenge)
                } else {
                    (
                        Renewal::Publishing { token: list@[0].token },
                        RenewalAction::Publish { token: list@[0].token, proof: list@[0].proof },
                    )
                },
            },
            (Renewal::Publishing { token }, RenewalEvent::Published) => (
                Renewal::Validating { token },
                RenewalAction::Validate { poll_millis: ORDER_POLL_MILLIS },
            ),
            (Renewal::Validating { token }, RenewalEvent::Validated { ok }) => if ok {
                (Renewal::Refreshing { token }, RenewalAction::Refresh)
            } else {
                Renewal::retracting(token, Some(Failure::Client))
            },
            (Renewal::Refreshing { token }, RenewalEvent::Refreshed { ok }) => Renewal::retracting(
                token,
                if ok {
                    None
                } else {
                    Some(Failure::Client)
                },
            ),
            (Renewal::Retracting { token, failed }, RenewalEvent::Retracted) => match failed {
                Some(why) => Renewal::given_up(why),
                None => (Renewal::Confirming, RenewalAction::Confirm),
            },
            (Renewal::Finalizing, RenewalEvent::Finalized { ok }) => if ok {
                (Renewal::Done, RenewalAction::Finish)
            } else {
                Renewal::given_up(Failure::Client)
            },
            _ => (self, RenewalAction::Finish),
        }
    }

    /// The renewal before it is started.
    pub fn new() -> (r: Renewal)
        ensures
            r == Renewal::Idle,
    {
        Renewal::Idle
    }

    /// Whether the renewal, in the state it is in, admits the event.
    pub fn can_take(&self, event: &RenewalEvent) -> (r: bool)
        ensures
            r == self.admits(*event),
    {
        match (self, event) {
            (Renewal::Idle, RenewalEvent::Started) => true,
            (Renewal::Opening, RenewalEvent::Opened { .. }) => true,
            (Renewal::Confirming, RenewalEvent::Confirmed { .. }) => true,
            (Renewal::Listing, RenewalEvent::Listed { .. }) => true,
            (Renewal::Publishing { .. }, RenewalEvent::Published) => true,
            (Renewal::Validating { .. }, RenewalEvent::Validated { .. }) => true,
            (Renewal::Refreshing { .. }, RenewalEvent::Refreshed { .. }) => true,
            (Renewal::Retracting { .. }, RenewalEvent::Retracted) => true,
            (Renewal::Finalizing, RenewalEvent::Finalized { .. }) => true,
            (Renewal::Resting { .. }, RenewalEvent::Woke) => true,
            _ => false,
        }
    }

    /// Takes an event and says what to do next.
    pub fn step(self, event: RenewalEvent) -> (r: (Renewal, RenewalAction))
        requires
            self.admits(event),
        ensures
            r == self.next(event),
    {
        let pause = RENEWAL_PAUSE_MILLIS;
        match (self, event) {
            (Renewal::Idle, RenewalEvent::Started) | (Renewal::Resting { .. }, RenewalEvent::Woke) => (
                Renewal::Opening,
                RenewalAction::OpenOrder,
            ),
            (Renewal::Opening, RenewalEvent::Opened { ok }) => if ok {
                (Renewal::Confirming, RenewalAction::Confirm)
            } else {
                (
                    Renewal::Resting { why: Failure::Client },
                    RenewalAction::Pause { millis: pause, why: Failure::Client },
                )
            },
            (Renewal::Confirming, RenewalEvent::Confirmed { ready }) => if ready {
                (Renewal::Finalizing, RenewalAction::Finalize { poll_millis: ORDER_POLL_MILLIS })
            } else {
                (Renewal::Listing, RenewalAction::List)
            },
            (Renewal::Listing, RenewalEvent::Listed { challenges }) => match challenges {
                None => (
                    Renewal::Resting { why: Failure::Client },
                    RenewalAction::Pause { millis: pause, why: Failure::Client },
                ),
                Some(mut list) => if list.len() == 0 {
                    (
                        Renewal::Resting { why: Failure::NoChallenge },
                        RenewalAction::Pause { millis: pause, why: Failure::NoChallenge },
                    )
                } else {
                    let Challenge { token, proof } = list.swap_remove(0);
                    (
                        Renewal::Publishing { token: token.clone() },
                        RenewalAction::Publish { token, proof },
                    )
                },
            },
            (Renewal::Publishing { token }, RenewalEvent::Published) => (
                Renewal::Validating { token },
                RenewalAction::Validate { poll_millis: ORDER_POLL_MILLIS },
            ),
            (Renewal::Validating { token }, RenewalEvent::Validated { ok }) => if ok {
                (Renewal::Refreshing { token }, RenewalAction::Refresh)
            } else {
                (
                    Renewal::Retracting { token: token.clone(), failed: Some(Failure::Client) },
                    RenewalAction::Retract { token },
                )
            },
            (Renewal::Refreshing { token }, RenewalEvent::Refreshed { ok }) => {
                let failed = if ok {
                    None
                } else {
                    Some(Failure::Client)
                };
                (
                    Renewal::Retracting { token: token.clone(), failed },
                    RenewalAction::Retract { token },
                )
            },
            (Renewal::Retracting { token, failed }, RenewalEvent::Retracted) => match failed {
                Some(why) => (Renewal::Resting { why }, RenewalAction::Pause { millis: pause, why }),
                None => (Renewal::Confirming, RenewalAction::Confirm),
            },
            (Renewal::Finalizing, RenewalEvent::Finalized { ok }) => if ok {
                (Renewal::Done, RenewalAction::Finish)
            } else {
                (
                    Renewal::Resting { why: Failure::Client },
                    RenewalAction::Pause { millis: pause, why: Failure::Client },
                )
            },
            (state, _) => (state, RenewalAction::Finish),
        }
    }
}

/// The answer to a challenge never outlives its challenge. It is published for the first
/// challenge that the order names and for no other; while it stands the renewal does
/// nothing but have it validated and the order refreshed; and whether that goes well or
/// not, the next thing ordered is to take it back. Only then is the order confirmed
/// again, finalized or given up: the renewal rests, opens an order or finishes with no
/// answer left in the routing table.
pub proof fn law_challenge_is_taken_back(state: Renewal, event: RenewalEvent)
    requires
        state.admits(event),
    ensures
        ({
            let after = state.next(event);
            // An answer is published only on the order to publish it.
            &&& state.published() is None && after.0.published() is Some ==> after.1
                == (RenewalAction::Publish {
                token: after.0.published().unwrap(),
                proof: event->challenges.unwrap()@[0].proof,
            }) && event->challenges.unwrap()@[0].token == after.0.published().unwrap()
            // While it stands, the token is the same.
            &&& state.published() is Some && after.0.published() is Some
                ==> after.0.published() == state.published()
            // It is gone only after the order to take it back was carried out.
            &&& state.published() is Some && after.0.published() is None
                ==> state is Retracting
            // And that order is given as soon as the validation has had its turn.
            &&& after.0 is Retracting ==> after.1 == (RenewalAction::Retract {
                token: after.0.published().unwrap(),
            }) && (state is Validating || state is Refreshing)
            // Nothing is published while the renewal rests, opens, confirms, lists,
            // finalizes or is done.
            &&& after.1 is Pause || after.1 is OpenOrder || after.1 is Confirm || after.1 is List
                || after.1 is Finalize || after.1 is Finish ==> after.0.published() is None
        }),
{
}

/// A renewal never gives up: an order that fails is followed by the pause and a new
/// order, and the renewal ends only when a certificate was issued and stored.
pub proof fn law_renewal_goes_on(state: Renewal, event: RenewalEvent)
    requires
        state.admits(event),
    ensures
        state.next(event).0 is Done <==> state is Finalizing && event == (RenewalEvent::Finalized {
            ok: true,
        }),
        state.next(event).1 is Finish <==> state.next(event).0 is Done,
        state.next(event).1 matches RenewalAction::Pause { millis, why } ==> millis
            == RENEWAL_PAUSE_MILLIS && state.next(event).0 == (Renewal::Resting { why })
            && state.next(event).0.admits(RenewalEvent::Woke) && state.next(event).0.next(
            RenewalEvent::Woke,
        ) == (Renewal::Opening, RenewalAction::OpenOrder),
{
}

} // verus!
