use vstd::prelude::*;

use crate::models::{Conversion, ExchangeId, UserId};
use crate::repos::ErrorKind as ReposErrorKind;
use crate::services::error::{kind_of_repos, Error, ErrorContext, ErrorKind};
use crate::validation::{field_errors_view, FieldErrors};

verus! {

/// Where a request to refresh a quoted rate stands.
#[derive(Debug, Clone, Copy, PartialEq, Eq, Structural)]
pub enum RefreshState {
    Authenticating,
    FetchingExchange { user: UserId },
    /// Waiting for the current rate of the stored quote's conversion.
    Pricing { user: UserId, conversion: Conversion },
    /// Waiting for the stored quote's expiry to be pushed back.
    Refreshing,
    /// Waiting for a new quote for the same conversion.
    Requoting,
    Finished,
}

/// What came back from the work a refresh request asked for.
#[derive(Debug)]
pub enum RefreshEvent {
    Authenticated(UserId),
    AuthenticationFailed(Error),
    /// The conversion of the stored quote; `None` where no such quote is stored.
    ExchangeFetched(Result<Option<Conversion>, ReposErrorKind>),
    /// The current rate: whether, less the safety threshold, it is still above
    /// the rate quoted.
    RatePriced(Result<bool, Error>),
    Refreshed(Result<(), ReposErrorKind>),
    Requoted(Result<(), Error>),
}

/// The work a refresh request asks for next, or its answer.
#[derive(Debug)]
pub enum RefreshAction {
    FetchExchange(ExchangeId),
    /// Fetch the current rate of this conversion and compare it with the quoted one.
    PriceCurrentRate(Conversion),
    /// Push back the expiry of the stored quote.
    RefreshExchange(ExchangeId),
    /// Quote a new rate for this conversion (that of the stored quote) to this user.
    CreateRate { user: UserId, conversion: Conversion },
    /// Answer the request: on success, whether the quote is a new one.
    Finish(Result<bool, Error>),
}

/// A refresh request on its way through the service.
#[derive(Debug, Clone, Copy)]
pub struct RefreshFlow {
    pub exchange_id: ExchangeId,
    pub state: RefreshState,
}

/// Whether the event is one that the state waits for.
pub open spec fn refresh_accepts(state: RefreshState, event: RefreshEvent) -> bool {
    match (state, event) {
        (RefreshState::Authenticating, RefreshEvent::Authenticated(_)) => true,
        (RefreshState::Authenticating, RefreshEvent::AuthenticationFailed(_)) => true,
        (RefreshState::FetchingExchange { .. }, RefreshEvent::ExchangeFetched(_)) => true,
        (RefreshState::Pricing { .. }, RefreshEvent::RatePriced(_)) => true,
        (RefreshState::Refreshing, RefreshEvent::Refreshed(_)) => true,
        (RefreshState::Requoting, RefreshEvent::Requoted(_)) => true,
        _ => false,
    }
}

/// One step of a refresh request: from `before`, on `event`, the request moves
/// to `after` and asks for `r` (or answers with it).
pub open spec fn refresh_transition(
    before: RefreshFlow,
    event: RefreshEvent,
    after: RefreshFlow,
    r: RefreshAction,
) -> bool {
    &&& after.exchange_id == before.exchange_id
    &&& match (before.state, event) {
        (RefreshState::Authenticating, RefreshEvent::Authenticated(user)) =>
            after.state == (RefreshState::FetchingExchange { user })
            && r == RefreshAction::FetchExchange(before.exchange_id),
        (RefreshState::Authenticating, RefreshEvent::AuthenticationFailed(e)) =>
            after.state == RefreshState::Finished && r == RefreshAction::Finish(Err(e)),
        (RefreshState::FetchingExchange { .. }, RefreshEvent::ExchangeFetched(Err(_))) =>
            after.state == RefreshState::Finished
            && r == RefreshAction::Finish(Err(Error { kind: ErrorKind::Internal, context: None })),
        (RefreshState::FetchingExchange { user }, RefreshEvent::ExchangeFetched(Ok(found))) =>
            if let Some(conversion) = found {
                after.state == (RefreshState::Pricing { user, conversion })
                && r == RefreshAction::PriceCurrentRate(conversion)
            } else {
                &&& after.state == RefreshState::Finished
                &&& r matches RefreshAction::Finish(Err(e))
                &&& e.context == Some(ErrorContext::NoExchangeRate)
                &&& e.kind matches ErrorKind::InvalidInput(errs)
                &&& field_errors_view(errs) == seq![
                    ("exchange_rate"@, ("not_found"@, None::<Seq<char>>, seq![
                        ("message"@, "exchange rate not found"@),
                    ])),
                ]
            },
        (RefreshState::Pricing { .. }, RefreshEvent::RatePriced(Err(_))) =>
            after.state == RefreshState::Finished
            && r == RefreshAction::Finish(Err(Error { kind: ErrorKind::Internal, context: None })),
        (RefreshState::Pricing { user, conversion }, RefreshEvent::RatePriced(Ok(safe))) =>
            if safe {
                after.state == RefreshState::Refreshing && r == RefreshAction::RefreshExchange(before.exchange_id)
            } else {
                after.state == RefreshState::Requoting && r == (RefreshAction::CreateRate { user, conversion })
            },
        (RefreshState::Refreshing, RefreshEvent::Refreshed(Err(k))) =>
            after.state == RefreshState::Finished
            && r == RefreshAction::Finish(Err(Error { kind: kind_of_repos(k), context: None })),
        (RefreshState::Refreshing, RefreshEvent::Refreshed(Ok(_))) =>
            after.state == RefreshState::Finished && r == RefreshAction::Finish(Ok(false)),
        (RefreshState::Requoting, RefreshEvent::Requoted(Err(e))) =>
            after.state == RefreshState::Finished && r == RefreshAction::Finish(Err(e)),
        (RefreshState::Requoting, RefreshEvent::Requoted(Ok(_))) =>
            after.state == RefreshState::Finished && r == RefreshAction::Finish(Ok(true)),
        _ => false,
    }
}

impl RefreshFlow {
    /// A refresh request for the quote `exchange_id` that first needs its user
    /// authenticated.
    pub fn start(exchange_id: ExchangeId) -> (r: RefreshFlow)
        ensures
            r.exchange_id == exchange_id,
            r.state == RefreshState::Authenticating,
    {
        RefreshFlow { exchange_id, state: RefreshState::Authenticating }
    }

    /// Takes the result of the work last asked for and decides what comes next.
    pub fn step(&mut self, event: RefreshEvent) -> (r: RefreshAction)
        requires
            refresh_accepts(old(self).state, event),
        ensures
            refresh_transition(*old(self), event, *final(self), r),
    {
        let state = self.state;
        match (state, event) {
            (RefreshState::Authenticating, RefreshEvent::Authenticated(user)) => {
                self.state = RefreshState::FetchingExchange { user };
                RefreshAction::FetchExchange(self.exchange_id)
            },
            (RefreshState::Authenticating, RefreshEvent::AuthenticationFailed(e)) => {
                self.state = RefreshState::Finished;
                RefreshAction::Finish(Err(e))
            },
            (RefreshState::FetchingExchange { user }, RefreshEvent::ExchangeFetched(fetched)) => {
                match fetched {
                    Err(_) => {
                        self.state = RefreshState::Finished;
                        RefreshAction::Finish(Err(Error::new(ErrorKind::Internal, None)))
                    },
                    Ok(found) => {
                        if let Some(conversion) = found {
                            self.state = RefreshState::Pricing { user, conversion };
                            RefreshAction::PriceCurrentRate(conversion)
                        } else {
                            self.state = RefreshState::Finished;
                            RefreshAction::Finish(
                                Err(
                                    Error::new(
                                        ErrorKind::InvalidInput(FieldErrors::rate_not_found()),
                                        Some(ErrorContext::NoExchangeRate),
                                    ),
                                ),
                            )
                        }
                    },
                }
            },
            (RefreshState::Pricing { user, conversion }, RefreshEvent::RatePriced(priced)) => {
                match priced {
                    Err(_) => {
                        self.state = RefreshState::Finished;
                        RefreshAction::Finish(Err(Error::new(ErrorKind::Internal, None)))
                    },
                    Ok(safe) => {
                        if safe {
                            self.state = RefreshState::Refreshing;
                            RefreshAction::RefreshExchange(self.exchange_id)
                        } else {
                            self.state = RefreshState::Requoting;
                            RefreshAction::CreateRate { user, conversion }
                        }
                    },
                }
            },
            (RefreshState::Refreshing, RefreshEvent::Refreshed(refreshed)) => {
                self.state = RefreshState::Finished;
                match refreshed {
                    Err(k) => RefreshAction::Finish(Err(Error::new(ErrorKind::from(k), None))),
                    Ok(_) => RefreshAction::Finish(Ok(false)),
                }
            },
            (RefreshState::Requoting, RefreshEvent::Requoted(requoted)) => {
                self.state = RefreshState::Finished;
                match requoted {
                    Err(e) => RefreshAction::Finish(Err(e)),
                    Ok(_) => RefreshAction::Finish(Ok(true)),
                }
            },
            (_, _) => {
                proof { assert(false); }
                RefreshAction::Finish(Err(Error::new(ErrorKind::Internal, None)))
            },
        }
    }
}

/// Whether `flows`, `events` and `actions` record a refresh request from its start.
pub open spec fn is_refresh_run(flows: Seq<RefreshFlow>, events: Seq<RefreshEvent>, actions: Seq<RefreshAction>) -> bool {
    &&& flows.len() == events.len() + 1
    &&& actions.len() == events.len()
    &&& flows[0].state == RefreshState::Authenticating
    &&& forall|i: int|
        0 <= i < events.len() ==> refresh_accepts(flows[i].state, #[trigger] events[i])
            && refresh_transition(flows[i], events[i], flows[i + 1], actions[i])
}

/// What a refresh request must have been told to be in `state`.
pub open spec fn refresh_history(state: RefreshState, past: Seq<RefreshEvent>) -> bool {
    match state {
        RefreshState::Authenticating => past.len() == 0,
        RefreshState::FetchingExchange { user } => past.len() == 1 && past[0] == RefreshEvent::Authenticated(user),
        RefreshState::Pricing { user, conversion } => {
            &&& past.len() == 2
            &&& past[0] == RefreshEvent::Authenticated(user)
            &&& past[1] == RefreshEvent::ExchangeFetched(Ok(Some(conversion)))
        },
        RefreshState::Refreshing => {
            &&& past.len() == 3
            &&& past[0] is Authenticated
            &&& past[1] matches RefreshEvent::ExchangeFetched(Ok(Some(_)))
            &&& past[2] == RefreshEvent::RatePriced(Ok(true))
        },
        RefreshState::Requoting => {
            &&& past.len() == 3
            &&& past[0] is Authenticated
            &&& past[1] matches RefreshEvent::ExchangeFetched(Ok(Some(_)))
            &&& past[2] == RefreshEvent::RatePriced(Ok(false))
        },
        RefreshState::Finished => true,
    }
}

proof fn lemma_refresh_history(flows: Seq<RefreshFlow>, events: Seq<RefreshEvent>, actions: Seq<RefreshAction>, n: int)
    requires
        is_refresh_run(flows, events, actions),
        0 <= n <= events.len(),
    ensures
        refresh_history(flows[n].state, events.take(n)),
    decreases n,
{
    if n > 0 {
        lemma_refresh_history(flows, events, actions, n - 1);
        let i = n - 1;
        assert(refresh_accepts(flows[i].state, events[i]) && refresh_transition(flows[i], events[i], flows[i + 1], actions[i]));
        let past = events.take(i);
        let now = events.take(n);
        assert forall|j: int| 0 <= j < i implies now[j] == past[j] by {}
        assert(now[i] == events[i]);
        match flows[i].state {
            RefreshState::FetchingExchange { user } => {
                assert(now[0] == past[0]);
            },
            RefreshState::Pricing { .. } => {
                assert(now[0] == past[0] && now[1] == past[1]);
            },
            _ => {},
        }
    }
}

/// A refresh request that succeeds answers with a new quote exactly when the
/// stored quote was no longer safe at the current rate (less the safety
/// threshold), and keeps the stored quote (with its expiry pushed back) when it was.
pub proof fn lemma_refresh_requotes_unsafe_rates(
    flows: Seq<RefreshFlow>,
    events: Seq<RefreshEvent>,
    actions: Seq<RefreshAction>,
    k: int,
)
    requires
        is_refresh_run(flows, events, actions),
        0 <= k < actions.len(),
        actions[k] matches RefreshAction::Finish(Ok(_)),
    ensures
        k == 3,
        events[1] matches RefreshEvent::ExchangeFetched(Ok(Some(_))),
        events[2] matches RefreshEvent::RatePriced(Ok(safe)) && actions[k] == RefreshAction::Finish(Ok(!safe)),
{
    lemma_refresh_history(flows, events, actions, k);
    assert(refresh_accepts(flows[k].state, events[k]) && refresh_transition(flows[k], events[k], flows[k + 1], actions[k]));
    let past = events.take(k);
    assert(past[1] == events[1]);
    assert(past[2] == events[2]);
}

/// A refresh request quotes a new rate only to the user behind its token, for
/// the very conversion of the stored quote, and only after that quote was found
/// and judged no longer safe.
pub proof fn lemma_requote_for_requester(
    flows: Seq<RefreshFlow>,
    events: Seq<RefreshEvent>,
    actions: Seq<RefreshAction>,
    k: int,
)
    requires
        is_refresh_run(flows, events, actions),
        0 <= k < actions.len(),
        actions[k] is CreateRate,
    ensures
        k == 2,
        events[0] == RefreshEvent::Authenticated(actions[k]->user),
        events[1] == RefreshEvent::ExchangeFetched(Ok(Some(actions[k]->conversion))),
        events[2] == RefreshEvent::RatePriced(Ok(false)),
{
    lemma_refresh_history(flows, events, actions, k);
    assert(refresh_accepts(flows[k].state, events[k]) && refresh_transition(flows[k], events[k], flows[k + 1], actions[k]));
    let past = events.take(k);
    assert(past[0] == events[0]);
    assert(past[1] == events[1]);
}

/// A refresh answers success only for work that was done: "no new rate" only
/// when the stored quote's expiry was pushed back, "new rate" only when a new
/// quote was created; where the new quote could not be created, the refresh
/// fails with that very error.
pub proof fn lemma_refresh_success_needs_done_work(
    before: RefreshFlow,
    event: RefreshEvent,
    after: RefreshFlow,
    r: RefreshAction,
)
    requires
        refresh_transition(before, event, after, r),
    ensures
        r matches RefreshAction::Finish(Ok(is_new_rate)) ==> {
            ||| event matches RefreshEvent::Refreshed(Ok(_)) && !is_new_rate
            ||| event matches RefreshEvent::Requoted(Ok(_)) && is_new_rate
        },
        event matches RefreshEvent::Requoted(Err(e)) ==> r == RefreshAction::Finish(Err(e)),
        event matches RefreshEvent::AuthenticationFailed(e) ==> r == RefreshAction::Finish(Err(e)),
{
}

} // verus!
