use vstd::prelude::*;

use crate::amount::Amount;
use crate::models::{Conversion, CreateSellOrder, GetExchange, Quote, SellOrder, UserId};
use crate::repos::ErrorKind as ReposErrorKind;
use crate::services::error::{kind_of_repos, Error, ErrorContext, ErrorKind};
use crate::validation::FieldErrors;

verus! {

/// Where a sell request stands.
#[derive(Debug, Clone, Copy, PartialEq, Eq, Structural)]
pub enum SellState {
    /// Waiting for the user behind the token.
    Authenticating,
    /// Waiting for the amount to be checked against the currency's limits.
    Validating { user: UserId },
    /// Waiting for the quoted rate the request refers to.
    FetchingExchange { user: UserId },
    /// Waiting for the current market rate; where a quote is stored (`quoted`),
    /// it is compared with the quoted rate. `sale` is what will be sold.
    Pricing { sale: Conversion, quoted: bool },
    /// Waiting for the account's balance on exmo to be checked.
    CheckingBalance { sale: Conversion },
    /// Waiting for the orders on exmo to be placed and filled.
    Selling,
    /// The request has been answered.
    Finished,
}

/// What came back from the work a sell request asked for.
#[derive(Debug)]
pub enum SellEvent {
    Authenticated(UserId),
    AuthenticationFailed(Error),
    /// The amount checked against the limits: the refused fields, if any.
    Validated(Option<FieldErrors>),
    /// The quoted rate the request refers to; `None` where no such rate is stored.
    ExchangeFetched(Result<Option<Quote>, ReposErrorKind>),
    /// The current rate: whether, less the safety threshold, it is still above
    /// the rate quoted to the user (of no weight where no quote is stored).
    RatePriced(Result<bool, Error>),
    BalanceChecked(Result<(), Error>),
    Sold(Result<SellOrder, Error>),
}

/// The work a sell request asks for next, or its answer.
#[derive(Debug)]
pub enum SellAction {
    /// Check the amount against the limits of the currency it is given in.
    Validate { amount: Amount },
    /// Look up the quoted rate.
    FetchExchange(GetExchange),
    /// Fetch the current rate and compare it with the quoted one, if any.
    PriceCurrentRate,
    /// Check that the exmo account holds enough of the currency sold.
    CheckBalance,
    /// Place the orders that sell `sale.amount` along the route of `sale`.
    StartSelling { sale: Conversion },
    /// Answer the request.
    Finish(Result<SellOrder, Error>),
}

/// A sell request on its way through the service.
#[derive(Debug, Clone, Copy)]
pub struct SellFlow {
    pub input: CreateSellOrder,
    pub state: SellState,
}

/// Whether the event is one that the state waits for.
pub open spec fn sell_accepts(state: SellState, event: SellEvent) -> bool {
    match (state, event) {
        (SellState::Authenticating, SellEvent::Authenticated(_)) => true,
        (SellState::Authenticating, SellEvent::AuthenticationFailed(_)) => true,
        (SellState::Validating { .. }, SellEvent::Validated(_)) => true,
        (SellState::FetchingExchange { .. }, SellEvent::ExchangeFetched(_)) => true,
        (SellState::Pricing { .. }, SellEvent::RatePriced(_)) => true,
        (SellState::CheckingBalance { .. }, SellEvent::BalanceChecked(_)) => true,
        (SellState::Selling, SellEvent::Sold(_)) => true,
        _ => false,
    }
}

/// The answer a sell request gets when it fails with `kind` and `context`.
pub open spec fn sell_fails(kind: ErrorKind, context: Option<ErrorContext>) -> SellAction {
    SellAction::Finish(Err(Error { kind, context }))
}

/// What a request sells: its amount, along the route (currencies sold and
/// bought, and the currency the amount is given in) of the stored quote, or
/// of the request itself where no quote is stored.
pub open spec fn sale_of(input: CreateSellOrder, quote: Option<Quote>) -> Conversion {
    match quote {
        Some(q) => Conversion {
            from: q.conversion.from,
            to: q.conversion.to,
            amount: input.actual_amount,
            amount_currency: q.conversion.amount_currency,
        },
        None => Conversion {
            from: input.from,
            to: input.to,
            amount: input.actual_amount,
            amount_currency: input.amount_currency,
        },
    }
}

/// One step of a sell request: from `before`, on `event`, the request moves to
/// `after` and asks for `r` (or answers with it).
pub open spec fn sell_transition(before: SellFlow, event: SellEvent, after: SellFlow, r: SellAction) -> bool {
    &&& after.input == before.input
    &&& match (before.state, event) {
        (SellState::Authenticating, SellEvent::Authenticated(user)) =>
            after.state == (SellState::Validating { user })
            && r == (SellAction::Validate { amount: before.input.actual_amount }),
        (SellState::Authenticating, SellEvent::AuthenticationFailed(e)) =>
            after.state == SellState::Finished && r == SellAction::Finish(Err(e)),
        (SellState::Validating { user }, SellEvent::Validated(None)) => {
            &&& after.state == (SellState::FetchingExchange { user })
            &&& r matches SellAction::FetchExchange(g)
            &&& g.id == before.input.id
            &&& g.from == before.input.from
            &&& g.to == before.input.to
            &&& g.actual_amount == before.input.actual_amount
            &&& g.amount_currency == before.input.amount_currency
        },
        (SellState::Validating { .. }, SellEvent::Validated(Some(errors))) =>
            after.state == SellState::Finished
            && r == sell_fails(ErrorKind::InvalidInput(errors), None),
        (SellState::FetchingExchange { .. }, SellEvent::ExchangeFetched(Err(k))) =>
            after.state == SellState::Finished && r == sell_fails(kind_of_repos(k), None),
        (SellState::FetchingExchange { .. }, SellEvent::ExchangeFetched(Ok(None))) =>
            after.state == (SellState::Pricing { sale: sale_of(before.input, None), quoted: false })
            && r == SellAction::PriceCurrentRate,
        (SellState::FetchingExchange { user }, SellEvent::ExchangeFetched(Ok(Some(quote)))) =>
            if quote.user == user {
                after.state == (SellState::Pricing { sale: sale_of(before.input, Some(quote)), quoted: true })
                && r == SellAction::PriceCurrentRate
            } else {
                after.state == SellState::Finished
                && r == sell_fails(ErrorKind::Unauthorized, Some(ErrorContext::InvalidToken))
            },
        (SellState::Pricing { .. }, SellEvent::RatePriced(Err(e))) =>
            after.state == SellState::Finished && r == SellAction::Finish(Err(e)),
        (SellState::Pricing { sale, quoted }, SellEvent::RatePriced(Ok(safe))) =>
            if safe || !quoted {
                after.state == (SellState::CheckingBalance { sale }) && r == SellAction::CheckBalance
            } else {
                after.state == SellState::Finished
                && r == sell_fails(ErrorKind::Internal, Some(ErrorContext::NoSuchRate))
            },
        (SellState::CheckingBalance { .. }, SellEvent::BalanceChecked(Err(e))) =>
            after.state == SellState::Finished && r == SellAction::Finish(Err(e)),
        (SellState::CheckingBalance { sale }, SellEvent::BalanceChecked(Ok(()))) =>
            after.state == SellState::Selling && r == (SellAction::StartSelling { sale }),
        (SellState::Selling, SellEvent::Sold(result)) =>
            after.state == SellState::Finished && r == SellAction::Finish(result),
        _ => false,
    }
}

/// What a request sells, as `sale_of` states it.
fn sale(input: CreateSellOrder, quote: Option<Quote>) -> (r: Conversion)
    ensures
        r == sale_of(input, quote),
{
    match quote {
        Some(q) => Conversion {
            from: q.conversion.from,
            to: q.conversion.to,
            amount: input.actual_amount,
            amount_currency: q.conversion.amount_currency,
        },
        None => Conversion {
            from: input.from,
            to: input.to,
            amount: input.actual_amount,
            amount_currency: input.amount_currency,
        },
    }
}

impl SellFlow {
    /// A sell request that first needs its user authenticated.
    pub fn start(input: CreateSellOrder) -> (r: SellFlow)
        ensures
            r.input == input,
            r.state == SellState::Authenticating,
    {
        SellFlow { input, state: SellState::Authenticating }
    }

    /// Takes the result of the work last asked for and decides what comes next.
    pub fn step(&mut self, event: SellEvent) -> (r: SellAction)
        requires
            sell_accepts(old(self).state, event),
        ensures
            sell_transition(*old(self), event, *final(self), r),
    {
        let state = self.state;
        match (state, event) {
            (SellState::Authenticating, SellEvent::Authenticated(user)) => {
                self.state = SellState::Validating { user };
                SellAction::Validate { amount: self.input.actual_amount }
            },
            (SellState::Authenticating, SellEvent::AuthenticationFailed(e)) => {
                self.state = SellState::Finished;
                SellAction::Finish(Err(e))
            },
            (SellState::Validating { user }, SellEvent::Validated(None)) => {
                self.state = SellState::FetchingExchange { user };
                SellAction::FetchExchange(GetExchange::from_sell_order(self.input))
            },
            (SellState::Validating { .. }, SellEvent::Validated(Some(errors))) => {
                self.state = SellState::Finished;
                SellAction::Finish(Err(Error::new(ErrorKind::InvalidInput(errors), None)))
            },
            (SellState::FetchingExchange { user }, SellEvent::ExchangeFetched(fetched)) => {
                self.state = SellState::Finished;
                match fetched {
                    Err(k) => SellAction::Finish(Err(Error::new(ErrorKind::from(k), None))),
                    Ok(None) => {
                        self.state = SellState::Pricing { sale: sale(self.input, None), quoted: false };
                        SellAction::PriceCurrentRate
                    },
                    Ok(Some(quote)) => {
                        if quote.user == user {
                            self.state = SellState::Pricing { sale: sale(self.input, Some(quote)), quoted: true };
                            SellAction::PriceCurrentRate
                        } else {
                            SellAction::Finish(
                                Err(Error::new(ErrorKind::Unauthorized, Some(ErrorContext::InvalidToken))),
                            )
                        }
                    },
                }
            },
            (SellState::Pricing { sale, quoted }, SellEvent::RatePriced(priced)) => {
                self.state = SellState::Finished;
                match priced {
                    Err(e) => SellAction::Finish(Err(e)),
                    Ok(safe) => {
                        if safe || !quoted {
                            self.state = SellState::CheckingBalance { sale };
                            SellAction::CheckBalance
                        } else {
                            SellAction::Finish(
                                Err(Error::new(ErrorKind::Internal, Some(ErrorContext::NoSuchRate))),
                            )
                        }
                    },
                }
            },
            (SellState::CheckingBalance { sale }, SellEvent::BalanceChecked(checked)) => {
                match checked {
                    Err(e) => {
                        self.state = SellState::Finished;
                        SellAction::Finish(Err(e))
                    },
                    Ok(()) => {
                        self.state = SellState::Selling;
                        SellAction::StartSelling { sale }
                    },
                }
            },
            (SellState::Selling, SellEvent::Sold(result)) => {
                self.state = SellState::Finished;
                SellAction::Finish(result)
            },
            (_, _) => {
                proof { assert(false); }
                SellAction::Finish(Err(Error::new(ErrorKind::Internal, Some(ErrorContext::Internal))))
            },
        }
    }
}

/// Whether `flows`, `events` and `actions` record a sell request from its
/// start: the request was in `flows[i]` when it took `events[i]`, and it then
/// moved to `flows[i + 1]` and asked for `actions[i]`.
pub open spec fn is_sell_run(flows: Seq<SellFlow>, events: Seq<SellEvent>, actions: Seq<SellAction>) -> bool {
    &&& flows.len() == events.len() + 1
    &&& actions.len() == events.len()
    &&& flows[0].state == SellState::Authenticating
    &&& forall|i: int|
        0 <= i < events.len() ==> sell_accepts(flows[i].state, #[trigger] events[i])
            && sell_transition(flows[i], events[i], flows[i + 1], actions[i])
}

/// Whether the first four events of `past` let a request sell `sale`: the user
/// behind the token was found, the amount passed the limits, and either no quote
/// was stored, or the stored one was quoted to that very user and the current
/// rate (less the safety threshold) was still above it; `sale` is the request's
/// amount along the route of the stored quote, or of the request where none was.
pub open spec fn sell_allowed(input: CreateSellOrder, past: Seq<SellEvent>, sale: Conversion) -> bool {
    &&& past.len() >= 4
    &&& past[1] matches SellEvent::Validated(None)
    &&& match (past[0], past[2], past[3]) {
        (SellEvent::Authenticated(user), SellEvent::ExchangeFetched(Ok(fetched)), SellEvent::RatePriced(Ok(safe))) => {
            &&& match fetched {
                Some(q) => q.user == user && safe,
                None => true,
            }
            &&& sale == sale_of(input, fetched)
        },
        _ => false,
    }
}

/// Whether the first three events of `past` let a request on to pricing with
/// `sale`, and `quoted` says whether a quote was stored.
pub open spec fn sell_fetched(input: CreateSellOrder, past: Seq<SellEvent>, sale: Conversion, quoted: bool) -> bool {
    &&& past.len() >= 3
    &&& past[1] matches SellEvent::Validated(None)
    &&& match (past[0], past[2]) {
        (SellEvent::Authenticated(user), SellEvent::ExchangeFetched(Ok(fetched))) => {
            &&& (fetched matches Some(q) ==> q.user == user)
            &&& quoted == (fetched is Some)
            &&& sale == sale_of(input, fetched)
        },
        _ => false,
    }
}

/// What a request must have been told to be where `flow` stands, given the
/// events it has taken so far.
pub open spec fn sell_history(flow: SellFlow, past: Seq<SellEvent>) -> bool {
    match flow.state {
        SellState::Authenticating => past.len() == 0,
        SellState::Validating { user } => past.len() == 1 && past[0] == SellEvent::Authenticated(user),
        SellState::FetchingExchange { user } => {
            &&& past.len() == 2
            &&& past[0] == SellEvent::Authenticated(user)
            &&& past[1] matches SellEvent::Validated(None)
        },
        SellState::Pricing { sale, quoted } => past.len() == 3 && sell_fetched(flow.input, past, sale, quoted),
        SellState::CheckingBalance { sale } => past.len() == 4 && sell_allowed(flow.input, past, sale),
        SellState::Selling => {
            &&& past.len() == 5
            &&& past[4] == SellEvent::BalanceChecked(Ok(()))
        },
        SellState::Finished => true,
    }
}

proof fn lemma_sell_history(flows: Seq<SellFlow>, events: Seq<SellEvent>, actions: Seq<SellAction>, n: int)
    requires
        is_sell_run(flows, events, actions),
        0 <= n <= events.len(),
    ensures
        sell_history(flows[n], events.take(n)),
    decreases n,
{
    if n > 0 {
        lemma_sell_history(flows, events, actions, n - 1);
        let i = n - 1;
        assert(sell_accepts(flows[i].state, events[i]) && sell_transition(flows[i], events[i], flows[i + 1], actions[i]));
        let past = events.take(i);
        let now = events.take(n);
        assert(now.len() == n);
        assert forall|j: int| 0 <= j < i implies now[j] == past[j] by {}
        assert(now[i] == events[i]);
        match flows[i].state {
            SellState::Authenticating => {},
            SellState::Validating { user } => {
                assert(now[0] == past[0]);
            },
            SellState::FetchingExchange { user } => {
                assert(now[0] == past[0] && now[1] == past[1]);
            },
            SellState::Pricing { .. } => {
                assert(now[0] == past[0] && now[1] == past[1] && now[2] == past[2]);
            },
            SellState::CheckingBalance { .. } => {
                assert(now[0] == past[0] && now[1] == past[1] && now[2] == past[2] && now[3] == past[3]);
                let ev = events[i];
                if let SellEvent::BalanceChecked(Ok(u)) = ev {
                    // the unit value is the only one
                    assert(u == ());
                    assert(ev == SellEvent::BalanceChecked(Ok(())));
                }
            },
            SellState::Selling => {},
            SellState::Finished => {},
        }
    }
}

/// A sell request places orders on exmo only as the fifth thing it asks for, and
/// only after the user behind the token was found, the amount lay within the
/// limits of its currency, either no quote was stored or the stored quote was
/// quoted to that very user and the current rate (less the safety threshold) was
/// still above it, and the exmo balance sufficed. It sells the amount of the
/// request, along the route of the stored quote or, where none was stored, of
/// the request.
pub proof fn lemma_sale_needs_owner_rate_and_balance(
    flows: Seq<SellFlow>,
    events: Seq<SellEvent>,
    actions: Seq<SellAction>,
    k: int,
)
    requires
        is_sell_run(flows, events, actions),
        0 <= k < actions.len(),
        actions[k] is StartSelling,
    ensures
        k == 4,
        actions[k] matches SellAction::StartSelling { sale } && sell_allowed(flows[0].input, events, sale),
        events[4] == SellEvent::BalanceChecked(Ok(())),
{
    lemma_sell_history(flows, events, actions, k);
    assert(sell_accepts(flows[k].state, events[k]) && sell_transition(flows[k], events[k], flows[k + 1], actions[k]));
    assert(flows[k].state is CheckingBalance);
    let ev = events[k];
    if let SellEvent::BalanceChecked(Ok(u)) = ev {
        // the unit value is the only one
        assert(u == ());
        assert(ev == SellEvent::BalanceChecked(Ok(())));
    }
    let past = events.take(k);
    assert(past[0] == events[0] && past[1] == events[1] && past[2] == events[2] && past[3] == events[3]);
    lemma_sell_input_kept(flows, events, actions, k);
}

proof fn lemma_sell_input_kept(flows: Seq<SellFlow>, events: Seq<SellEvent>, actions: Seq<SellAction>, n: int)
    requires
        is_sell_run(flows, events, actions),
        0 <= n <= events.len(),
    ensures
        flows[n].input == flows[0].input,
    decreases n,
{
    if n > 0 {
        lemma_sell_input_kept(flows, events, actions, n - 1);
        assert(sell_transition(flows[n - 1], events[n - 1], flows[n], actions[n - 1]));
    }
}

/// A sell request whose quoted rate was quoted to another user than the one
/// behind its token is answered `Unauthorized` (invalid token), and is then done.
pub proof fn lemma_foreign_rate_refused(before: SellFlow, event: SellEvent, after: SellFlow, r: SellAction)
    requires
        sell_transition(before, event, after, r),
        ({
            &&& before.state matches SellState::FetchingExchange { user }
            &&& event matches SellEvent::ExchangeFetched(Ok(Some(quote)))
            &&& quote.user != user
        }),
    ensures
        r == sell_fails(ErrorKind::Unauthorized, Some(ErrorContext::InvalidToken)),
        after.state == SellState::Finished,
{
}

/// A sell request answers success only with the order that the sale on exmo
/// reported, and a failed sale is answered with its own error: whatever the
/// orders came back with is the answer.
pub proof fn lemma_sell_answer_is_sale_result(before: SellFlow, event: SellEvent, after: SellFlow, r: SellAction)
    requires
        sell_transition(before, event, after, r),
    ensures
        r matches SellAction::Finish(Ok(o)) ==> event == SellEvent::Sold(Ok(o)),
        event matches SellEvent::Sold(Err(e)) ==> r == SellAction::Finish(Err(e)),
        event matches SellEvent::Sold(Ok(o)) ==> r == SellAction::Finish(Ok(o)),
{
}

} // verus!
