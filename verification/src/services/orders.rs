//! The orders that carry out a sale on exmo, leg by leg along its route.
//!
//! The quantities sold and received are exmo's own numbers; the flow never
//! computes with them, it only decides which one each order sells, so it is
//! generic over their type.

use vstd::prelude::*;

use crate::retry::SERVICE_ATTEMPTS;
use crate::services::error::{Error, ErrorContext, ErrorKind};

verus! {

/// Where the orders of a sale stand: on leg `leg` of the route, after `failed`
/// failed status checks of orders on that leg, each order selling `quantity`.
#[derive(Debug, Clone, Copy)]
pub enum OrdersState<Q> {
    /// Waiting for an order to be recorded and placed.
    Placing { leg: usize, failed: usize, quantity: Q },
    /// Waiting for the status of the order just placed.
    Checking { leg: usize, failed: usize, quantity: Q },
    /// The sale has ended.
    Finished,
}

/// What came back from asking for the status of an order.
#[derive(Debug)]
pub enum CheckOutcome<Q> {
    /// The status request could not be recorded.
    RecordFailed(Error),
    /// exmo did not report the order's status.
    StatusFailed(Error),
    /// The order was filled, and this much was received.
    Filled(Q),
}

/// What came back from the work the orders of a sale asked for.
#[derive(Debug)]
pub enum OrdersEvent<Q> {
    /// The order was recorded and placed, or the error of either.
    Placed(Result<(), Error>),
    Checked(CheckOutcome<Q>),
}

/// The work the orders of a sale ask for next, or the end of the sale.
#[derive(Debug)]
pub enum OrdersAction<Q> {
    /// Record, then place, an order on leg `leg` of the route that sells `quantity`.
    PlaceOrder { leg: usize, quantity: Q },
    /// Pause, record the status request, and ask exmo for the status of the
    /// order just placed on leg `leg` (pausing again where exmo fails).
    CheckOrder { leg: usize },
    /// End the sale: the quantity received on the last leg, or the error.
    Finish(Result<Q, Error>),
}

/// The orders of a sale along a route of `legs` legs that starts by selling `start`.
#[derive(Debug, Clone, Copy)]
pub struct OrdersFlow<Q> {
    pub legs: usize,
    pub start: Q,
    pub state: OrdersState<Q>,
}

/// Whether the event is one that the state waits for.
pub open spec fn orders_accepts<Q>(state: OrdersState<Q>, event: OrdersEvent<Q>) -> bool {
    match (state, event) {
        (OrdersState::Placing { .. }, OrdersEvent::Placed(_)) => true,
        (OrdersState::Checking { .. }, OrdersEvent::Checked(_)) => true,
        _ => false,
    }
}

/// One step of the orders of a sale: from `before`, on `event`, they move to
/// `after` and ask for `r`. An error in recording or placing an order ends the
/// sale; a failed status check leads to a new order on the same leg for the same
/// quantity until `SERVICE_ATTEMPTS` checks on the leg have failed; a filled order
/// moves on to the next leg with the quantity received, or ends the sale with it.
pub open spec fn orders_transition<Q>(
    before: OrdersFlow<Q>,
    event: OrdersEvent<Q>,
    after: OrdersFlow<Q>,
    r: OrdersAction<Q>,
) -> bool {
    &&& after.legs == before.legs
    &&& after.start == before.start
    &&& match (before.state, event) {
        (OrdersState::Placing { .. }, OrdersEvent::Placed(Err(e))) =>
            after.state == OrdersState::<Q>::Finished && r == OrdersAction::<Q>::Finish(Err(e)),
        (OrdersState::Placing { leg, failed, quantity }, OrdersEvent::Placed(Ok(_))) =>
            after.state == (OrdersState::Checking { leg, failed, quantity })
            && r == OrdersAction::<Q>::CheckOrder { leg },
        (OrdersState::Checking { .. }, OrdersEvent::Checked(CheckOutcome::RecordFailed(e))) =>
            after.state == OrdersState::<Q>::Finished && r == OrdersAction::<Q>::Finish(Err(e)),
        (OrdersState::Checking { leg, failed, quantity }, OrdersEvent::Checked(CheckOutcome::StatusFailed(e))) =>
            if failed + 1 < SERVICE_ATTEMPTS {
                after.state == (OrdersState::Placing { leg, failed: (failed + 1) as usize, quantity })
                && r == (OrdersAction::PlaceOrder { leg, quantity })
            } else {
                after.state == OrdersState::<Q>::Finished && r == OrdersAction::<Q>::Finish(Err(e))
            },
        (OrdersState::Checking { leg, .. }, OrdersEvent::Checked(CheckOutcome::Filled(received))) =>
            if leg + 1 < before.legs {
                after.state == (OrdersState::Placing { leg: (leg + 1) as usize, failed: 0, quantity: received })
                && r == (OrdersAction::PlaceOrder { leg: (leg + 1) as usize, quantity: received })
            } else {
                after.state == OrdersState::<Q>::Finished && r == OrdersAction::Finish(Ok(received))
            },
        _ => false,
    }
}

impl<Q: Copy> OrdersFlow<Q> {
    /// Whether the flow is on a leg of its route, with fewer than
    /// `SERVICE_ATTEMPTS` failed status checks on it.
    pub open spec fn wf(self) -> bool {
        match self.state {
            OrdersState::Placing { leg, failed, .. } => leg < self.legs && failed < SERVICE_ATTEMPTS,
            OrdersState::Checking { leg, failed, .. } => leg < self.legs && failed < SERVICE_ATTEMPTS,
            OrdersState::Finished => true,
        }
    }

    /// The orders of a sale along a route of `legs` legs that sells `start` on
    /// the first leg, with the first thing they ask for: an order on the first
    /// leg, or, on a route without legs, the end of the sale with `start`.
    pub fn start(legs: usize, start: Q) -> (r: (OrdersFlow<Q>, OrdersAction<Q>))
        ensures
            r.0.wf(),
            r.0.legs == legs,
            r.0.start == start,
            legs > 0 ==> r.0.state == (OrdersState::Placing { leg: 0, failed: 0, quantity: start })
                && r.1 == (OrdersAction::PlaceOrder { leg: 0, quantity: start }),
            legs == 0 ==> r.0.state == OrdersState::<Q>::Finished && r.1 == OrdersAction::Finish(Ok(start)),
    {
        if legs > 0 {
            (
                OrdersFlow { legs, start, state: OrdersState::Placing { leg: 0, failed: 0, quantity: start } },
                OrdersAction::PlaceOrder { leg: 0, quantity: start },
            )
        } else {
            (OrdersFlow { legs, start, state: OrdersState::Finished }, OrdersAction::Finish(Ok(start)))
        }
    }

    /// Takes the result of the work last asked for and decides what comes next.
    pub fn step(&mut self, event: OrdersEvent<Q>) -> (r: OrdersAction<Q>)
        requires
            old(self).wf(),
            orders_accepts(old(self).state, event),
        ensures
            final(self).wf(),
            orders_transition(*old(self), event, *final(self), r),
    {
        let state = self.state;
        match (state, event) {
            (OrdersState::Placing { leg, failed, quantity }, OrdersEvent::Placed(placed)) => match placed {
                Err(e) => {
                    self.state = OrdersState::Finished;
                    OrdersAction::Finish(Err(e))
                },
                Ok(()) => {
                    self.state = OrdersState::Checking { leg, failed, quantity };
                    OrdersAction::CheckOrder { leg }
                },
            },
            (OrdersState::Checking { leg, failed, quantity }, OrdersEvent::Checked(outcome)) => match outcome {
                CheckOutcome::RecordFailed(e) => {
                    self.state = OrdersState::Finished;
                    OrdersAction::Finish(Err(e))
                },
                CheckOutcome::StatusFailed(e) => {
                    if failed + 1 < SERVICE_ATTEMPTS {
                        self.state = OrdersState::Placing { leg, failed: failed + 1, quantity };
                        OrdersAction::PlaceOrder { leg, quantity }
                    } else {
                        self.state = OrdersState::Finished;
                        OrdersAction::Finish(Err(e))
                    }
                },
                CheckOutcome::Filled(received) => {
                    if leg + 1 < self.legs {
                        self.state = OrdersState::Placing { leg: leg + 1, failed: 0, quantity: received };
                        OrdersAction::PlaceOrder { leg: leg + 1, quantity: received }
                    } else {
                        self.state = OrdersState::Finished;
                        OrdersAction::Finish(Ok(received))
                    }
                },
            },
            (_, _) => {
                proof {
                    assert(false);
                }
                OrdersAction::Finish(Err(Error::new(ErrorKind::Internal, Some(ErrorContext::Internal))))
            },
        }
    }
}

/// Whether `flows`, `events` and `actions` record the orders of a sale from its
/// first order on: the orders were in `flows[i]` when they took `events[i]`, and
/// then moved to `flows[i + 1]` and asked for `actions[i]`.
pub open spec fn is_orders_run<Q>(flows: Seq<OrdersFlow<Q>>, events: Seq<OrdersEvent<Q>>, actions: Seq<OrdersAction<Q>>) -> bool {
    &&& flows.len() == events.len() + 1
    &&& actions.len() == events.len()
    &&& flows[0].legs > 0
    &&& flows[0].state == (OrdersState::Placing { leg: 0, failed: 0, quantity: flows[0].start })
    &&& forall|i: int|
        0 <= i < events.len() ==> orders_accepts(flows[i].state, #[trigger] events[i])
            && orders_transition(flows[i], events[i], flows[i + 1], actions[i])
}

/// How many orders among `past` were filled.
pub open spec fn filled_count<Q>(past: Seq<OrdersEvent<Q>>) -> nat
    decreases past.len(),
{
    if past.len() == 0 {
        0
    } else {
        filled_count(past.drop_last()) + match past.last() {
            OrdersEvent::Checked(CheckOutcome::Filled(_)) => 1nat,
            _ => 0nat,
        }
    }
}

/// The quantity received on the last order among `past` that was filled, or
/// `start` where none was.
pub open spec fn last_received<Q>(past: Seq<OrdersEvent<Q>>, start: Q) -> Q
    decreases past.len(),
{
    if past.len() == 0 {
        start
    } else {
        match past.last() {
            OrdersEvent::Checked(CheckOutcome::Filled(q)) => q,
            _ => last_received(past.drop_last(), start),
        }
    }
}

/// How many status checks among `past` failed since the last order that was
/// filled (or since the start).
pub open spec fn failures_on_leg<Q>(past: Seq<OrdersEvent<Q>>) -> nat
    decreases past.len(),
{
    if past.len() == 0 {
        0
    } else {
        match past.last() {
            OrdersEvent::Checked(CheckOutcome::Filled(_)) => 0nat,
            OrdersEvent::Checked(CheckOutcome::StatusFailed(_)) => failures_on_leg(past.drop_last()) + 1,
            _ => failures_on_leg(past.drop_last()),
        }
    }
}

/// Where the orders must stand after `past`.
pub open spec fn orders_history<Q>(flow: OrdersFlow<Q>, past: Seq<OrdersEvent<Q>>) -> bool {
    match flow.state {
        OrdersState::Placing { leg, failed, quantity } => {
            &&& leg == filled_count(past)
            &&& failed == failures_on_leg(past)
            &&& quantity == last_received(past, flow.start)
            &&& leg < flow.legs
            &&& failed < SERVICE_ATTEMPTS
        },
        OrdersState::Checking { leg, failed, quantity } => {
            &&& leg == filled_count(past)
            &&& failed == failures_on_leg(past)
            &&& quantity == last_received(past, flow.start)
            &&& leg < flow.legs
            &&& failed < SERVICE_ATTEMPTS
        },
        OrdersState::Finished => true,
    }
}

proof fn lemma_orders_history<Q>(flows: Seq<OrdersFlow<Q>>, events: Seq<OrdersEvent<Q>>, actions: Seq<OrdersAction<Q>>, n: int)
    requires
        is_orders_run(flows, events, actions),
        0 <= n <= events.len(),
    ensures
        orders_history(flows[n], events.take(n)),
        flows[n].legs == flows[0].legs,
        flows[n].start == flows[0].start,
    decreases n,
{
    if n == 0 {
        assert(events.take(0).len() == 0);
    } else {
        lemma_orders_history(flows, events, actions, n - 1);
        let i = n - 1;
        assert(orders_accepts(flows[i].state, events[i]) && orders_transition(flows[i], events[i], flows[i + 1], actions[i]));
        let now = events.take(n);
        assert(now.drop_last() =~= events.take(i));
        assert(now.last() == events[i]);
    }
}

/// The orders of a sale: every order sells, on the leg after those already
/// filled, what the previous leg received (the start quantity on the first
/// leg), and is placed only while fewer than `SERVICE_ATTEMPTS` status checks
/// on its leg have failed. A sale that succeeds ends with what the last leg
/// received, once every leg was filled; one that fails ends with the error of
/// the order or record that failed, or of the last status check on a leg where
/// `SERVICE_ATTEMPTS` of them failed.
pub proof fn lemma_orders_chain<Q>(
    flows: Seq<OrdersFlow<Q>>,
    events: Seq<OrdersEvent<Q>>,
    actions: Seq<OrdersAction<Q>>,
    k: int,
)
    requires
        is_orders_run(flows, events, actions),
        0 <= k < actions.len(),
    ensures
        actions[k] matches OrdersAction::PlaceOrder { leg, quantity } ==> {
            &&& leg == filled_count(events.take(k + 1))
            &&& quantity == last_received(events.take(k + 1), flows[0].start)
            &&& failures_on_leg(events.take(k + 1)) < SERVICE_ATTEMPTS
            &&& leg < flows[0].legs
        },
        actions[k] matches OrdersAction::Finish(Ok(q)) ==> {
            &&& q == last_received(events.take(k + 1), flows[0].start)
            &&& filled_count(events.take(k + 1)) == flows[0].legs
        },
        actions[k] matches OrdersAction::Finish(Err(e)) ==> {
            ||| events[k] == OrdersEvent::<Q>::Placed(Err(e))
            ||| events[k] == OrdersEvent::<Q>::Checked(CheckOutcome::RecordFailed(e))
            ||| events[k] == OrdersEvent::<Q>::Checked(CheckOutcome::StatusFailed(e))
                && failures_on_leg(events.take(k + 1)) == SERVICE_ATTEMPTS
        },
{
    lemma_orders_history(flows, events, actions, k);
    lemma_orders_history(flows, events, actions, k + 1);
    assert(orders_accepts(flows[k].state, events[k]) && orders_transition(flows[k], events[k], flows[k + 1], actions[k]));
    let now = events.take(k + 1);
    assert(now.drop_last() =~= events.take(k));
    assert(now.last() == events[k]);
}

} // verus!
