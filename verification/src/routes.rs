use vstd::prelude::*;

use crate::currency::Currency;
use crate::currency::Currency::{Btc, Eth, Rub, Stq, Usd};
use crate::order_type::OrderType;

verus! {

/// The upper-case ticker exmo uses for a currency.
pub open spec fn spec_ticker(c: Currency) -> Seq<char> {
    match c {
        Currency::Eth => seq!['E', 'T', 'H'],
        Currency::Stq => seq!['S', 'T', 'Q'],
        Currency::Btc => seq!['B', 'T', 'C'],
        Currency::Usd => seq!['U', 'S', 'D'],
        Currency::Rub => seq!['R', 'U', 'B'],
    }
}

pub fn ticker(c: Currency) -> (r: &'static str)
    ensures
        r@ == spec_ticker(c),
{
    match c {
        Currency::Eth => {
            proof { reveal_strlit("ETH"); }
            "ETH"
        },
        Currency::Stq => {
            proof { reveal_strlit("STQ"); }
            "STQ"
        },
        Currency::Btc => {
            proof { reveal_strlit("BTC"); }
            "BTC"
        },
        Currency::Usd => {
            proof { reveal_strlit("USD"); }
            "USD"
        },
        Currency::Rub => {
            proof { reveal_strlit("RUB"); }
            "RUB"
        },
    }
}

/// The name exmo gives the market of `base` priced in `quote`, such as `ETH_BTC`.
pub open spec fn spec_pair_name(base: Currency, quote: Currency) -> Seq<char> {
    spec_ticker(base) + seq!['_'] + spec_ticker(quote)
}

pub fn pair_name(base: Currency, quote: Currency) -> (r: String)
    ensures
        r@ == spec_pair_name(base, quote),
{
    let sep = "_";
    proof { reveal_strlit("_"); }
    let r = String::from_str(ticker(base)).concat(sep).concat(ticker(quote));
    assert(r@ =~= spec_pair_name(base, quote));
    r
}

/// The exmo market on which `a` and `b` trade against each other, as
/// `(base, quote)`, whichever way round they are given.
pub open spec fn market(a: Currency, b: Currency) -> Option<(Currency, Currency)> {
    match (a, b) {
        (Currency::Eth, Currency::Btc) | (Currency::Btc, Currency::Eth) => Some((Currency::Eth, Currency::Btc)),
        (Currency::Stq, Currency::Btc) | (Currency::Btc, Currency::Stq) => Some((Currency::Stq, Currency::Btc)),
        (Currency::Stq, Currency::Usd) | (Currency::Usd, Currency::Stq) => Some((Currency::Stq, Currency::Usd)),
        (Currency::Eth, Currency::Usd) | (Currency::Usd, Currency::Eth) => Some((Currency::Eth, Currency::Usd)),
        (Currency::Btc, Currency::Usd) | (Currency::Usd, Currency::Btc) => Some((Currency::Btc, Currency::Usd)),
        (Currency::Stq, Currency::Rub) | (Currency::Rub, Currency::Stq) => Some((Currency::Stq, Currency::Rub)),
        (Currency::Eth, Currency::Rub) | (Currency::Rub, Currency::Eth) => Some((Currency::Eth, Currency::Rub)),
        (Currency::Btc, Currency::Rub) | (Currency::Rub, Currency::Btc) => Some((Currency::Btc, Currency::Rub)),
        _ => None,
    }
}

/// One market order of a conversion.
pub struct Leg {
    pub base: Currency,
    pub quote: Currency,
    pub order_type: OrderType,
}

/// The order that turns `from` into the other currency of the market whose base
/// is `base`, when the amount is fixed in `amount_currency`: it sells the base
/// if `from` is the base and buys it otherwise, and it is a "total" order
/// unless the amount is a quantity of the base currency.
pub open spec fn leg_order_type(from: Currency, base: Currency, amount_currency: Currency) -> OrderType {
    if from == base {
        if amount_currency == base { OrderType::Sell } else { OrderType::SellTotal }
    } else {
        if amount_currency == base { OrderType::Buy } else { OrderType::BuyTotal }
    }
}

/// The single order converting `from` to `to` on their common market.
pub open spec fn direct_leg(from: Currency, to: Currency, amount_currency: Currency) -> Leg
    recommends
        market(from, to) is Some,
{
    let (base, quote) = market(from, to)->0;
    Leg { base, quote, order_type: leg_order_type(from, base, amount_currency) }
}

/// The orders that convert `from` to `to` for an amount fixed in
/// `amount_currency`: none unless the amount is in one of the two currencies;
/// one order where exmo has a market for the two; otherwise two orders through
/// USD (the second spends all the USD the first received), where both have a
/// USD market; otherwise none.
pub open spec fn spec_route(from: Currency, to: Currency, amount_currency: Currency) -> Seq<Leg> {
    if amount_currency != from && amount_currency != to {
        Seq::empty()
    } else if market(from, to) is Some {
        seq![direct_leg(from, to, amount_currency)]
    } else if from != to && market(from, Currency::Usd) is Some && market(Currency::Usd, to) is Some {
        seq![direct_leg(from, Currency::Usd, amount_currency), direct_leg(Currency::Usd, to, Currency::Usd)]
    } else {
        Seq::empty()
    }
}

/// Whether an exec list of orders is the given route.
pub open spec fn is_route(r: Seq<(String, OrderType)>, legs: Seq<Leg>) -> bool {
    &&& r.len() == legs.len()
    &&& forall|i: int|
        0 <= i < r.len() ==> (#[trigger] r[i]).0@ == spec_pair_name(legs[i].base, legs[i].quote)
            && r[i].1 == legs[i].order_type
}

fn one(base: Currency, quote: Currency, order_type: OrderType) -> (r: Vec<(String, OrderType)>)
    ensures
        is_route(r@, seq![Leg { base, quote, order_type }]),
{
    let v = vec![(pair_name(base, quote), order_type)];
    v
}

fn two(
    base1: Currency,
    quote1: Currency,
    order_type1: OrderType,
    base2: Currency,
    quote2: Currency,
    order_type2: OrderType,
) -> (r: Vec<(String, OrderType)>)
    ensures
        is_route(
            r@,
            seq![
                Leg { base: base1, quote: quote1, order_type: order_type1 },
                Leg { base: base2, quote: quote2, order_type: order_type2 },
            ],
        ),
{
    let v = vec![(pair_name(base1, quote1), order_type1), (pair_name(base2, quote2), order_type2)];
    v
}

/// The exmo orders (market name and order type) that convert `from` into `to`
/// for an amount given in `amount_currency`; empty where exmo offers no way.
#[verifier::rlimit(60)]
pub fn get_exmo_type(from: Currency, to: Currency, amount_currency: Currency) -> (r: Vec<(String, OrderType)>)
    ensures
        is_route(r@, spec_route(from, to, amount_currency)),
{
    match (from, to, amount_currency) {
        (Btc, Eth, Btc) => one(Eth, Btc, OrderType::BuyTotal),
        (Eth, Btc, Eth) => one(Eth, Btc, OrderType::Sell),
        (Btc, Eth, Eth) => one(Eth, Btc, OrderType::Buy),
        (Eth, Btc, Btc) => one(Eth, Btc, OrderType::SellTotal),

        (Btc, Stq, Btc) => one(Stq, Btc, OrderType::BuyTotal),
        (Stq, Btc, Stq) => one(Stq, Btc, OrderType::Sell),
        (Btc, Stq, Stq) => one(Stq, Btc, OrderType::Buy),
        (Stq, Btc, Btc) => one(Stq, Btc, OrderType::SellTotal),

        (Eth, Stq, Eth) => two(Eth, Usd, OrderType::Sell, Stq, Usd, OrderType::BuyTotal),
        (Eth, Stq, Stq) => two(Eth, Usd, OrderType::SellTotal, Stq, Usd, OrderType::BuyTotal),
        (Stq, Eth, Stq) => two(Stq, Usd, OrderType::Sell, Eth, Usd, OrderType::BuyTotal),
        (Stq, Eth, Eth) => two(Stq, Usd, OrderType::SellTotal, Eth, Usd, OrderType::BuyTotal),

        (Usd, Stq, Usd) => one(Stq, Usd, OrderType::BuyTotal),
        (Stq, Usd, Stq) => one(Stq, Usd, OrderType::Sell),
        (Usd, Stq, Stq) => one(Stq, Usd, OrderType::Buy),
        (Stq, Usd, Usd) => one(Stq, Usd, OrderType::SellTotal),

        (Usd, Eth, Usd) => one(Eth, Usd, OrderType::BuyTotal),
        (Eth, Usd, Eth) => one(Eth, Usd, OrderType::Sell),
        (Usd, Eth, Eth) => one(Eth, Usd, OrderType::Buy),
        (Eth, Usd, Usd) => one(Eth, Usd, OrderType::SellTotal),

        (Usd, Btc, Usd) => one(Btc, Usd, OrderType::BuyTotal),
        (Btc, Usd, Btc) => one(Btc, Usd, OrderType::Sell),
        (Usd, Btc, Btc) => one(Btc, Usd, OrderType::Buy),
        (Btc, Usd, Usd) => one(Btc, Usd, OrderType::SellTotal),

        (Rub, Stq, Rub) => one(Stq, Rub, OrderType::BuyTotal),
        (Stq, Rub, Stq) => one(Stq, Rub, OrderType::Sell),
        (Rub, Stq, Stq) => one(Stq, Rub, OrderType::Buy),
        (Stq, Rub, Rub) => one(Stq, Rub, OrderType::SellTotal),

        (Rub, Eth, Rub) => one(Eth, Rub, OrderType::BuyTotal),
        (Eth, Rub, Eth) => one(Eth, Rub, OrderType::Sell),
        (Rub, Eth, Eth) => one(Eth, Rub, OrderType::Buy),
        (Eth, Rub, Rub) => one(Eth, Rub, OrderType::SellTotal),

        (Rub, Btc, Rub) => one(Btc, Rub, OrderType::BuyTotal),
        (Btc, Rub, Btc) => one(Btc, Rub, OrderType::Sell),
        (Rub, Btc, Btc) => one(Btc, Rub, OrderType::Buy),
        (Btc, Rub, Rub) => one(Btc, Rub, OrderType::SellTotal),

        _ => Vec::new(),
    }
}

/// Exmo offers a way from `from` to `to` exactly when the two differ, the amount
/// is fixed in one of them, and they are not USD and RUB (which exmo does not
/// trade); the way is two orders exactly between ETH and STQ, one otherwise.
pub proof fn lemma_route_exists(from: Currency, to: Currency, amount_currency: Currency)
    ensures
        spec_route(from, to, amount_currency).len() > 0 <==> {
            &&& from != to
            &&& (amount_currency == from || amount_currency == to)
            &&& !((from == Usd && to == Rub) || (from == Rub && to == Usd))
        },
        spec_route(from, to, amount_currency).len() <= 2,
        spec_route(from, to, amount_currency).len() == 2 <==> {
            &&& (amount_currency == from || amount_currency == to)
            &&& ((from == Eth && to == Stq) || (from == Stq && to == Eth))
        },
{
    match from {
        Eth => {},
        Stq => {},
        Btc => {},
        Usd => {},
        Rub => {},
    }
}

/// Every order of a route is placed on a market exmo lists; the first trades
/// the currency converted from, the last the currency converted to, and
/// consecutive orders meet in a common currency (USD).
pub proof fn lemma_route_chains(from: Currency, to: Currency, amount_currency: Currency)
    ensures
        ({
            let legs = spec_route(from, to, amount_currency);
            &&& forall|i: int| 0 <= i < legs.len() ==>
                market((#[trigger] legs[i]).base, legs[i].quote) == Some((legs[i].base, legs[i].quote))
            &&& legs.len() > 0 ==> (legs[0].base == from || legs[0].quote == from)
            &&& legs.len() > 0 ==> (legs.last().base == to || legs.last().quote == to)
            &&& legs.len() == 2 ==> legs[0].quote == Usd && legs[1].quote == Usd
        }),
{
    match from {
        Eth => {},
        Stq => {},
        Btc => {},
        Usd => {},
        Rub => {},
    }
}

/// In every route, an order buys the base currency of its market (so that its
/// quoted rate has to be inverted) exactly when the currency it spends is the
/// market's quote currency: the first order spends `from`, the second the USD
/// the first received.
pub proof fn lemma_route_revert(from: Currency, to: Currency, amount_currency: Currency)
    ensures
        ({
            let legs = spec_route(from, to, amount_currency);
            &&& legs.len() > 0 ==> (legs[0].order_type.is_buy() <==> legs[0].quote == from)
            &&& legs.len() == 2 ==> legs[1].order_type.is_buy()
        }),
{
    match from {
        Eth => {},
        Stq => {},
        Btc => {},
        Usd => {},
        Rub => {},
    }
}

/// Where a conversion runs through USD and the amount is fixed in the currency
/// converted to, the amount first has to be restated in the currency converted
/// from; that is priced on the market of the target currency against USD, as
/// the USD total that buying the amount would take.
pub open spec fn spec_default_quantity_leg(from: Currency, to: Currency, amount_currency: Currency) -> Option<Leg> {
    if spec_route(from, to, amount_currency).len() == 2 && amount_currency == to {
        Some(Leg { base: to, quote: Usd, order_type: OrderType::SellTotal })
    } else {
        None
    }
}

/// The market order whose rate restates an amount before a conversion through
/// USD; `None` where the amount is used as it is.
pub fn default_quantity_leg(from: Currency, to: Currency, amount_currency: Currency) -> (r: Option<(String, OrderType)>)
    ensures
        match spec_default_quantity_leg(from, to, amount_currency) {
            None => r is None,
            Some(leg) => r matches Some(p) && p.0@ == spec_pair_name(leg.base, leg.quote)
                && p.1 == leg.order_type,
        },
{
    match (from, to, amount_currency) {
        (Eth, Stq, Stq) => Some((pair_name(Stq, Usd), OrderType::SellTotal)),
        (Stq, Eth, Eth) => Some((pair_name(Eth, Usd), OrderType::SellTotal)),
        _ => None,
    }
}

/// The order that restates an amount before a conversion through USD is
/// priced on the market of the route's second order, on the side that route
/// does not trade (it sells the target currency for USD).
pub proof fn lemma_default_leg_on_route_market(from: Currency, to: Currency, amount_currency: Currency)
    ensures
        spec_default_quantity_leg(from, to, amount_currency) matches Some(leg) ==> {
            let legs = spec_route(from, to, amount_currency);
            &&& legs.len() == 2
            &&& leg.base == legs[1].base && leg.quote == legs[1].quote
            &&& !leg.order_type.is_buy() && legs[1].order_type.is_buy()
        },
{
    match from {
        Eth => {},
        Stq => {},
        Btc => {},
        Usd => {},
        Rub => {},
    }
}

} // verus!
