//! The requests and records of the exchange service that hold no prices.

use vstd::prelude::*;

use crate::amount::Amount;
use crate::currency::Currency;

verus! {

/// A user of the gateway, by the 128 bits of their UUID.
#[derive(Debug, Clone, Copy, PartialEq, Eq, Structural, Hash)]
pub struct UserId(pub u128);

/// A quoted exchange rate, by the 128 bits of its UUID.
#[derive(Debug, Clone, Copy, PartialEq, Eq, Structural, Hash)]
pub struct ExchangeId(pub u128);

/// A request to sell at a rate quoted earlier.
#[derive(Debug, Clone, Copy, PartialEq, Eq, Structural)]
pub struct CreateSellOrder {
    pub id: ExchangeId,
    pub from: Currency,
    pub to: Currency,
    pub actual_amount: Amount,
    pub amount_currency: Currency,
}

/// A lookup of a quoted exchange rate.
#[derive(Debug, Clone, Copy, PartialEq, Eq, Structural)]
pub struct GetExchange {
    pub id: ExchangeId,
    pub from: Currency,
    pub to: Currency,
    pub actual_amount: Amount,
    pub amount_currency: Currency,
}

/// A request for a rate quote.
#[derive(Debug, Clone, Copy, PartialEq, Eq, Structural)]
pub struct GetRate {
    pub id: ExchangeId,
    pub from: Currency,
    pub to: Currency,
    pub amount: Amount,
    pub amount_currency: Currency,
}

/// The result of a sale: what was sold for what, and how much was received.
#[derive(Debug, Clone, Copy, PartialEq, Eq, Structural)]
pub struct SellOrder {
    pub from: Currency,
    pub to: Currency,
    pub actual_amount: Amount,
}

/// What a quoted rate converts: the currency sold, the currency bought, and
/// the amount in the currency it is given in.
#[derive(Debug, Clone, Copy, PartialEq, Eq, Structural)]
pub struct Conversion {
    pub from: Currency,
    pub to: Currency,
    pub amount: Amount,
    pub amount_currency: Currency,
}

/// A stored quote as the service's decisions read it: the user it was quoted
/// to and the conversion it quotes.
#[derive(Debug, Clone, Copy, PartialEq, Eq, Structural)]
pub struct Quote {
    pub user: UserId,
    pub conversion: Conversion,
}

impl GetExchange {
    /// The lookup of the rate a sell request refers to: the same fields.
    pub fn from_sell_order(sell: CreateSellOrder) -> (r: GetExchange)
        ensures
            r.id == sell.id,
            r.from == sell.from,
            r.to == sell.to,
            r.actual_amount == sell.actual_amount,
            r.amount_currency == sell.amount_currency,
    {
        GetExchange {
            id: sell.id,
            from: sell.from,
            to: sell.to,
            actual_amount: sell.actual_amount,
            amount_currency: sell.amount_currency,
        }
    }
}

} // verus!
