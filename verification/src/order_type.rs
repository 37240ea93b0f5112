use vstd::prelude::*;

verus! {

/// The kinds of market order the gateway places on exmo.
#[derive(Debug, Clone, Copy, PartialEq, Eq, Structural, Hash)]
pub enum OrderType {
    /// Sell a quantity of the pair's base currency.
    Sell,
    /// Buy a quantity of the pair's base currency.
    Buy,
    /// Sell base currency for a total sum of the quote currency.
    SellTotal,
    /// Buy base currency for a total sum of the quote currency.
    BuyTotal,
}

impl OrderType {
    /// The name exmo gives the order type.
    pub open spec fn spec_exmo_name(self) -> Seq<char> {
        match self {
            OrderType::Sell => "market_sell"@,
            OrderType::Buy => "market_buy"@,
            OrderType::SellTotal => "market_sell_total"@,
            OrderType::BuyTotal => "market_buy_total"@,
        }
    }

    pub fn exmo_name(self) -> (r: &'static str)
        ensures
            r@ == self.spec_exmo_name(),
    {
        match self {
            OrderType::Sell => "market_sell",
            OrderType::Buy => "market_buy",
            OrderType::SellTotal => "market_sell_total",
            OrderType::BuyTotal => "market_buy_total",
        }
    }

    /// The order type as it is displayed (its exmo name).
    pub fn to_string(&self) -> (r: String)
        ensures
            r@ == self.spec_exmo_name(),
    {
        String::from_str(self.exmo_name())
    }

    /// Whether the order buys the base currency of its pair.
    pub open spec fn is_buy(self) -> bool {
        self == OrderType::Buy || self == OrderType::BuyTotal
    }
}

/// Exmo quotes every pair as the price of its base currency in its quote currency,
/// so the rate of an order that buys the base currency has to be inverted to
/// give the rate from the currency spent to the currency received.
pub fn need_revert(order_type: OrderType) -> (r: bool)
    ensures
        r == order_type.is_buy(),
{
    match order_type {
        OrderType::Buy | OrderType::BuyTotal => true,
        OrderType::Sell | OrderType::SellTotal => false,
    }
}

} // verus!
