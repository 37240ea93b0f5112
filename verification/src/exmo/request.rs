use vstd::prelude::*;

use crate::decimal::{decimal, push_decimal, push_signed_decimal, signed_decimal};
use crate::exmo::error::{Error, ErrorKind, ErrorSource};
use crate::order_type::OrderType;

verus! {

/// Exmo's reply to an order being placed.
#[derive(Debug, Clone)]
pub struct ExmoCreateOrderResponse {
    pub result: bool,
    pub error: String,
    pub order_id: u64,
}

/// Exmo's reply to an order being cancelled.
#[derive(Debug, Clone)]
pub struct ExmoCancelOrderResponse {
    pub result: bool,
    pub error: String,
}

impl ExmoCreateOrderResponse {
    /// The id of the placed order, or, where exmo refused the order, an
    /// internal error of its reply.
    pub fn order_id_or_error(&self) -> (r: Result<u64, Error>)
        ensures
            self.result ==> r == Ok::<u64, Error>(self.order_id),
            !self.result ==> r == Err::<u64, Error>(
                Error { kind: ErrorKind::Internal, source: Some(ErrorSource::Json), context: None },
            ),
    {
        if self.result {
            Ok(self.order_id)
        } else {
            Err(Error::new(ErrorKind::Internal, Some(ErrorSource::Json), None))
        }
    }
}

/// The path of exmo's public order book for a market.
pub open spec fn spec_order_book_query(pair: Seq<char>) -> Seq<char> {
    "/order_book/?pair="@ + pair
}

pub fn order_book_query(pair: &str) -> (r: String)
    ensures
        r@ == spec_order_book_query(pair@),
{
    let mut r = String::from_str("/order_book/?pair=");
    r.append(pair);
    r
}

/// The body of a request that places a market order; the quantity comes as
/// the text it is written as.
pub open spec fn spec_order_create_message(nonce: i64, pair: Seq<char>, quantity: Seq<char>, order_type: OrderType) -> Seq<char> {
    "nonce="@ + signed_decimal(nonce as int) + "&pair="@ + pair + "&quantity="@ + quantity + "&price=0&type="@
        + order_type.spec_exmo_name()
}

pub fn order_create_message(nonce: i64, pair: &str, quantity: &str, order_type: OrderType) -> (r: String)
    ensures
        r@ == spec_order_create_message(nonce, pair@, quantity@, order_type),
{
    let mut r = String::from_str("nonce=");
    push_signed_decimal(&mut r, nonce);
    r.append("&pair=");
    r.append(pair);
    r.append("&quantity=");
    r.append(quantity);
    r.append("&price=0&type=");
    r.append(order_type.exmo_name());
    assert(r@ =~= spec_order_create_message(nonce, pair@, quantity@, order_type));
    r
}

/// The type field of an order's body names its order type, so that exmo places
/// the order asked for: the body ends with `&price=0&type=` followed by exmo's
/// name of the type (`market_sell`, `market_buy`, `market_sell_total` or
/// `market_buy_total`), and bodies for two different order types always differ.
pub proof fn lemma_order_body_names_type(
    nonce: i64,
    pair: Seq<char>,
    quantity: Seq<char>,
    t1: OrderType,
    t2: OrderType,
)
    ensures
        ({
            let body = spec_order_create_message(nonce, pair, quantity, t1);
            let tail = "&price=0&type="@ + match t1 {
                OrderType::Sell => "market_sell"@,
                OrderType::Buy => "market_buy"@,
                OrderType::SellTotal => "market_sell_total"@,
                OrderType::BuyTotal => "market_buy_total"@,
            };
            body.len() >= tail.len() && body.subrange(body.len() - tail.len(), body.len() as int) == tail
        }),
        t1 != t2 ==> spec_order_create_message(nonce, pair, quantity, t1) != spec_order_create_message(
            nonce,
            pair,
            quantity,
            t2,
        ),
{
    reveal_strlit("market_sell");
    reveal_strlit("market_buy");
    reveal_strlit("market_sell_total");
    reveal_strlit("market_buy_total");
    let head = "nonce="@ + signed_decimal(nonce as int) + "&pair="@ + pair + "&quantity="@ + quantity;
    let prefix = head + "&price=0&type="@;
    let b1 = spec_order_create_message(nonce, pair, quantity, t1);
    let b2 = spec_order_create_message(nonce, pair, quantity, t2);
    let n1 = t1.spec_exmo_name();
    let n2 = t2.spec_exmo_name();
    assert(b1 == prefix + n1);
    assert(b2 == prefix + n2);
    let tail = "&price=0&type="@ + n1;
    assert(b1 =~= head + tail);
    assert(b1.subrange(b1.len() - tail.len(), b1.len() as int) =~= tail);
    if t1 != t2 && b1 == b2 {
        assert(b1.subrange(prefix.len() as int, b1.len() as int) =~= n1);
        assert(b2.subrange(prefix.len() as int, b2.len() as int) =~= n2);
        assert(n1.len() != n2.len());
    }
}

/// The body of a request for the trades that filled an order.
pub open spec fn spec_order_trades_message(nonce: i64, order_id: u64) -> Seq<char> {
    "nonce="@ + signed_decimal(nonce as int) + "&order_id="@ + decimal(order_id as nat)
}

pub fn order_trades_message(nonce: i64, order_id: u64) -> (r: String)
    ensures
        r@ == spec_order_trades_message(nonce, order_id),
{
    let mut r = String::from_str("nonce=");
    push_signed_decimal(&mut r, nonce);
    r.append("&order_id=");
    push_decimal(&mut r, order_id);
    assert(r@ =~= spec_order_trades_message(nonce, order_id));
    r
}

/// The body of a request for the account's trades on a market.
pub open spec fn spec_user_trades_message(nonce: i64, pair: Seq<char>) -> Seq<char> {
    "nonce="@ + signed_decimal(nonce as int) + "&pair="@ + pair
}

pub fn user_trades_message(nonce: i64, pair: &str) -> (r: String)
    ensures
        r@ == spec_user_trades_message(nonce, pair@),
{
    let mut r = String::from_str("nonce=");
    push_signed_decimal(&mut r, nonce);
    r.append("&pair=");
    r.append(pair);
    assert(r@ =~= spec_user_trades_message(nonce, pair@));
    r
}

} // verus!
