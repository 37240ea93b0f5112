use exmo_exchange::amount::Amount;
use exmo_exchange::currency::Currency;
use exmo_exchange::exmo::error::ErrorKind as ExmoErrorKind;
use exmo_exchange::models::{Conversion, CreateSellOrder, ExchangeId, GetExchange, Quote, SellOrder, UserId};
use exmo_exchange::repos::ErrorKind as ReposErrorKind;
use exmo_exchange::services::error::{Error, ErrorContext, ErrorKind};
use exmo_exchange::services::orders::{CheckOutcome, OrdersAction, OrdersEvent, OrdersFlow, OrdersState};
use exmo_exchange::services::refresh::{RefreshAction, RefreshEvent, RefreshFlow, RefreshState};
use exmo_exchange::services::sell::{SellAction, SellEvent, SellFlow, SellState};
use exmo_exchange::validation::{FieldError, FieldErrors};

fn input() -> CreateSellOrder {
    CreateSellOrder {
        id: ExchangeId(9),
        from: Currency::Eth,
        to: Currency::Btc,
        actual_amount: Amount::new(1_000_000_000_000_000_000),
        amount_currency: Currency::Eth,
    }
}

fn conversion() -> Conversion {
    Conversion { from: Currency::Eth, to: Currency::Btc, amount: input().actual_amount, amount_currency: Currency::Eth }
}

fn quote(user: UserId) -> Quote {
    Quote { user, conversion: conversion() }
}

fn sold() -> SellOrder {
    SellOrder { from: Currency::Eth, to: Currency::Btc, actual_amount: Amount::new(5) }
}

#[test]
fn sell_happy_path() {
    let user = UserId(1);
    let mut f = SellFlow::start(input());
    assert_eq!(f.state, SellState::Authenticating);
    assert!(matches!(f.step(SellEvent::Authenticated(user)), SellAction::Validate { amount } if amount == input().actual_amount));
    match f.step(SellEvent::Validated(None)) {
        SellAction::FetchExchange(g) => assert_eq!(
            g,
            GetExchange {
                id: ExchangeId(9),
                from: Currency::Eth,
                to: Currency::Btc,
                actual_amount: input().actual_amount,
                amount_currency: Currency::Eth,
            }
        ),
        other => panic!("{:?}", other),
    }
    assert!(matches!(f.step(SellEvent::ExchangeFetched(Ok(Some(quote(user))))), SellAction::PriceCurrentRate));
    assert!(matches!(f.step(SellEvent::RatePriced(Ok(true))), SellAction::CheckBalance));
    assert!(matches!(f.step(SellEvent::BalanceChecked(Ok(()))), SellAction::StartSelling { sale } if sale == conversion()));
    match f.step(SellEvent::Sold(Ok(sold()))) {
        SellAction::Finish(Ok(s)) => assert_eq!(s, sold()),
        other => panic!("{:?}", other),
    }
    assert_eq!(f.state, SellState::Finished);
}

fn to_fetching(user: UserId) -> SellFlow {
    let mut f = SellFlow::start(input());
    f.step(SellEvent::Authenticated(user));
    f.step(SellEvent::Validated(None));
    f
}

#[test]
fn sell_of_foreign_rate_is_unauthorized() {
    let mut f = to_fetching(UserId(1));
    match f.step(SellEvent::ExchangeFetched(Ok(Some(quote(UserId(2)))))) {
        SellAction::Finish(Err(Error { kind: ErrorKind::Unauthorized, context: Some(ErrorContext::InvalidToken) })) => {}
        other => panic!("{:?}", other),
    }
    assert_eq!(f.state, SellState::Finished);
}

#[test]
fn sell_without_stored_quote_sells_the_request() {
    let mut f = to_fetching(UserId(1));
    assert!(matches!(f.step(SellEvent::ExchangeFetched(Ok(None))), SellAction::PriceCurrentRate));
    // with no quote stored there is no quoted rate to hold the current one against
    assert!(matches!(f.step(SellEvent::RatePriced(Ok(false))), SellAction::CheckBalance));
    assert!(matches!(f.step(SellEvent::BalanceChecked(Ok(()))), SellAction::StartSelling { sale } if sale == conversion()));
}

#[test]
fn sell_follows_route_of_stored_quote() {
    let mut f = to_fetching(UserId(1));
    let stored = Quote {
        user: UserId(1),
        conversion: Conversion { from: Currency::Eth, to: Currency::Btc, amount: Amount::new(7), amount_currency: Currency::Btc },
    };
    f.step(SellEvent::ExchangeFetched(Ok(Some(stored))));
    f.step(SellEvent::RatePriced(Ok(true)));
    let expected = Conversion {
        from: Currency::Eth,
        to: Currency::Btc,
        amount: input().actual_amount,
        amount_currency: Currency::Btc,
    };
    assert!(matches!(f.step(SellEvent::BalanceChecked(Ok(()))), SellAction::StartSelling { sale } if sale == expected));
}

#[test]
fn test_exchange_sell() {
    let user = UserId(0x1234);
    let request = CreateSellOrder {
        id: ExchangeId(42),
        from: Currency::Eth,
        to: Currency::Btc,
        actual_amount: Amount::default(),
        amount_currency: Currency::Eth,
    };
    let mut f = SellFlow::start(request);
    assert!(matches!(f.step(SellEvent::Authenticated(user)), SellAction::Validate { .. }));
    assert!(matches!(f.step(SellEvent::Validated(None)), SellAction::FetchExchange(_)));
    // the quote store is empty
    assert!(matches!(f.step(SellEvent::ExchangeFetched(Ok(None))), SellAction::PriceCurrentRate));
    assert!(matches!(f.step(SellEvent::RatePriced(Ok(false))), SellAction::CheckBalance));
    let sale = match f.step(SellEvent::BalanceChecked(Ok(()))) {
        SellAction::StartSelling { sale } => sale,
        other => panic!("{:?}", other),
    };
    assert_eq!(sale, Conversion { from: Currency::Eth, to: Currency::Btc, amount: Amount::default(), amount_currency: Currency::Eth });
    let order = SellOrder { from: Currency::Eth, to: Currency::Btc, actual_amount: Amount::default() };
    let exchange = match f.step(SellEvent::Sold(Ok(order))) {
        SellAction::Finish(result) => result,
        other => panic!("{:?}", other),
    };
    assert!(exchange.is_ok());
}

#[test]
fn sell_repo_error_is_converted() {
    let mut f = to_fetching(UserId(1));
    match f.step(SellEvent::ExchangeFetched(Err(ReposErrorKind::Unauthorized))) {
        SellAction::Finish(Err(Error { kind: ErrorKind::Unauthorized, context: None })) => {}
        other => panic!("{:?}", other),
    }
}

#[test]
fn sell_out_of_limits_is_invalid_input() {
    let mut f = SellFlow::start(input());
    f.step(SellEvent::Authenticated(UserId(3)));
    let errs = FieldErrors {
        errors: vec![("actual_amount".to_string(), FieldError { code: "limit".to_string(), message: None, params: vec![] })],
    };
    match f.step(SellEvent::Validated(Some(errs))) {
        SellAction::Finish(Err(Error { kind: ErrorKind::InvalidInput(e), context: None })) => {
            assert_eq!(e.errors[0].1.code, "limit")
        }
        other => panic!("{:?}", other),
    }
}

#[test]
fn sell_at_unsafe_rate_is_refused() {
    let mut f = to_fetching(UserId(1));
    f.step(SellEvent::ExchangeFetched(Ok(Some(quote(UserId(1))))));
    match f.step(SellEvent::RatePriced(Ok(false))) {
        SellAction::Finish(Err(Error { kind: ErrorKind::Internal, context: Some(ErrorContext::NoSuchRate) })) => {}
        other => panic!("{:?}", other),
    }
}

#[test]
fn sell_errors_pass_through() {
    let mut f = SellFlow::start(input());
    match f.step(SellEvent::AuthenticationFailed(Error::new(ErrorKind::Unauthorized, None))) {
        SellAction::Finish(Err(Error { kind: ErrorKind::Unauthorized, .. })) => {}
        other => panic!("{:?}", other),
    }
    let mut f = to_fetching(UserId(1));
    f.step(SellEvent::ExchangeFetched(Ok(Some(quote(UserId(1))))));
    f.step(SellEvent::RatePriced(Ok(true)));
    match f.step(SellEvent::BalanceChecked(Err(Error::new(
        ErrorKind::Internal,
        Some(ErrorContext::NotEnoughCurrencyBalance),
    )))) {
        SellAction::Finish(Err(Error { context: Some(ErrorContext::NotEnoughCurrencyBalance), .. })) => {}
        other => panic!("{:?}", other),
    }
}

#[test]
fn refresh_keeps_safe_rate() {
    let mut f = RefreshFlow::start(ExchangeId(5));
    assert!(matches!(f.step(RefreshEvent::Authenticated(UserId(1))), RefreshAction::FetchExchange(ExchangeId(5))));
    assert!(matches!(f.step(RefreshEvent::ExchangeFetched(Ok(Some(conversion())))), RefreshAction::PriceCurrentRate(c) if c == conversion()));
    assert!(matches!(f.step(RefreshEvent::RatePriced(Ok(true))), RefreshAction::RefreshExchange(ExchangeId(5))));
    assert!(matches!(f.step(RefreshEvent::Refreshed(Ok(()))), RefreshAction::Finish(Ok(false))));
    assert_eq!(f.state, RefreshState::Finished);
}

#[test]
fn refresh_requotes_unsafe_rate_for_requester() {
    let mut f = RefreshFlow::start(ExchangeId(5));
    f.step(RefreshEvent::Authenticated(UserId(4)));
    f.step(RefreshEvent::ExchangeFetched(Ok(Some(conversion()))));
    assert!(matches!(f.step(RefreshEvent::RatePriced(Ok(false))), RefreshAction::CreateRate { user: UserId(4), conversion: c } if c == conversion()));
    assert!(matches!(f.step(RefreshEvent::Requoted(Ok(()))), RefreshAction::Finish(Ok(true))));
}

#[test]
fn refresh_failures() {
    let mut f = RefreshFlow::start(ExchangeId(5));
    f.step(RefreshEvent::Authenticated(UserId(4)));
    match f.step(RefreshEvent::ExchangeFetched(Ok(None))) {
        RefreshAction::Finish(Err(Error { kind: ErrorKind::InvalidInput(errs), context: Some(ErrorContext::NoExchangeRate) })) => {
            assert_eq!(errs.errors[0].1.code, "not_found");
            assert_eq!(errs.errors[0].1.params, vec![("message".to_string(), "exchange rate not found".to_string())]);
        }
        other => panic!("{:?}", other),
    }
    let mut f = RefreshFlow::start(ExchangeId(5));
    f.step(RefreshEvent::Authenticated(UserId(4)));
    assert!(matches!(
        f.step(RefreshEvent::ExchangeFetched(Err(ReposErrorKind::Unauthorized))),
        RefreshAction::Finish(Err(Error { kind: ErrorKind::Internal, context: None }))
    ));
    let mut f = RefreshFlow::start(ExchangeId(5));
    f.step(RefreshEvent::Authenticated(UserId(4)));
    f.step(RefreshEvent::ExchangeFetched(Ok(Some(conversion()))));
    assert!(matches!(
        f.step(RefreshEvent::RatePriced(Err(Error::new(ErrorKind::NotFound, None)))),
        RefreshAction::Finish(Err(Error { kind: ErrorKind::Internal, context: None }))
    ));
    let mut f = RefreshFlow::start(ExchangeId(5));
    f.step(RefreshEvent::Authenticated(UserId(4)));
    f.step(RefreshEvent::ExchangeFetched(Ok(Some(conversion()))));
    f.step(RefreshEvent::RatePriced(Ok(true)));
    assert!(matches!(
        f.step(RefreshEvent::Refreshed(Err(ReposErrorKind::Unauthorized))),
        RefreshAction::Finish(Err(Error { kind: ErrorKind::Unauthorized, context: None }))
    ));
}

#[test]
fn error_kind_conversions() {
    assert!(matches!(ErrorKind::from(ReposErrorKind::Internal), ErrorKind::Internal));
    assert!(matches!(ErrorKind::from(ReposErrorKind::Unauthorized), ErrorKind::Unauthorized));
    let errs = FieldErrors { errors: vec![] };
    assert!(matches!(ErrorKind::from(ReposErrorKind::Constraints(errs.clone())), ErrorKind::InvalidInput(_)));
    assert!(matches!(ErrorKind::from(ExmoErrorKind::MalformedInput), ErrorKind::MalformedInput));
    assert!(matches!(ErrorKind::from(ExmoErrorKind::Internal), ErrorKind::Internal));
    assert!(matches!(ErrorKind::from(ExmoErrorKind::Unauthorized), ErrorKind::Unauthorized));
    assert!(matches!(ErrorKind::from(ExmoErrorKind::InvalidInput(errs)), ErrorKind::InvalidInput(_)));
    assert_eq!(ErrorContext::NoSuchRate.message(), "service error context - no such exchange rate on market");
}

#[test]
fn not_enough_on_market_errors() {
    let e = FieldErrors::not_enough_on_market();
    assert_eq!(e.errors[0].0, "value");
    assert_eq!(e.errors[0].1.code, "not_enough_on_market");
    assert_eq!(
        e.errors[0].1.message.as_deref(),
        Some("At the moment, the exchange of this amount is not possible, please try again later.")
    );
    assert!(e.errors[0].1.params.is_empty());
}

fn exmo_error() -> Error {
    Error::new(ErrorKind::Internal, None)
}

#[test]
fn orders_chain_received_amounts_along_route() {
    let (mut f, a) = OrdersFlow::start(2, 10u64);
    assert!(matches!(a, OrdersAction::PlaceOrder { leg: 0, quantity: 10 }));
    assert!(matches!(f.step(OrdersEvent::Placed(Ok(()))), OrdersAction::CheckOrder { leg: 0 }));
    assert!(matches!(f.step(OrdersEvent::Checked(CheckOutcome::Filled(7))), OrdersAction::PlaceOrder { leg: 1, quantity: 7 }));
    assert!(matches!(f.step(OrdersEvent::Placed(Ok(()))), OrdersAction::CheckOrder { leg: 1 }));
    assert!(matches!(f.step(OrdersEvent::Checked(CheckOutcome::Filled(3))), OrdersAction::Finish(Ok(3))));
    assert!(matches!(f.state, OrdersState::Finished));
}

#[test]
fn orders_on_empty_route_end_with_start_quantity() {
    let (f, a) = OrdersFlow::start(0, 9u64);
    assert!(matches!(a, OrdersAction::Finish(Ok(9))));
    assert!(matches!(f.state, OrdersState::Finished));
}

#[test]
fn orders_retry_failed_status_checks_then_give_up() {
    let (mut f, _) = OrdersFlow::start(1, 5u64);
    for _ in 0..2 {
        assert!(matches!(f.step(OrdersEvent::Placed(Ok(()))), OrdersAction::CheckOrder { leg: 0 }));
        assert!(matches!(
            f.step(OrdersEvent::Checked(CheckOutcome::StatusFailed(exmo_error()))),
            OrdersAction::PlaceOrder { leg: 0, quantity: 5 }
        ));
    }
    assert!(matches!(f.step(OrdersEvent::Placed(Ok(()))), OrdersAction::CheckOrder { leg: 0 }));
    let last = Error::new(ErrorKind::Unauthorized, None);
    assert!(matches!(
        f.step(OrdersEvent::Checked(CheckOutcome::StatusFailed(last))),
        OrdersAction::Finish(Err(Error { kind: ErrorKind::Unauthorized, .. }))
    ));
}

#[test]
fn orders_failed_order_or_record_is_not_retried() {
    let (mut f, _) = OrdersFlow::start(2, 5u64);
    assert!(matches!(
        f.step(OrdersEvent::Placed(Err(Error::new(ErrorKind::MalformedInput, None)))),
        OrdersAction::Finish(Err(Error { kind: ErrorKind::MalformedInput, .. }))
    ));
    let (mut f, _) = OrdersFlow::start(2, 5u64);
    f.step(OrdersEvent::Placed(Ok(())));
    assert!(matches!(
        f.step(OrdersEvent::Checked(CheckOutcome::RecordFailed(Error::new(ErrorKind::NotFound, None)))),
        OrdersAction::Finish(Err(Error { kind: ErrorKind::NotFound, .. }))
    ));
}

#[test]
fn orders_failures_count_per_leg() {
    let (mut f, _) = OrdersFlow::start(2, 1.5f64);
    f.step(OrdersEvent::Placed(Ok(())));
    f.step(OrdersEvent::Checked(CheckOutcome::StatusFailed(exmo_error())));
    f.step(OrdersEvent::Placed(Ok(())));
    f.step(OrdersEvent::Checked(CheckOutcome::StatusFailed(exmo_error())));
    f.step(OrdersEvent::Placed(Ok(())));
    // the third check on the first leg succeeds: the second leg starts afresh
    assert!(matches!(
        f.step(OrdersEvent::Checked(CheckOutcome::Filled(0.25))),
        OrdersAction::PlaceOrder { leg: 1, quantity } if quantity == 0.25
    ));
    f.step(OrdersEvent::Placed(Ok(())));
    assert!(matches!(
        f.step(OrdersEvent::Checked(CheckOutcome::StatusFailed(exmo_error()))),
        OrdersAction::PlaceOrder { leg: 1, quantity } if quantity == 0.25
    ));
}
