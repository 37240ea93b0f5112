use exmo_exchange::amount::Amount;
use exmo_exchange::currency::{
    Currency, CurrencySqlError, BTC_DECIMALS, ETH_DECIMALS, FIAT_DECIMALS, MAX_RATE, STQ_DECIMALS,
};

const ALL: [Currency; 5] = [Currency::Eth, Currency::Stq, Currency::Btc, Currency::Usd, Currency::Rub];

#[test]
fn currency_names() {
    assert_eq!(Currency::Eth.name(), "eth");
    assert_eq!(Currency::Stq.name(), "stq");
    assert_eq!(Currency::Btc.name(), "btc");
    assert_eq!(Currency::Usd.name(), "usd");
    assert_eq!(Currency::Rub.name(), "rub");
    assert_eq!(Currency::Btc.to_string(), "btc".to_string());
}

#[test]
fn currency_name_round_trip() {
    for c in ALL.iter() {
        assert_eq!(Currency::from_name(&c.to_string()), Some(*c));
        assert_eq!(c.to_string().parse::<Currency>(), Ok(*c));
    }
    assert_eq!(Currency::from_name("ETH"), None);
    assert_eq!(Currency::from_name(""), None);
    assert_eq!(Currency::from_name("eth "), None);
    assert_eq!("xrp".parse::<Currency>(), Err(()));
}

#[test]
fn currency_sql_round_trip() {
    for c in ALL.iter() {
        let bytes = c.to_sql_bytes();
        assert_eq!(bytes, c.name().as_bytes().to_vec());
        assert_eq!(Currency::from_sql(Some(&bytes)), Ok(*c));
    }
    assert_eq!(Currency::from_sql(None), Err(CurrencySqlError::Null));
    assert_eq!(Currency::from_sql(Some(b"ETH")), Err(CurrencySqlError::Unrecognized(b"ETH".to_vec())));
    assert_eq!(Currency::from_sql(Some(b"ethx")), Err(CurrencySqlError::Unrecognized(b"ethx".to_vec())));
}

#[test]
fn currency_decimals() {
    assert_eq!(Currency::Btc.decimals(), BTC_DECIMALS);
    assert_eq!(Currency::Eth.decimals(), ETH_DECIMALS);
    assert_eq!(Currency::Stq.decimals(), STQ_DECIMALS);
    assert_eq!(Currency::Usd.decimals(), FIAT_DECIMALS);
    assert_eq!(Currency::Rub.decimals(), 1);
    assert_eq!(BTC_DECIMALS, 100_000_000);
    assert_eq!(ETH_DECIMALS, 1_000_000_000_000_000_000);
}

#[test]
fn scaled_quantity_of_one_unit_is_max_rate() {
    assert_eq!(Currency::Eth.scaled_quantity(Amount::new(ETH_DECIMALS)), MAX_RATE);
    assert_eq!(Currency::Btc.scaled_quantity(Amount::new(BTC_DECIMALS)), MAX_RATE);
    assert_eq!(Currency::Stq.scaled_quantity(Amount::new(STQ_DECIMALS)), MAX_RATE);
    assert_eq!(Currency::Usd.scaled_quantity(Amount::new(1)), 6_500_000);
    assert_eq!(Currency::Usd.scaled_quantity(Amount::new(3)), 19_500_000);
}

#[test]
fn scaled_quantity_never_below_one() {
    assert_eq!(Currency::Eth.scaled_quantity(Amount::new(1)), 1);
    assert_eq!(Currency::Eth.scaled_quantity(Amount::new(0)), 1);
    assert_eq!(Currency::Usd.scaled_quantity(Amount::default()), 1);
    // 1 satoshi: 6_500_000 / 100_000_000 rounds down to 0, then is raised to 1
    assert_eq!(Currency::Btc.scaled_quantity(Amount::new(1)), 1);
    assert_eq!(Currency::Btc.scaled_quantity(Amount::new(16)), 1);
    assert_eq!(Currency::Btc.scaled_quantity(Amount::new(17)), 1);
    assert_eq!(Currency::Btc.scaled_quantity(Amount::new(100)), 6);
}

#[test]
fn amount_from_scaled_values() {
    assert_eq!(Currency::Eth.amount_from_scaled(MAX_RATE), Amount::new(ETH_DECIMALS));
    assert_eq!(Currency::Btc.amount_from_scaled(3 * MAX_RATE / 2), Amount::new(150_000_000));
    assert_eq!(Currency::Usd.amount_from_scaled(6_499_999), Amount::new(0));
    assert_eq!(Currency::Rub.amount_from_scaled(13_000_000), Amount::new(2));
}

#[test]
fn scaled_round_trip_loses_little() {
    for raw in [17u128, 100, 12_345, 99_999_999, 100_000_001].iter() {
        let v = Amount::new(*raw);
        let back = Currency::Btc.amount_from_scaled(Currency::Btc.scaled_quantity(v));
        assert!(back.raw() <= *raw);
        assert!((*raw - back.raw()) * MAX_RATE < BTC_DECIMALS + MAX_RATE);
    }
    for raw in [1u128, 7, 1_000_000].iter() {
        let v = Amount::new(*raw);
        assert_eq!(Currency::Usd.amount_from_scaled(Currency::Usd.scaled_quantity(v)), v);
    }
}

#[test]
fn amount_basics() {
    assert_eq!(Amount::default().raw(), 0);
    assert_eq!(Amount::new(42).raw(), 42);
}
