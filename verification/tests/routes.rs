use exmo_exchange::currency::Currency::{self, Btc, Eth, Rub, Stq, Usd};
use exmo_exchange::order_type::{need_revert, OrderType};
use exmo_exchange::routes::{default_quantity_leg, get_exmo_type, pair_name, ticker};

fn route(from: Currency, to: Currency, amount_currency: Currency) -> Vec<(String, OrderType)> {
    get_exmo_type(from, to, amount_currency)
}

fn legs(v: &[(&str, OrderType)]) -> Vec<(String, OrderType)> {
    v.iter().map(|(p, t)| (p.to_string(), *t)).collect()
}

#[test]
fn order_type_names() {
    assert_eq!(OrderType::Sell.to_string(), "market_sell");
    assert_eq!(OrderType::Buy.to_string(), "market_buy");
    assert_eq!(OrderType::SellTotal.to_string(), "market_sell_total");
    assert_eq!(OrderType::BuyTotal.exmo_name(), "market_buy_total");
}

#[test]
fn need_revert_for_buys_only() {
    assert!(need_revert(OrderType::Buy));
    assert!(need_revert(OrderType::BuyTotal));
    assert!(!need_revert(OrderType::Sell));
    assert!(!need_revert(OrderType::SellTotal));
}

#[test]
fn tickers_and_pairs() {
    assert_eq!(ticker(Eth), "ETH");
    assert_eq!(ticker(Rub), "RUB");
    assert_eq!(pair_name(Eth, Btc), "ETH_BTC");
    assert_eq!(pair_name(Stq, Usd), "STQ_USD");
}

#[test]
fn direct_routes_eth_btc() {
    assert_eq!(route(Btc, Eth, Btc), legs(&[("ETH_BTC", OrderType::BuyTotal)]));
    assert_eq!(route(Eth, Btc, Eth), legs(&[("ETH_BTC", OrderType::Sell)]));
    assert_eq!(route(Btc, Eth, Eth), legs(&[("ETH_BTC", OrderType::Buy)]));
    assert_eq!(route(Eth, Btc, Btc), legs(&[("ETH_BTC", OrderType::SellTotal)]));
}

#[test]
fn direct_routes_other_markets() {
    assert_eq!(route(Btc, Stq, Btc), legs(&[("STQ_BTC", OrderType::BuyTotal)]));
    assert_eq!(route(Stq, Btc, Stq), legs(&[("STQ_BTC", OrderType::Sell)]));
    assert_eq!(route(Usd, Stq, Stq), legs(&[("STQ_USD", OrderType::Buy)]));
    assert_eq!(route(Eth, Usd, Usd), legs(&[("ETH_USD", OrderType::SellTotal)]));
    assert_eq!(route(Usd, Btc, Usd), legs(&[("BTC_USD", OrderType::BuyTotal)]));
    assert_eq!(route(Stq, Rub, Stq), legs(&[("STQ_RUB", OrderType::Sell)]));
    assert_eq!(route(Rub, Eth, Eth), legs(&[("ETH_RUB", OrderType::Buy)]));
    assert_eq!(route(Btc, Rub, Rub), legs(&[("BTC_RUB", OrderType::SellTotal)]));
}

#[test]
fn routes_through_usd() {
    assert_eq!(route(Eth, Stq, Eth), legs(&[("ETH_USD", OrderType::Sell), ("STQ_USD", OrderType::BuyTotal)]));
    assert_eq!(route(Eth, Stq, Stq), legs(&[("ETH_USD", OrderType::SellTotal), ("STQ_USD", OrderType::BuyTotal)]));
    assert_eq!(route(Stq, Eth, Stq), legs(&[("STQ_USD", OrderType::Sell), ("ETH_USD", OrderType::BuyTotal)]));
    assert_eq!(route(Stq, Eth, Eth), legs(&[("STQ_USD", OrderType::SellTotal), ("ETH_USD", OrderType::BuyTotal)]));
}

#[test]
fn no_routes() {
    assert!(route(Usd, Rub, Usd).is_empty());
    assert!(route(Rub, Usd, Rub).is_empty());
    assert!(route(Eth, Eth, Eth).is_empty());
    assert!(route(Eth, Btc, Usd).is_empty());
    assert!(route(Eth, Stq, Usd).is_empty());
}

#[test]
fn route_exists_exactly_when_expected() {
    let all = [Eth, Stq, Btc, Usd, Rub];
    for from in all.iter() {
        for to in all.iter() {
            for ac in all.iter() {
                let r = route(*from, *to, *ac);
                let fiat_pair = (*from == Usd && *to == Rub) || (*from == Rub && *to == Usd);
                let expected = from != to && (ac == from || ac == to) && !fiat_pair;
                assert_eq!(!r.is_empty(), expected, "{:?} {:?} {:?}", from, to, ac);
                let via_usd = (*from == Eth && *to == Stq) || (*from == Stq && *to == Eth);
                if expected {
                    assert_eq!(r.len(), if via_usd { 2 } else { 1 });
                }
            }
        }
    }
}

#[test]
fn routes_of_the_rate_scenarios_exist() {
    // the conversions priced in the service's rate scenario, all with the amount in ETH
    assert!(!route(Eth, Btc, Eth).is_empty());
    assert!(route(Btc, Eth, Eth).len() == 1);
    assert!(route(Stq, Btc, Eth).is_empty());
    assert!(route(Stq, Eth, Eth).len() == 2);
    assert!(route(Eth, Stq, Eth).len() == 2);
}

#[test]
fn default_quantity_legs() {
    assert_eq!(default_quantity_leg(Eth, Stq, Stq), Some(("STQ_USD".to_string(), OrderType::SellTotal)));
    assert_eq!(default_quantity_leg(Stq, Eth, Eth), Some(("ETH_USD".to_string(), OrderType::SellTotal)));
    assert_eq!(default_quantity_leg(Eth, Stq, Eth), None);
    assert_eq!(default_quantity_leg(Eth, Btc, Btc), None);
}

#[test]
fn route_orders_buy_exactly_when_spending_the_quote() {
    let all = [Eth, Stq, Btc, Usd, Rub];
    for from in all.iter() {
        for to in all.iter() {
            for ac in all.iter() {
                let r = route(*from, *to, *ac);
                if r.is_empty() {
                    continue;
                }
                // the first order spends `from`: it buys exactly when `from` is the quote
                let (pair, t) = &r[0];
                assert_eq!(need_revert(*t), pair.ends_with(ticker(*from)), "{:?} {:?} {:?}", from, to, ac);
                assert!(pair.contains(ticker(*from)));
                assert!(r[r.len() - 1].0.contains(ticker(*to)));
                if r.len() == 2 {
                    assert!(need_revert(r[1].1));
                    assert!(r[0].0.ends_with("USD") && r[1].0.ends_with("USD"));
                }
            }
        }
    }
}

#[test]
fn default_quantity_leg_prices_on_second_market() {
    for (from, to) in [(Eth, Stq), (Stq, Eth)].iter() {
        let leg = default_quantity_leg(*from, *to, *to).unwrap();
        let r = route(*from, *to, *to);
        assert_eq!(leg.0, r[1].0);
        assert!(!need_revert(leg.1));
    }
}
