use crypto_normalizer::amount::Amount;
use crypto_normalizer::contract_value::listing::{contract_specs, Listed};
use crypto_normalizer::contract_value::registry::{get_contract_value, ContractSpecRegistry};
use crypto_normalizer::contract_value::table::{ContractSpec, ContractTable};
use crypto_normalizer::contract_value::{kucoin, mexc, zbg};
use crypto_normalizer::market::MarketKind;

fn amount(num: u128, den: u128) -> Amount {
    Amount { num, den }
}

fn spec(pair: &str, num: u128, den: u128) -> ContractSpec {
    ContractSpec { pair: pair.to_string(), multiplier: amount(num, den) }
}

#[test]
fn baseline_sizes() {
    let registry = ContractSpecRegistry::new();
    assert_eq!(2, registry.bitget.len());
    assert_eq!(254, registry.kucoin.len());
    assert_eq!(452, registry.mexc.len());
    assert_eq!(20, registry.zbg.len());
}

#[test]
fn baseline_values() {
    let registry = ContractSpecRegistry::new();
    let get = |exchange: &str, kind: MarketKind, pair: &str| {
        get_contract_value(&registry, exchange, kind, pair)
    };
    assert_eq!(Some(amount(1, 1000)), get("kucoin", MarketKind::LinearSwap, "BTC/USDT"));
    assert_eq!(Some(amount(1000, 1)), get("kucoin", MarketKind::LinearSwap, "10000LADYS/USDT"));
    assert_eq!(Some(amount(10, 1)), get("kucoin", MarketKind::LinearSwap, "ZRX/USDT"));
    assert_eq!(Some(amount(1, 10000)), get("mexc", MarketKind::LinearSwap, "BTC/USDT"));
    assert_eq!(
        Some(amount(100000, 1)),
        get("mexc", MarketKind::LinearSwap, "1000000FLOKICEO/USDT")
    );
    assert_eq!(
        Some(amount(100000000000, 1)),
        get("mexc", MarketKind::LinearSwap, "AIDOGE/USDT")
    );
    assert_eq!(Some(amount(10, 1)), get("mexc", MarketKind::LinearSwap, "ZZZ/USDT"));
    assert_eq!(Some(amount(1, 10)), get("zbg", MarketKind::LinearSwap, "AXS/USDT"));
    assert_eq!(Some(amount(1, 1)), get("zbg", MarketKind::InverseSwap, "BTC/USD"));
    assert_eq!(Some(amount(10, 1)), get("zbg", MarketKind::LinearSwap, "XRP/USDT"));
}

#[test]
fn constant_multipliers() {
    let registry = ContractSpecRegistry::new();
    let get = |exchange: &str, kind: MarketKind, pair: &str| {
        get_contract_value(&registry, exchange, kind, pair)
    };
    assert_eq!(Some(amount(1, 1)), get("bitget", MarketKind::InverseSwap, "BTC/USD"));
    assert_eq!(Some(amount(1, 1)), get("bitget", MarketKind::InverseSwap, "ETH/USD"));
    assert_eq!(Some(amount(1, 1000)), get("bitget", MarketKind::LinearSwap, "BTC/USDT"));
    assert_eq!(Some(amount(1, 100)), get("bitget", MarketKind::LinearSwap, "BCH/USDT"));
    assert_eq!(None, get("bitget", MarketKind::LinearSwap, "NOSUCH/USDT"));
    assert_eq!(None, get("bitget", MarketKind::Spot, "BTC/USDT"));
    assert_eq!(None, get("bitget", MarketKind::InverseFuture, "BTC/USD"));
    assert_eq!(Some(amount(1, 1)), get("kucoin", MarketKind::InverseSwap, "BTC/USD"));
    assert_eq!(Some(amount(1, 1)), get("kucoin", MarketKind::InverseFuture, "NOSUCH/USD"));
    assert_eq!(Some(amount(100, 1)), get("mexc", MarketKind::InverseSwap, "BTC/USD"));
    assert_eq!(Some(amount(10, 1)), get("mexc", MarketKind::InverseSwap, "ETH/USD"));
}

#[test]
fn unknown_instruments_have_no_multiplier() {
    let registry = ContractSpecRegistry::new();
    let get = |exchange: &str, kind: MarketKind, pair: &str| {
        get_contract_value(&registry, exchange, kind, pair)
    };
    assert_eq!(None, get("kucoin", MarketKind::LinearSwap, "NOSUCH/USDT"));
    assert_eq!(None, get("kucoin", MarketKind::Spot, "BTC/USDT"));
    assert_eq!(None, get("kucoin", MarketKind::LinearFuture, "BTC/USDT"));
    assert_eq!(None, get("mexc", MarketKind::LinearSwap, "NOSUCH/USDT"));
    assert_eq!(None, get("mexc", MarketKind::InverseFuture, "BTC/USD"));
    assert_eq!(None, get("zbg", MarketKind::LinearSwap, "NOSUCH/USDT"));
    assert_eq!(None, get("zbg", MarketKind::Spot, "BTC/USDT"));
    assert_eq!(None, get("nowhere", MarketKind::LinearSwap, "BTC/USDT"));
}

#[test]
fn failed_fetch_keeps_baseline() {
    let fresh = ContractSpecRegistry::new();
    let mut registry = ContractSpecRegistry::new();
    registry.warm_up("kucoin", None);
    registry.warm_up("mexc", None);
    registry.warm_up("zbg", None);
    assert!(registry.kucoin_warm && registry.mexc_warm && registry.zbg_warm);
    for pair in ["BTC/USDT", "ETH/USDT", "DOGE/USDT", "XRP/USDT"] {
        for exchange in ["kucoin", "mexc", "zbg"] {
            assert_eq!(
                fresh.get(exchange, pair, MarketKind::LinearSwap),
                registry.get(exchange, pair, MarketKind::LinearSwap)
            );
            assert!(registry.get(exchange, pair, MarketKind::LinearSwap).is_some());
        }
    }
    assert_eq!(fresh.kucoin.len(), registry.kucoin.len());
}

#[test]
fn live_listing_overlays_baseline() {
    let mut registry = ContractSpecRegistry::new();
    let live = vec![spec("BTC/USDT", 1, 100), spec("NEW/USDT", 5, 1), spec("NEW/USDT", 7, 1)];
    registry.warm_up("kucoin", Some(live));
    assert_eq!(Some(amount(1, 100)), registry.get("kucoin", "BTC/USDT", MarketKind::LinearSwap));
    assert_eq!(Some(amount(7, 1)), registry.get("kucoin", "NEW/USDT", MarketKind::LinearSwap));
    // absent from the live listing: the baseline stays
    assert_eq!(Some(amount(1, 100)), registry.get("kucoin", "ETH/USDT", MarketKind::LinearSwap));
    // the other exchanges are untouched
    assert_eq!(Some(amount(1, 10000)), registry.get("mexc", "BTC/USDT", MarketKind::LinearSwap));
    assert!(!registry.mexc_warm);
    assert_eq!(255, registry.kucoin.len());
}

#[test]
fn warm_up_happens_once() {
    let mut registry = ContractSpecRegistry::new();
    registry.warm_up("zbg", Some(vec![spec("BTC/USDT", 1, 2)]));
    registry.warm_up("zbg", Some(vec![spec("BTC/USDT", 1, 4)]));
    assert_eq!(Some(amount(1, 2)), registry.get("zbg", "BTC/USDT", MarketKind::LinearSwap));
    registry.warm_up("mexc", None);
    registry.warm_up("mexc", Some(vec![spec("BTC/USDT", 1, 4)]));
    assert_eq!(Some(amount(1, 10000)), registry.get("mexc", "BTC/USDT", MarketKind::LinearSwap));
}

#[test]
fn unusable_listing_keeps_baseline() {
    let mut registry = ContractSpecRegistry::new();
    registry.warm_up("kucoin", Some(vec![spec("BTC/USDT", 1, 100), spec("ETH/USDT", 0, 1)]));
    assert_eq!(Some(amount(1, 1000)), registry.get("kucoin", "BTC/USDT", MarketKind::LinearSwap));
    assert!(registry.kucoin_warm);
    let mut registry = ContractSpecRegistry::new();
    registry.warm_up("nowhere", Some(vec![spec("BTC/USDT", 1, 100)]));
    assert_eq!(Some(amount(1, 1000)), registry.get("kucoin", "BTC/USDT", MarketKind::LinearSwap));
    assert!(!registry.kucoin_warm);
}

#[test]
fn table_from_text() {
    let table = ContractTable::from_text("A/B 1\nC/D 0.5\n\nbad line\nE/F 0\nG/H x\nA/B 2\nI/J 3");
    assert_eq!(3, table.len());
    assert_eq!(Some(amount(2, 1)), table.get("A/B"));
    assert_eq!(Some(amount(5, 10)), table.get("C/D"));
    assert_eq!(Some(amount(3, 1)), table.get("I/J"));
    assert_eq!(None, table.get("E/F"));
    assert_eq!(None, table.get("G/H"));
    assert_eq!(None, table.get("bad"));
    assert_eq!(0, ContractTable::from_text("").len());
    assert_eq!(0, ContractTable::new().len());
}

#[test]
fn table_overlay() {
    let mut table = ContractTable::from_text("A/B 1\nC/D 2");
    table.overlay(&vec![spec("C/D", 3, 1), spec("E/F", 4, 1)]);
    assert_eq!(Some(amount(1, 1)), table.get("A/B"));
    assert_eq!(Some(amount(3, 1)), table.get("C/D"));
    assert_eq!(Some(amount(4, 1)), table.get("E/F"));
}

#[test]
fn kucoin_listing() {
    let market = |symbol: &str, multiplier: &str, is_inverse: bool| kucoin::SwapMarket {
        symbol: symbol.to_string(),
        multiplier: multiplier.to_string(),
        is_inverse,
    };
    let specs = kucoin::linear_multipliers(&vec![
        market("XBTUSDTM", "0.001", false),
        market("XBTUSDM", "-1", true),
        market("ETHUSDTM", "0.01", false),
    ])
    .unwrap();
    assert_eq!(2, specs.len());
    assert_eq!("BTC/USDT", specs[0].pair);
    assert_eq!(amount(1, 1000), specs[0].multiplier);
    assert_eq!("ETH/USDT", specs[1].pair);
    assert_eq!(amount(1, 100), specs[1].multiplier);
    assert!(kucoin::linear_multipliers(&vec![market("XBTUSDTM", "0", false)]).is_none());
    assert!(kucoin::linear_multipliers(&vec![market("XBTUSDTM", "abc", false)]).is_none());
    assert!(kucoin::linear_multipliers(&vec![market("XBTUSDT", "1", false)]).is_none());
    assert_eq!(0, kucoin::linear_multipliers(&Vec::new()).unwrap().len());
}

#[test]
fn mexc_listing() {
    let market = |symbol: &str, quote: &str, settle: &str, size: &str| mexc::SwapMarket {
        symbol: symbol.to_string(),
        base_coin: "BTC".to_string(),
        quote_coin: quote.to_string(),
        settle_coin: settle.to_string(),
        contract_size: size.to_string(),
    };
    let specs = mexc::linear_contract_sizes(&vec![
        market("BTC_USDT", "usdt", "usdt", "0.0001"),
        market("BTC_USD", "USD", "BTC", "100"),
    ])
    .unwrap();
    assert_eq!(1, specs.len());
    assert_eq!("BTC/USDT", specs[0].pair);
    assert_eq!(amount(1, 10000), specs[0].multiplier);
    // the pair is that of the symbol, whatever coins the listing names
    let specs = mexc::linear_contract_sizes(&vec![market("ETH_USDT", "X", "X", "0.01")]).unwrap();
    assert_eq!("ETH/USDT", specs[0].pair);
    assert!(mexc::linear_contract_sizes(&vec![market("ETHUSDT", "USDT", "USDT", "1")])
        .is_none());
    assert!(mexc::linear_contract_sizes(&vec![market("BTC_USDT", "USDT", "USDT", "0")])
        .is_none());
}

#[test]
fn zbg_listing() {
    let market = |symbol: &str, unit: &str| zbg::SwapMarket {
        symbol: symbol.to_string(),
        contract_unit: unit.to_string(),
    };
    let datas = vec![market("BTC_USDT", "0.01"), market("eth_usdt", "0.1")];
    assert_eq!(0, zbg::swap_markets("0", datas.clone()).len());
    let markets = zbg::swap_markets("1", datas);
    assert_eq!(2, markets.len());
    let specs = zbg::contract_val(&markets).unwrap();
    assert_eq!("ETH/USDT", specs[1].pair);
    assert_eq!(amount(1, 10), specs[1].multiplier);
    assert!(zbg::contract_val(&vec![market("BTC/USDT", "0")]).is_none());
    assert!(zbg::contract_val(&vec![market("BTCUSDT", "1")]).is_none());
    let mut registry = ContractSpecRegistry::new();
    registry.warm_up("zbg", Some(specs));
    assert_eq!(Some(amount(1, 100)), registry.get("zbg", "BTC/USDT", MarketKind::LinearSwap));
    let mut registry = ContractSpecRegistry::new();
    registry.warm_up("bitget", Some(vec![spec("ETH/USDT", 1, 100)]));
    assert_eq!(Some(amount(1, 100)), registry.get("bitget", "ETH/USDT", MarketKind::LinearSwap));
    assert!(registry.bitget_warm);
}

#[test]
fn listing_is_read_as_a_whole() {
    let listed = |pair: Option<&str>, multiplier: &str| Listed {
        pair: pair.map(|p| p.to_string()),
        multiplier: multiplier.to_string(),
    };
    let specs =
        contract_specs(&vec![listed(Some("BTC/USDT"), "0.001"), listed(Some("ETH/USDT"), "10")])
            .unwrap();
    assert_eq!("BTC/USDT", specs[0].pair);
    assert_eq!(amount(1, 1000), specs[0].multiplier);
    assert_eq!("ETH/USDT", specs[1].pair);
    assert_eq!(amount(10, 1), specs[1].multiplier);
    assert!(contract_specs(&vec![listed(Some("BTC/USDT"), "1"), listed(None, "1")]).is_none());
    assert!(contract_specs(&vec![listed(Some("BTC/USDT"), "one")]).is_none());
}
