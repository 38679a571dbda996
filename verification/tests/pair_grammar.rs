use crypto_normalizer::exchanges::{bitget, bybit, deribit, kucoin, zb};
use crypto_normalizer::market::MarketKind;

#[test]
fn bitget_test_get_market_type() {
    assert_eq!(MarketKind::InverseFuture, bitget::get_market_type("BTCUSD_DMCBL_221230"));
    assert_eq!(MarketKind::LinearSwap, bitget::get_market_type("BTCPERP_CMCBL"));
}

#[test]
fn bitget_test_normalize_pair() {
    assert_eq!("BTC/USD", bitget::normalize_pair("BTCUSD_DMCBL_221230").unwrap());
    assert_eq!("BTC/USDC", bitget::normalize_pair("BTCPERP_CMCBL").unwrap());
}

#[test]
fn kucoin_test_get_market_type() {
    assert_eq!(MarketKind::Spot, kucoin::get_market_type("ETH2-ETH"));
    assert_eq!(MarketKind::LinearSwap, kucoin::get_market_type("XBTUSDTM"));
    assert_eq!(MarketKind::LinearSwap, kucoin::get_market_type("XBTUSDCM"));
}

#[test]
fn kucoin_test_normalize_pair() {
    assert_eq!("KSETH/ETH", kucoin::normalize_pair("ETH2-ETH").unwrap());
    assert_eq!("BTC/USDT", kucoin::normalize_pair("XBTUSDTM").unwrap());
    assert_eq!("BTC/USDC", kucoin::normalize_pair("XBTUSDCM").unwrap());
}

#[test]
fn zb_test_normalize_pair() {
    assert_eq!(Some("BTC/USDT".to_string()), zb::normalize_pair("btc_usdt"));
    assert_eq!(Some("BTC/USDT".to_string()), zb::normalize_pair("btcusdt"));
    assert_eq!(Some("BTC/USDT".to_string()), zb::normalize_pair("BTC_USDT"));
}

#[test]
fn bybit_pairs() {
    assert_eq!(Some("BTC/USDT".to_string()), bybit::normalize_pair("BTCUSDT"));
    assert_eq!(Some("BTC/USD".to_string()), bybit::normalize_pair("BTCUSD"));
    assert_eq!(Some("BTC/USD".to_string()), bybit::normalize_pair("BTCUSDZ22"));
    assert_eq!(None, bybit::normalize_pair("BTCEUR"));
    assert_eq!(None, bybit::normalize_pair("Z22"));
}

#[test]
fn deribit_pairs() {
    assert_eq!(Some("BTC/USD".to_string()), deribit::normalize_pair("BTC-PERPETUAL"));
    assert_eq!(Some("ETH/USD".to_string()), deribit::normalize_pair("ETH-30DEC22"));
    assert_eq!(Some("BTC/BTC".to_string()), deribit::normalize_pair("BTC-30DEC22-20000-C"));
    assert_eq!(None, deribit::normalize_pair("BTC"));
    assert_eq!(MarketKind::EuropeanOption, deribit::get_market_type("BTC-30DEC22-20000-P"));
    assert_eq!(MarketKind::InverseFuture, deribit::get_market_type("ETH-30DEC22"));
}
