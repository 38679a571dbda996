use crypto_normalizer::message::bitget;
use crypto_normalizer::message::json::{Field, Json};
use crypto_normalizer::message::mexc;
use crypto_normalizer::message::types::MessageType;
use serde_json::Value;

fn convert(value: &Value) -> Json {
    match value {
        Value::Null => Json::Null,
        Value::Bool(b) => Json::Bool(*b),
        Value::Number(n) => match n.as_i64() {
            Some(i) => Json::Integer(i),
            None => Json::Real(format!("{}", n.as_f64().unwrap())),
        },
        Value::String(s) => Json::Text(s.clone()),
        Value::Array(items) => Json::Array(items.iter().map(convert).collect()),
        Value::Object(fields) => Json::Object(
            fields
                .iter()
                .map(|(name, value)| Field { name: name.clone(), value: convert(value) })
                .collect(),
        ),
    }
}

fn json(text: &str) -> Json {
    convert(&serde_json::from_str::<Value>(text).unwrap())
}

#[test]
fn bitget_trade_spot_message() {
    let msg = json(r#"{"action":"update","arg":{"instType":"sp","channel":"trade","instId":"BTCUSDT"},"data":[["1653873778747","29443.24","0.4134","buy"]]}"#);
    assert_eq!(Ok("BTCUSDT_SPBL".to_string()), bitget::extract_symbol(&msg));
    assert_eq!(Ok(Some(1653873778747)), bitget::extract_timestamp(&msg));
    assert_eq!(MessageType::Trade, bitget::get_msg_type(&msg));
}

#[test]
fn bitget_trade_inverse_swap_message() {
    let msg = json(r#"{"action":"update","arg":{"instType":"mc","channel":"trade","instId":"BTCUSD"},"data":[["1653881896935","30285","0.024","buy"]]}"#);
    assert_eq!(Ok("BTCUSD_DMCBL".to_string()), bitget::extract_symbol(&msg));
    assert_eq!(Ok(Some(1653881896935)), bitget::extract_timestamp(&msg));
    assert_eq!(MessageType::Trade, bitget::get_msg_type(&msg));
}

#[test]
fn bitget_trade_linear_swap_message() {
    let msg = json(r#"{"action":"update","arg":{"instType":"mc","channel":"trade","instId":"BTCUSDT"},"data":[["1653882567817","30322.5","1.117","buy"],["1653882567817","30322","1.566","buy"]]}"#);
    assert_eq!(Ok("BTCUSDT_UMCBL".to_string()), bitget::extract_symbol(&msg));
    assert_eq!(Ok(Some(1653882567817)), bitget::extract_timestamp(&msg));
    assert_eq!(MessageType::Trade, bitget::get_msg_type(&msg));
}

#[test]
fn bitget_l2_event_spot_message() {
    let msg = json(r#"{"action":"update","arg":{"instType":"sp","channel":"books","instId":"BTCUSDT"},"data":[{"asks":[["30266.73","0.0109"],["30266.77","0.0117"],["30266.94","2.5135"]],"bids":[["30266.57","0.0119"],["30266.53","0.0130"],["30265.49","0.0140"] ],"checksum":1732241839,"ts":"1653885248245"}]}"#);
    assert_eq!(Ok("BTCUSDT_SPBL".to_string()), bitget::extract_symbol(&msg));
    assert_eq!(Ok(Some(1653885248245)), bitget::extract_timestamp(&msg));
    assert_eq!(MessageType::L2Event, bitget::get_msg_type(&msg));
}

#[test]
fn bitget_l2_event_inverse_swap_message() {
    let msg = json(r#"{"action":"update","arg":{"instType":"mc","channel":"books","instId":"BTCUSD"},"data":[{"asks":[["30693.5","0.073"],["30694.0","0.064"],["30695.0","18.601"]],"bids":[["30678.0","12.693"],["30675.5","0.091"],["30674.0","22.504"]],"checksum":1033568482,"ts":"1653935348839"}]}"#);
    assert_eq!(Ok("BTCUSD_DMCBL".to_string()), bitget::extract_symbol(&msg));
    assert_eq!(Ok(Some(1653935348839)), bitget::extract_timestamp(&msg));
    assert_eq!(MessageType::L2Event, bitget::get_msg_type(&msg));
}

#[test]
fn bitget_l2_event_linear_swap_message() {
    let msg = json(r#"{"action":"update","arg":{"instType":"mc","channel":"books","instId":"BTCUSDT"},"data":[{"asks":[["30677.5","17.098"],["30678.0","62.033"],["30679.0","5.129"]],"bids":[["30673.5","5.264"],["30673.0","18.938"],["30672.5","10.378"]],"checksum":-1093370704,"ts":"1653935972126"}]}"#);
    assert_eq!(Ok("BTCUSDT_UMCBL".to_string()), bitget::extract_symbol(&msg));
    assert_eq!(Ok(Some(1653935972126)), bitget::extract_timestamp(&msg));
    assert_eq!(MessageType::L2Event, bitget::get_msg_type(&msg));
}

#[test]
fn bitget_l2_topk_spot_message() {
    let msg = json(r#"{"action":"snapshot","arg":{"instType":"sp","channel":"books5","instId":"BTCUSDT"},"data":[{"asks":[["30682.29","0.0119"],["30682.33","0.0127"],["30682.37","0.0213"],["30682.41","0.0560"],["30682.45","0.1474"]],"bids":[["30682.15","0.0122"],["30682.11","0.0132"],["30682.07","0.0114"],["30682.03","0.0122"],["30681.99","0.0118"]],"ts":"1653936946292"}]}"#);
    assert_eq!(Ok("BTCUSDT_SPBL".to_string()), bitget::extract_symbol(&msg));
    assert_eq!(Ok(Some(1653936946292)), bitget::extract_timestamp(&msg));
    assert_eq!(MessageType::L2TopK, bitget::get_msg_type(&msg));
}

#[test]
fn bitget_l2_topk_inverse_swap_message() {
    let msg = json(r#"{"action":"snapshot","arg":{"instType":"mc","channel":"books5","instId":"BTCUSD"},"data":[{"asks":[["30669.0","0.763"],["30669.5","3.036"],["30670.0","0.103"],["30670.5","1.955"],["30671.5","9.537"]],"bids":[["30667.5","0.093"],["30667.0","25.104"],["30666.5","20.913"],["30666.0","20.223"],["30665.5","0.695"]],"ts":"1653937135034"}]}"#);
    assert_eq!(Ok("BTCUSD_DMCBL".to_string()), bitget::extract_symbol(&msg));
    assert_eq!(Ok(Some(1653937135034)), bitget::extract_timestamp(&msg));
    assert_eq!(MessageType::L2TopK, bitget::get_msg_type(&msg));
}

#[test]
fn bitget_l2_topk_linear_swap_message() {
    let msg = json(r#"{"action":"snapshot","arg":{"instType":"mc","channel":"books5","instId":"BTCUSDT"},"data":[{"asks":[["30678.0","0.500"],["30679.0","56.116"],["30679.5","7.024"],["30680.0","2.916"],["30680.5","3.098"]],"bids":[["30677.5","0.953"],["30677.0","4.152"],["30676.5","2.030"],["30676.0","24.110"],["30675.5","44.509"]],"ts":"1653937451315"}]}"#);
    assert_eq!(Ok("BTCUSDT_UMCBL".to_string()), bitget::extract_symbol(&msg));
    assert_eq!(Ok(Some(1653937451315)), bitget::extract_timestamp(&msg));
    assert_eq!(MessageType::L2TopK, bitget::get_msg_type(&msg));
}

#[test]
fn bitget_funding_rate_inverse_swap_message() {
    let msg = json(r#"{"data":[{"funding_rate":"0.000258514264","funding_time":"1617346800000","instrument_id":"btcusd"}],"table":"swap/funding_rate"}"#);
    assert_eq!(Ok("btcusd".to_string()), bitget::extract_symbol(&msg));
    assert_eq!(MessageType::FundingRate, bitget::get_msg_type(&msg));
}

#[test]
fn bitget_funding_rate_linear_swap_message() {
    let msg = json(r#"{"data":[{"funding_rate":"0.000106539854","funding_time":"1617346800000","instrument_id":"cmt_btcusdt"}],"table":"swap/funding_rate"}"#);
    assert_eq!(Ok("cmt_btcusdt".to_string()), bitget::extract_symbol(&msg));
    assert_eq!(MessageType::FundingRate, bitget::get_msg_type(&msg));
}

#[test]
fn bitget_candlestick_spot_snapshot_message() {
    let msg = json(r#"{"action":"snapshot","arg":{"instType":"sp","channel":"candle1m","instId":"BTCUSDT"},"data":[["1654017060000","32173.42","32173.42","32154.98","32154.98","6.7112"],["1654017120000","32154.98","32171.66","32154.83","32157.96","10.3505"]]}"#);
    assert_eq!(Ok("BTCUSDT_SPBL".to_string()), bitget::extract_symbol(&msg));
    assert_eq!(Ok(Some(1654017120000)), bitget::extract_timestamp(&msg));
    assert_eq!(MessageType::Candlestick, bitget::get_msg_type(&msg));
}

#[test]
fn bitget_candlestick_spot_update_message() {
    let msg = json(r#"{"action":"update","arg":{"instType":"sp","channel":"candle1m","instId":"BTCUSDT"},"data":[["1654077000000","31682.39","31683.63","31674.84","31676.58","20.3826"]]}"#);
    assert_eq!(Ok("BTCUSDT_SPBL".to_string()), bitget::extract_symbol(&msg));
    assert_eq!(Ok(Some(1654077000000)), bitget::extract_timestamp(&msg));
    assert_eq!(MessageType::Candlestick, bitget::get_msg_type(&msg));
}

#[test]
fn bitget_candlestick_inverse_swap_snapshot_message() {
    let msg = json(r#"{"action":"snapshot","arg":{"instType":"mc","channel":"candle1m","instId":"BTCUSD"},"data":[["1654017420000","31974","31992.5","31922","31935","9.197"],["1654017480000","31935","31988.5","31914.5","31938.5","7.004"]]}"#);
    assert_eq!(Ok("BTCUSD_DMCBL".to_string()), bitget::extract_symbol(&msg));
    assert_eq!(Ok(Some(1654017480000)), bitget::extract_timestamp(&msg));
    assert_eq!(MessageType::Candlestick, bitget::get_msg_type(&msg));
}

#[test]
fn bitget_candlestick_inverse_swap_update_message() {
    let msg = json(r#"{"action":"update","arg":{"instType":"mc","channel":"candle1m","instId":"BTCUSD"},"data":[["1654077360000","31652","31653.5","31651.5","31652","0.227"]]}"#);
    assert_eq!(Ok("BTCUSD_DMCBL".to_string()), bitget::extract_symbol(&msg));
    assert_eq!(Ok(Some(1654077360000)), bitget::extract_timestamp(&msg));
    assert_eq!(MessageType::Candlestick, bitget::get_msg_type(&msg));
}

#[test]
fn bitget_candlestick_linear_swap_snapshot_message() {
    let msg = json(r#"{"action":"snapshot","arg":{"instType":"mc","channel":"candle1m","instId":"BTCUSDT"},"data":[["1654017660000","31966.5","31966.5","31947","31952.5","111.769"],["1654017720000","31952.5","31974.5","31939","31940","109.557"]]}"#);
    assert_eq!(Ok("BTCUSDT_UMCBL".to_string()), bitget::extract_symbol(&msg));
    assert_eq!(Ok(Some(1654017720000)), bitget::extract_timestamp(&msg));
    assert_eq!(MessageType::Candlestick, bitget::get_msg_type(&msg));
}

#[test]
fn bitget_candlestick_linear_swap_update_message() {
    let msg = json(r#"{"action":"update","arg":{"instType":"mc","channel":"candle1m","instId":"BTCUSDT"},"data":[["1654077600000","31676.5","31676.5","31671","31671","5.639"]]}"#);
    assert_eq!(Ok("BTCUSDT_UMCBL".to_string()), bitget::extract_symbol(&msg));
    assert_eq!(Ok(Some(1654077600000)), bitget::extract_timestamp(&msg));
    assert_eq!(MessageType::Candlestick, bitget::get_msg_type(&msg));
}

#[test]
fn bitget_ticker_spot_message() {
    let msg = json(r#"{"action":"snapshot","arg":{"instType":"sp","channel":"ticker","instId":"BTCUSDT"},"data":[{"instId":"BTCUSDT","last":"29948.21","open24h":"30726.18","high24h":"30741.06","low24h":"29336.95","bestBid":"29944.390000","bestAsk":"29944.550000","baseVolume":"24658.6272","quoteVolume":"749224809.9118","ts":1654160360101,"labeId":0}]}"#);
    assert_eq!(Ok("BTCUSDT_SPBL".to_string()), bitget::extract_symbol(&msg));
    assert_eq!(Ok(Some(1654160360101)), bitget::extract_timestamp(&msg));
    assert_eq!(MessageType::Ticker, bitget::get_msg_type(&msg));
}

#[test]
fn bitget_ticker_inverse_swap_message() {
    let msg = json(r#"{"action":"snapshot","arg":{"instType":"mc","channel":"ticker","instId":"BTCUSD"},"data":[{"instId":"BTCUSD","last":"29898.50","bestAsk":"29899","bestBid":"29898","high24h":"30706.50","low24h":"29270.50","priceChangePercent":"-0.02","capitalRate":"0.000100","nextSettleTime":1654182000000,"systemTime":1654160828664,"markPrice":"29897.79","indexPrice":"29906.49","holding":"6166.235","baseVolume":"6601.040","quoteVolume":"201847558.263"}]}"#);
    assert_eq!(Ok("BTCUSD_DMCBL".to_string()), bitget::extract_symbol(&msg));
    assert_eq!(Ok(Some(1654160828664)), bitget::extract_timestamp(&msg));
    assert_eq!(MessageType::Ticker, bitget::get_msg_type(&msg));
}

#[test]
fn bitget_ticker_linear_swap_message() {
    let msg = json(r#"{"action":"snapshot","arg":{"instType":"mc","channel":"ticker","instId":"BTCUSDT"},"data":[{"instId":"BTCUSDT","last":"29905.50","bestAsk":"29905.5","bestBid":"29904.5","high24h":"30731.50","low24h":"29293.00","priceChangePercent":"-0.02","capitalRate":"0.000100","nextSettleTime":1654182000000,"systemTime":1654160847314,"markPrice":"29906.42","indexPrice":"29928.32","holding":"87338.493","baseVolume":"214176.417","quoteVolume":"6536325903.110"}]}"#);
    assert_eq!(Ok("BTCUSDT_UMCBL".to_string()), bitget::extract_symbol(&msg));
    assert_eq!(Ok(Some(1654160847314)), bitget::extract_timestamp(&msg));
    assert_eq!(MessageType::Ticker, bitget::get_msg_type(&msg));
}

#[test]
fn bitget_l2_snapshot_spot_message() {
    let msg = json(r#"{"code":"00000","msg":"success","requestTime":1677628818447,"data":{"asks":[["23141.01","0.0763"],["23141.16","0.1244"],["23141.4","0.0120"]],"bids":[["23139.91","0.7697"],["23139.76","1.2558"],["23139.56","0.0120"]],"timestamp":"1677628818450"}}"#);
    assert_eq!(Ok("NONE".to_string()), bitget::extract_symbol(&msg));
    assert_eq!(Ok(Some(1677628818450)), bitget::extract_timestamp(&msg));
    assert_eq!(MessageType::L2Snapshot, bitget::get_msg_type(&msg));
}

#[test]
fn bitget_l2_snapshot_inverse_swap_message() {
    let msg = json(r#"{"code":"00000","msg":"success","requestTime":0,"data":{"asks":[["23146","3.666"],["23146.5","5.562"],["2.315E+4","0.5"]],"bids":[["23145","0.107"],["23143","0.363"],["23141.5","0.518"]],"timestamp":"1677628802358"}}"#);
    assert_eq!(Ok("NONE".to_string()), bitget::extract_symbol(&msg));
    assert_eq!(Ok(Some(1677628802358)), bitget::extract_timestamp(&msg));
    assert_eq!(MessageType::L2Snapshot, bitget::get_msg_type(&msg));
}

#[test]
fn bitget_l2_snapshot_linear_swap_message() {
    let msg = json(r#"{"code":"00000","msg":"success","requestTime":0,"data":{"asks":[["23133.5","28.326"],["23134","3.027"],["23134.5","128.392"]],"bids":[["23133","16.282"],["23132.5","0.074"],["23132","0.039"]],"timestamp":"1677628852476"}}"#);
    assert_eq!(Ok("NONE".to_string()), bitget::extract_symbol(&msg));
    assert_eq!(Ok(Some(1677628852476)), bitget::extract_timestamp(&msg));
    assert_eq!(MessageType::L2Snapshot, bitget::get_msg_type(&msg));
}

#[test]
fn bitget_open_interest_inverse_swap_message() {
    let msg = json(r#"{"code":"00000","msg":"success","requestTime":1654337704617,"data":{"symbol":"BTCUSD_DMCBL","amount":"5030.748","timestamp":"1654337704617"}}"#);
    assert_eq!(Ok("BTCUSD_DMCBL".to_string()), bitget::extract_symbol(&msg));
    assert_eq!(Ok(Some(1654337704617)), bitget::extract_timestamp(&msg));
    assert_eq!(MessageType::L2Snapshot, bitget::get_msg_type(&msg));
}

#[test]
fn bitget_open_interest_linear_swap_message() {
    let msg = json(r#"{"code":"00000","msg":"success","requestTime":1654337723059,"data":{"symbol":"BTCUSDT_UMCBL","amount":"89481.932","timestamp":"1654337723059"}}"#);
    assert_eq!(Ok("BTCUSDT_UMCBL".to_string()), bitget::extract_symbol(&msg));
    assert_eq!(Ok(Some(1654337723059)), bitget::extract_timestamp(&msg));
    assert_eq!(MessageType::L2Snapshot, bitget::get_msg_type(&msg));
}

#[test]
fn bitget_trade_inverse_swap_2_message() {
    let msg = json(r#"{"data":[{"instrument_id":"btcusd","price":"58722.0","side":"sell","size":"158","timestamp":"1616236107276"},{"instrument_id":"btcusd","price":"58722.0","side":"sell","size":"450","timestamp":"1616236107276"},{"instrument_id":"btcusd","price":"58722.0","side":"sell","size":"762","timestamp":"1616236107276"}],"table":"swap/trade"}"#);
    assert_eq!(Ok("btcusd".to_string()), bitget::extract_symbol(&msg));
    assert_eq!(Ok(Some(1616236107276)), bitget::extract_timestamp(&msg));
    assert_eq!(MessageType::Trade, bitget::get_msg_type(&msg));
}

#[test]
fn bitget_trade_linear_swap_2_message() {
    let msg = json(r#"{"data":[{"instrument_id":"cmt_btcusdt","price":"58784.0","side":"sell","size":"1265","timestamp":"1616236212569"},{"instrument_id":"cmt_btcusdt","price":"58784.0","side":"sell","size":"25","timestamp":"1616236212569"},{"instrument_id":"cmt_btcusdt","price":"58784.0","side":"sell","size":"181","timestamp":"1616236212569"}],"table":"swap/trade"}"#);
    assert_eq!(Ok("cmt_btcusdt".to_string()), bitget::extract_symbol(&msg));
    assert_eq!(Ok(Some(1616236212569)), bitget::extract_timestamp(&msg));
    assert_eq!(MessageType::Trade, bitget::get_msg_type(&msg));
}

#[test]
fn bitget_funding_rate_inverse_swap_2_message() {
    let msg = json(r#"{"data":[{"funding_rate":"0.000258514264","funding_time":"1617346800000","instrument_id":"btcusd"}],"table":"swap/funding_rate"}"#);
    assert_eq!(Ok("btcusd".to_string()), bitget::extract_symbol(&msg));
    assert_eq!(MessageType::FundingRate, bitget::get_msg_type(&msg));
}

#[test]
fn bitget_funding_rate_linear_swap_2_message() {
    let msg = json(r#"{"data":[{"funding_rate":"0.000106539854","funding_time":"1617346800000","instrument_id":"cmt_btcusdt"}],"table":"swap/funding_rate"}"#);
    assert_eq!(Ok("cmt_btcusdt".to_string()), bitget::extract_symbol(&msg));
    assert_eq!(MessageType::FundingRate, bitget::get_msg_type(&msg));
}

#[test]
fn bitget_l2_orderbook_linear_swap_snapshot_message() {
    let msg = json(r#"{"action":"partial","data":[{"asks":[["34589.0","507"],["34589.5","958"],["34590.0","6751"],["34590.5","898"],["34591.0","1987"]],"bids":[["34588.0","1199"],["34587.0","1339"],["34586.5","506"],["34586.0","4018"],["34585.0","1259"]],"instrument_id":"cmt_btcusdt","timestamp":"1622432420458"}],"table":"swap/depth"}"#);
    assert_eq!(Ok("cmt_btcusdt".to_string()), bitget::extract_symbol(&msg));
    assert_eq!(Ok(Some(1622432420458)), bitget::extract_timestamp(&msg));
}

#[test]
fn bitget_l2_orderbook_linear_swap_update_message() {
    let msg = json(r#"{"action":"update","data":[{"asks":[["34523","510"]],"bids":[["34522","9079"],["34521.5","31174"]],"instrument_id":"cmt_btcusdt","timestamp":"1622434075797"}],"table":"swap/depth"}"#);
    assert_eq!(Ok("cmt_btcusdt".to_string()), bitget::extract_symbol(&msg));
    assert_eq!(Ok(Some(1622434075797)), bitget::extract_timestamp(&msg));
}

#[test]
fn bitget_l2_orderbook_inverse_swap_snapshot_message() {
    let msg = json(r#"{"action":"partial","data":[{"asks":[["34880.5","506"],["34881.0","4496"],["34881.5","73280"],["34882.0","84782"],["34882.5","135651"]],"bids":[["34879.0","14946"],["34878.5","24386"],["34878.0","10048"],["34877.5","161361"],["34877.0","61292"]],"instrument_id":"btcusd","timestamp":"1622426574770"}],"table":"swap/depth"}"#);
    assert_eq!(Ok("btcusd".to_string()), bitget::extract_symbol(&msg));
    assert_eq!(Ok(Some(1622426574770)), bitget::extract_timestamp(&msg));
}

#[test]
fn bitget_l2_orderbook_inverse_swap_update_message() {
    let msg = json(r#"{"action":"update","data":[{"asks":[["34641.5","101367"],["34642","25822"]],"bids":[["34637","510"]],"instrument_id":"btcusd","timestamp":"1622431636806"}],"table":"swap/depth"}"#);
    assert_eq!(Ok("btcusd".to_string()), bitget::extract_symbol(&msg));
    assert_eq!(Ok(Some(1622431636806)), bitget::extract_timestamp(&msg));
}

#[test]
fn bitget_l2_topk_linear_swap_2_message() {
    let msg = json(r#"{"data":[{"asks":[["371.18","307"],["371.19","171"],["371.20","111"],["371.21","454"],["371.22","414"]],"bids":[["370.87","1479"],["370.86","326"],["370.85","49"],["370.84","752"],["370.83","1415"]],"instrument_id":"cmt_bchusdt","timestamp":"1648785601210"}],"table":"swap/depth5"}"#);
    assert_eq!(Ok("cmt_bchusdt".to_string()), bitget::extract_symbol(&msg));
    assert_eq!(Ok(Some(1648785601210)), bitget::extract_timestamp(&msg));
    assert_eq!(MessageType::L2TopK, bitget::get_msg_type(&msg));
}

#[test]
fn bitget_candlestick_inverse_swap_message() {
    let msg = json(r#"{"data":{"candle":["1646092800000","43156.0","43157.5","43156.0","43157.5","1547","0.035845449809"],"instrument_id":"btcusd"},"table":"swap/candle60s"}"#);
    assert_eq!(Ok("btcusd".to_string()), bitget::extract_symbol(&msg));
    assert_eq!(Ok(Some(1646092800000)), bitget::extract_timestamp(&msg));
    assert_eq!(MessageType::Candlestick, bitget::get_msg_type(&msg));
}

#[test]
fn bitget_candlestick_linear_swap_message() {
    let msg = json(r#"{"data":{"candle":["1648801800000","45298.5","45298.5","45274.0","45274.0","1273","57633.802000000000"],"instrument_id":"cmt_btcusdt"},"table":"swap/candle60s"}"#);
    assert_eq!(Ok("cmt_btcusdt".to_string()), bitget::extract_symbol(&msg));
    assert_eq!(Ok(Some(1648801800000)), bitget::extract_timestamp(&msg));
    assert_eq!(MessageType::Candlestick, bitget::get_msg_type(&msg));
}

#[test]
fn mexc_trade_spot_message() {
    let msg = json(r#"{"symbol":"BTC_USDT","data":{"deals":[{"t":1646996447307,"p":"39008.35","q":"0.003533","T":2}]},"channel":"push.deal"}"#);
    assert_eq!(Ok("BTC_USDT".to_string()), mexc::extract_symbol(&msg));
    assert_eq!(Ok(Some(1646996447307)), mexc::extract_timestamp(&msg));
}

#[test]
fn mexc_trade_linear_swap_message() {
    let msg = json(r#"{"channel":"push.deal","data":{"M":1,"O":3,"T":2,"p":39766.5,"t":1646999591755,"v":32},"symbol":"BTC_USDT","ts":1646999591755}"#);
    assert_eq!(Ok("BTC_USDT".to_string()), mexc::extract_symbol(&msg));
    assert_eq!(Ok(Some(1646999591755)), mexc::extract_timestamp(&msg));
}

#[test]
fn mexc_trade_inverse_swap_message() {
    let msg = json(r#"{"channel":"push.deal","data":{"M":1,"O":3,"T":2,"p":39885.5,"t":1647000043904,"v":8},"symbol":"BTC_USD","ts":1647000043904}"#);
    assert_eq!(Ok("BTC_USD".to_string()), mexc::extract_symbol(&msg));
    assert_eq!(Ok(Some(1647000043904)), mexc::extract_timestamp(&msg));
}

#[test]
fn mexc_l2_event_spot_message() {
    let msg = json(r#"{"symbol":"BTC_USDT","data":{"version":"672257402","bids":[{"p":"39763.35","q":"0.054069","a":"2149.96457"}]},"channel":"push.depth"}"#);
    assert_eq!(Ok("BTC_USDT".to_string()), mexc::extract_symbol(&msg));
    assert_eq!(Ok(None), mexc::extract_timestamp(&msg));
}

#[test]
fn mexc_l2_event_linear_swap_update_message() {
    let msg = json(r#"{"channel":"push.depth","data":{"asks":[[39961,0,0],[39961.5,0,0]],"bids":[[39962.5,58272,1]],"version":4702740808},"symbol":"BTC_USDT","ts":1647000258746}"#);
    assert_eq!(Ok("BTC_USDT".to_string()), mexc::extract_symbol(&msg));
    assert_eq!(Ok(Some(1647000258746)), mexc::extract_timestamp(&msg));
}

#[test]
fn mexc_l2_event_inverse_swap_update_message() {
    let msg = json(r#"{"channel":"push.depth","data":{"asks":[],"bids":[[39944,943,1]],"version":2768205529},"symbol":"BTC_USD","ts":1647000870946}"#);
    assert_eq!(Ok("BTC_USD".to_string()), mexc::extract_symbol(&msg));
    assert_eq!(Ok(Some(1647000870946)), mexc::extract_timestamp(&msg));
}

#[test]
fn mexc_l2_topk_spot_message() {
    let msg = json(r#"{"channel":"push.limit.depth","symbol":"BTC_USDT","data":{"asks":[["31623.85","4.846968"],["31624.35","0.646284"],["31624.52","1.63524"],["31625.21","0.8769"],["31625.22","0.3"]],"bids":[["31623.82","0.179844"],["31623.8","0.001104"],["31623.79","0.052344"],["31623.75","1.397784"],["31623.69","0.002592"]]},"depth":5,"version":"1502380137"}"#);
    assert_eq!(Ok("BTC_USDT".to_string()), mexc::extract_symbol(&msg));
    assert_eq!(Ok(None), mexc::extract_timestamp(&msg));
}

#[test]
fn mexc_l2_topk_inverse_swap_message() {
    let msg = json(r#"{"channel":"push.depth.full","data":{"asks":[[31647.5,1029,1],[31648,378,1],[31648.5,357,1]],"bids":[[31647,154,1],[31646.5,1470,1],[31646,140,1]],"version":3087532764},"symbol":"BTC_USD","ts":1653994948112}"#);
    assert_eq!(Ok("BTC_USD".to_string()), mexc::extract_symbol(&msg));
    assert_eq!(Ok(Some(1653994948112)), mexc::extract_timestamp(&msg));
}

#[test]
fn mexc_l2_topk_linear_swap_message() {
    let msg = json(r#"{"channel":"push.depth.full","data":{"asks":[[31708.5,74950,2],[31709,8817,2],[31709.5,22296,2]],"bids":[[31708,3210,1],[31706,184756,2],[31705.5,10412,1]],"version":5194972869},"symbol":"BTC_USDT","ts":1653995843510}"#);
    assert_eq!(Ok("BTC_USDT".to_string()), mexc::extract_symbol(&msg));
    assert_eq!(Ok(Some(1653995843510)), mexc::extract_timestamp(&msg));
}

#[test]
fn mexc_trade_spot_2_message() {
    let msg = json(r#"["push.symbol",{"symbol":"BTC_USDT","data":{"deals":[{"t":1616373554541,"p":"57005.89","q":"0.007811","T":1}]}}]"#);
    assert_eq!(Ok("BTC_USDT".to_string()), mexc::extract_symbol(&msg));
    assert_eq!(Ok(Some(1616373554541)), mexc::extract_timestamp(&msg));
}

#[test]
fn mexc_trade_linear_swap_2_message() {
    let msg = json(r#"{"channel":"push.deal","data":{"M":1,"O":3,"T":2,"p":57602,"t":1616370338806,"v":14},"symbol":"BTC_USDT","ts":1616370338806}"#);
    assert_eq!(Ok("BTC_USDT".to_string()), mexc::extract_symbol(&msg));
    assert_eq!(Ok(Some(1616370338806)), mexc::extract_timestamp(&msg));
}

#[test]
fn mexc_trade_inverse_swap_2_message() {
    let msg = json(r#"{"channel":"push.deal","data":{"M":1,"O":3,"T":1,"p":57476.5,"t":1616370470356,"v":79},"symbol":"BTC_USD","ts":1616370470356}"#);
    assert_eq!(Ok("BTC_USD".to_string()), mexc::extract_symbol(&msg));
    assert_eq!(Ok(Some(1616370470356)), mexc::extract_timestamp(&msg));
}

#[test]
fn mexc_l2_event_spot_update_message() {
    let msg = json(r#"["push.symbol",{"symbol":"BTC_USDT","data":{"bids":[{"p":"38932.19","q":"0.049010","a":"1908.06663"},{"p":"38931.18","q":"0.038220","a":"1487.94969"}],"asks":[{"p":"38941.81","q":"0.000000","a":"0.00000000"},{"p":"38940.71","q":"0.000000","a":"0.00000000"}]}}]"#);
    assert_eq!(Ok("BTC_USDT".to_string()), mexc::extract_symbol(&msg));
    assert_eq!(Ok(None), mexc::extract_timestamp(&msg));
}

#[test]
fn mexc_l2_event_linear_swap_update_2_message() {
    let msg = json(r#"{"channel":"push.depth","data":{"asks":[[38704.5,138686,1]],"bids":[],"version":2427341830},"symbol":"BTC_USDT","ts":1622722473816}"#);
    assert_eq!(Ok("BTC_USDT".to_string()), mexc::extract_symbol(&msg));
    assert_eq!(Ok(Some(1622722473816)), mexc::extract_timestamp(&msg));
}

#[test]
fn mexc_l2_event_inverse_swap_update_2_message() {
    let msg = json(r#"{"channel":"push.depth","data":{"asks":[[38758.5,4172,2]],"bids":[],"version":1151578213},"symbol":"BTC_USD","ts":1622723010000}"#);
    assert_eq!(Ok("BTC_USD".to_string()), mexc::extract_symbol(&msg));
    assert_eq!(Ok(Some(1622723010000)), mexc::extract_timestamp(&msg));
}
