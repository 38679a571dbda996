use crypto_normalizer::message::bitget;
use crypto_normalizer::message::bitget::{bitget_mix, bitget_swap};
use crypto_normalizer::message::json::{
    read_all, read_all_values, read_i64, texts_at, Field, Json, Reading,
};
use crypto_normalizer::message::mexc;
use crypto_normalizer::message::okex;
use crypto_normalizer::message::types::{MessageError, MessageType};
use crypto_normalizer::message::zb::{zb_spot, zb_swap};
use serde_json::Value;

fn convert(value: &Value) -> Json {
    match value {
        Value::Null => Json::Null,
        Value::Bool(b) => Json::Bool(*b),
        Value::Number(n) => match n.as_i64() {
            Some(i) => Json::Integer(i),
            None => Json::Real(format!("{}", n.as_f64().unwrap())),
        },
        Value::String(s) => Json::Text(s.clone()),
        Value::Array(items) => Json::Array(items.iter().map(convert).collect()),
        Value::Object(fields) => Json::Object(
            fields
                .iter()
                .map(|(name, value)| Field { name: name.clone(), value: convert(value) })
                .collect(),
        ),
    }
}

fn json(text: &str) -> Json {
    convert(&serde_json::from_str::<Value>(text).unwrap())
}

#[test]
fn json_fields() {
    let value = json(r#"{"a":"x","b":7,"c":[1,"2",3.5],"d":{"e":null},"f":true}"#);
    assert!(value.is_object());
    assert!(value.contains_key("a"));
    assert!(!value.contains_key("z"));
    assert_eq!(Some("x"), value.str_at("a"));
    assert_eq!(None, value.str_at("b"));
    assert_eq!(None, value.str_at("z"));
    assert_eq!(Some(7), value.i64_at("b"));
    assert_eq!(None, value.i64_at("a"));
    assert_eq!(3, value.array_at("c").unwrap().len());
    assert!(value.array_at("a").is_none());
    assert!(value.get("d").unwrap().contains_key("e"));
    assert!(value.get("d").unwrap().get("e").unwrap().as_str().is_none());
    assert!(value.get("a").unwrap().get("a").is_none());
    assert!(!value.get("c").unwrap().is_object());
    assert_eq!(None, value.get("f").unwrap().as_i64());
    let items = value.array_at("c").unwrap();
    assert_eq!(Some(1), items[0].as_i64());
    assert_eq!(Some("2"), items[1].as_str());
    assert_eq!(None, items[2].as_i64());
}

#[test]
fn json_first_field_of_a_name_counts() {
    let twice = Json::Object(vec![
        Field { name: "a".to_string(), value: Json::Integer(1) },
        Field { name: "a".to_string(), value: Json::Integer(2) },
    ]);
    assert_eq!(Some(1), twice.i64_at("a"));
}

#[test]
fn json_readings() {
    let item = json(r#"{"t":5,"n":"17","x":"abc"}"#);
    assert_eq!(Some(5), read_i64(&item, &Reading::Whole("t")));
    assert_eq!(None, read_i64(&item, &Reading::Whole("n")));
    assert_eq!(Some(17), read_i64(&item, &Reading::Number("n")));
    assert_eq!(None, read_i64(&item, &Reading::Number("x")));
    assert_eq!(None, read_i64(&item, &Reading::Number("t")));
    assert_eq!(None, read_i64(&item, &Reading::WholeAt(0)));
    let list = json(r#"[10,"11",12]"#);
    assert_eq!(Some(10), read_i64(&list, &Reading::WholeAt(0)));
    assert_eq!(None, read_i64(&list, &Reading::WholeAt(1)));
    assert_eq!(Some(12), read_i64(&list, &Reading::WholeAt(2)));
    assert_eq!(None, read_i64(&list, &Reading::WholeAt(3)));
    let items = vec![json(r#"{"t":3}"#), json(r#"{"t":9}"#), json(r#"{"t":4}"#)];
    assert_eq!(Some(vec![3, 9, 4]), read_all(&items, &Reading::Whole("t")));
    assert_eq!(None, read_all(&items, &Reading::Whole("u")));
    assert_eq!(Some(Vec::new()), read_all(&Vec::new(), &Reading::Whole("t")));
    let fields = vec![
        Field { name: "a".to_string(), value: json("[0,7]") },
        Field { name: "b".to_string(), value: json("[0,8]") },
    ];
    assert_eq!(Some(vec![7, 8]), read_all_values(&fields, &Reading::WholeAt(1)));
    assert_eq!(None, read_all_values(&fields, &Reading::WholeAt(2)));
    let named = vec![json(r#"{"id":"a"}"#), json(r#"{"id":"b"}"#)];
    assert_eq!(Some(vec!["a".to_string(), "b".to_string()]), texts_at(&named, "id"));
    assert_eq!(None, texts_at(&named, "name"));
}

#[test]
fn bitget_shapes() {
    assert_eq!(Err(MessageError::BadShape), bitget::extract_symbol(&json("[1,2]")));
    assert_eq!(Err(MessageError::BadShape), bitget::extract_timestamp(&json("7")));
    assert_eq!(MessageType::Other, bitget::get_msg_type(&json("[1,2]")));
    assert_eq!(Err(MessageError::NoData), bitget::extract_symbol(&json(r#"{"table":"swap/trade"}"#)));
    assert_eq!(Err(MessageError::NoData), bitget::extract_timestamp(&json(r#"{"arg":{}}"#)));
    assert_eq!(
        Err(MessageError::UnknownFormat),
        bitget::extract_symbol(&json(r#"{"data":{},"code":"00000"}"#))
    );
    assert_eq!(
        Ok(None),
        bitget::extract_timestamp(&json(r#"{"data":{},"code":"00000"}"#))
    );
    assert_eq!(
        Err(MessageError::UnknownFormat),
        bitget::extract_timestamp(&json(r#"{"data":{},"msg":"success"}"#))
    );
    assert_eq!(
        Err(MessageError::FailedResponse),
        bitget::extract_symbol(&json(r#"{"data":{"symbol":"X"},"code":"40034","msg":"no"}"#))
    );
    assert_eq!(
        Err(MessageError::FailedResponse),
        bitget::extract_timestamp(&json(r#"{"data":{"timestamp":"1"},"code":"40034"}"#))
    );
    assert_eq!(
        Ok("NONE".to_string()),
        bitget::extract_symbol(&json(r#"{"data":[],"code":"00000","msg":"success"}"#))
    );
    assert_eq!(
        Err(MessageError::BadField),
        bitget::extract_symbol(&json(r#"{"data":{"symbol":7},"code":"00000","msg":"success"}"#))
    );
    assert_eq!(
        Err(MessageError::BadField),
        bitget::extract_symbol(&json(r#"{"data":{},"code":0,"msg":"success"}"#))
    );
    assert_eq!(
        Err(MessageError::BadField),
        bitget::extract_timestamp(&json(r#"{"data":{"timestamp":"soon"},"code":"00000"}"#))
    );
    assert_eq!(
        MessageType::L2Snapshot,
        bitget::get_msg_type(&json(r#"{"data":{},"code":"00000","msg":"success"}"#))
    );
}

#[test]
fn bitget_stream_shapes() {
    let no_action = json(r#"{"arg":{"instType":"sp","channel":"trade","instId":"BTCUSDT"},"data":[]}"#);
    assert_eq!(Err(MessageError::BadShape), bitget_mix::extract_symbol(&no_action));
    assert_eq!(Err(MessageError::BadShape), bitget_mix::extract_timestamp(&no_action));
    let other = json(r#"{"action":"update","arg":{"instType":"xx","channel":"trade","instId":"BTCUSDT"},"data":[]}"#);
    assert_eq!(Err(MessageError::UnknownInstType), bitget::extract_symbol(&other));
    assert_eq!(Ok(None), bitget::extract_timestamp(&other));
    let times = json(r#"{"action":"update","arg":{"instType":"mc","channel":"ticker","instId":"BTCUSD"},"data":[{"ts":5},{"systemTime":"9"},["7","x"],{"ts":"6","systemTime":100}]}"#);
    assert_eq!(Ok(Some(9)), bitget::extract_timestamp(&times));
    assert_eq!(Ok("BTCUSD_DMCBL".to_string()), bitget::extract_symbol(&times));
    assert_eq!(MessageType::Ticker, bitget::get_msg_type(&times));
    for bad in [r#"[{"time":5}]"#, r#"[[]]"#, r#"[{"ts":1.5}]"#, r#"[7]"#, r#"[{"ts":"x"}]"#] {
        let text = format!(
            r#"{{"action":"update","arg":{{"instType":"mc","channel":"ticker","instId":"BTCUSD"}},"data":{}}}"#,
            bad
        );
        assert_eq!(Err(MessageError::BadField), bitget::extract_timestamp(&json(&text)));
    }
    let odd = json(r#"{"action":"update","arg":{"instType":"mc","channel":7,"instId":"BTCUSD"},"data":[]}"#);
    assert_eq!(MessageType::Other, bitget::get_msg_type(&odd));
}

#[test]
fn bitget_table_shapes() {
    let no_table = json(r#"{"data":[],"table":7}"#);
    assert_eq!(Err(MessageError::BadShape), bitget_swap::extract_symbol(&no_table));
    assert_eq!(Err(MessageError::BadShape), bitget_swap::extract_timestamp(&no_table));
    assert_eq!(MessageType::Other, bitget_swap::get_msg_type(&no_table));
    let bad_action = json(r#"{"data":[],"table":"swap/trade","action":7}"#);
    assert_eq!(Err(MessageError::BadShape), bitget::extract_symbol(&bad_action));
    let empty = json(r#"{"data":[],"table":"swap/trade","action":null}"#);
    assert_eq!(Err(MessageError::EmptyData), bitget::extract_symbol(&empty));
    assert_eq!(Err(MessageError::EmptyData), bitget::extract_timestamp(&empty));
    assert_eq!(MessageType::Trade, bitget::get_msg_type(&empty));
    let unnamed = json(r#"{"data":[{"instrument_id":"btcusd"},{"price":"1"}],"table":"swap/trade"}"#);
    assert_eq!(Err(MessageError::BadField), bitget::extract_symbol(&unnamed));
    assert_eq!(Err(MessageError::BadField), bitget::extract_timestamp(&unnamed));
    let single = json(r#"{"data":{"candle":["1646092800000"],"instrument_id":"btcusd"},"table":"swap/candle60s"}"#);
    assert_eq!(Ok("btcusd".to_string()), bitget::extract_symbol(&single));
    assert_eq!(Ok(Some(1646092800000)), bitget::extract_timestamp(&single));
    assert_eq!(MessageType::Candlestick, bitget::get_msg_type(&single));
    let no_candle = json(r#"{"data":{"candle":[],"instrument_id":"btcusd"},"table":"swap/candle60s"}"#);
    assert_eq!(Err(MessageError::BadField), bitget::extract_timestamp(&no_candle));
    let object = json(r#"{"data":{"funding_rate":"0.1"},"table":"swap/funding_rate"}"#);
    assert_eq!(Err(MessageError::UnknownFormat), bitget::extract_symbol(&object));
    assert_eq!(Err(MessageError::BadField), bitget::extract_timestamp(&object));
    let text = json(r#"{"data":"x","table":"swap/trade"}"#);
    assert_eq!(Err(MessageError::UnknownFormat), bitget::extract_symbol(&text));
}

#[test]
fn mexc_shapes() {
    assert_eq!(Err(MessageError::UnknownFormat), mexc::extract_symbol(&json("7")));
    assert_eq!(Err(MessageError::UnknownFormat), mexc::extract_timestamp(&json("\"x\"")));
    assert_eq!(Err(MessageError::BadField), mexc::extract_symbol(&json(r#"["push.symbol"]"#)));
    assert_eq!(Err(MessageError::BadField), mexc::extract_symbol(&json(r#"["push.symbol",{"data":{}}]"#)));
    assert_eq!(Err(MessageError::BadField), mexc::extract_timestamp(&json("[]")));
    assert_eq!(Err(MessageError::BadField), mexc::extract_timestamp(&json(r#"[7,{}]"#)));
    assert_eq!(Err(MessageError::BadField), mexc::extract_timestamp(&json(r#"["push.symbol"]"#)));
    assert_eq!(
        Err(MessageError::UnknownChannel),
        mexc::extract_timestamp(&json(r#"["push.other",{"data":{}}]"#))
    );
    assert_eq!(
        Err(MessageError::EmptyData),
        mexc::extract_timestamp(&json(r#"["push.symbol",{"data":{"deals":[]}}]"#))
    );
    assert_eq!(
        Ok(Some(1616373554000)),
        mexc::extract_timestamp(&json(r#"["push.kline",{"data":{"t":1616373554}}]"#))
    );
    assert_eq!(
        Err(MessageError::BadField),
        mexc::extract_timestamp(&json(r#"["push.kline",{"data":{"t":9223372036854775807}}]"#))
    );
    assert_eq!(
        Err(MessageError::UnknownFormat),
        mexc::extract_symbol(&json(r#"{"channel":"push.deal"}"#))
    );
    assert_eq!(
        Ok("NONE".to_string()),
        mexc::extract_symbol(&json(r#"{"code":200,"data":{"asks":[]}}"#))
    );
    assert_eq!(
        Ok("BTC_USDT".to_string()),
        mexc::extract_symbol(&json(r#"{"code":0,"data":{"symbol":"BTC_USDT"}}"#))
    );
    assert_eq!(
        Err(MessageError::FailedResponse),
        mexc::extract_symbol(&json(r#"{"code":500,"data":{"symbol":"BTC_USDT"}}"#))
    );
    assert_eq!(
        Err(MessageError::BadField),
        mexc::extract_symbol(&json(r#"{"code":"0","data":{"symbol":"BTC_USDT"}}"#))
    );
    assert_eq!(
        Err(MessageError::BadField),
        mexc::extract_symbol(&json(r#"{"code":0,"data":[]}"#))
    );
    assert_eq!(
        Ok(Some(1653995843510)),
        mexc::extract_timestamp(&json(r#"{"code":200,"data":{"timestamp":1653995843510}}"#))
    );
    assert_eq!(Ok(None), mexc::extract_timestamp(&json(r#"{"code":200,"data":{}}"#)));
    assert_eq!(
        Err(MessageError::FailedResponse),
        mexc::extract_timestamp(&json(r#"{"code":1,"data":{}}"#))
    );
    assert_eq!(
        Ok(Some(1654000000123)),
        mexc::extract_timestamp(&json(r#"{"channel":"push.kline","data":{"tdt":1654000000123,"t":1}}"#))
    );
    assert_eq!(
        Ok(Some(1654000000000)),
        mexc::extract_timestamp(&json(r#"{"channel":"push.kline","data":{"t":1654000000}}"#))
    );
    assert_eq!(
        Err(MessageError::BadField),
        mexc::extract_timestamp(&json(r#"{"channel":"push.kline"}"#))
    );
    assert_eq!(
        Err(MessageError::BadField),
        mexc::extract_timestamp(&json(r#"{"data":{},"symbol":"BTC_USDT"}"#))
    );
    assert_eq!(
        Err(MessageError::BadField),
        mexc::extract_timestamp(&json(r#"{"channel":"push.deal","ts":"now"}"#))
    );
}

#[test]
fn okex_messages() {
    let trade = json(r#"{"table":"spot/trade","data":[{"instrument_id":"BTC-USDT","price":"58722.0","side":"sell","size":"0.001","timestamp":"2021-03-20T10:28:27.276Z","trade_id":"1"},{"instrument_id":"BTC-USDT","price":"58722.1","side":"buy","size":"0.002","timestamp":"2021-03-20T10:28:27.280Z","trade_id":"2"}]}"#);
    assert_eq!(Ok("BTC-USDT".to_string()), okex::extract_symbol(&trade));
    assert_eq!(Ok(Some(1616236107280)), okex::extract_timestamp(&trade));
    assert_eq!(MessageType::Trade, okex::get_msg_type(&trade));
    let book = json(r#"{"table":"swap/depth_l2_tbt","action":"partial","data":[{"instrument_id":"BTC-USD-SWAP","asks":[],"bids":[],"timestamp":"2021-03-20T10:28:27.276Z"}]}"#);
    assert_eq!(Ok("BTC-USD-SWAP".to_string()), okex::extract_symbol(&book));
    assert_eq!(Ok(Some(1616236107276)), okex::extract_timestamp(&book));
    assert_eq!(MessageType::L2Event, okex::get_msg_type(&book));
    for (table, expected) in [
        ("futures/depth5", MessageType::L2TopK),
        ("spot/ticker", MessageType::BBO),
        ("spot/candle", MessageType::Candlestick),
        ("spot/candle60s", MessageType::Other),
        ("swap/funding_rate", MessageType::FundingRate),
        ("swap/mark_price", MessageType::Other),
        ("swap", MessageType::Other),
    ] {
        let text = format!(r#"{{"table":"{}","data":[]}}"#, table);
        assert_eq!(expected, okex::get_msg_type(&json(&text)));
    }
}

#[test]
fn okex_shapes() {
    let empty = json(r#"{"table":"spot/trade","data":[]}"#);
    assert_eq!(Err(MessageError::EmptyData), okex::extract_symbol(&empty));
    assert_eq!(Err(MessageError::EmptyData), okex::extract_timestamp(&empty));
    let no_data = json(r#"{"table":"spot/trade","data":{}}"#);
    assert_eq!(Err(MessageError::BadShape), okex::extract_symbol(&no_data));
    assert_eq!(Err(MessageError::BadShape), okex::extract_timestamp(&no_data));
    assert_eq!(MessageType::Other, okex::get_msg_type(&no_data));
    assert_eq!(MessageType::Other, okex::get_msg_type(&json(r#"{"event":"subscribe"}"#)));
    let bad_action = json(r#"{"table":"spot/trade","data":[],"action":1}"#);
    assert_eq!(Err(MessageError::BadShape), okex::extract_symbol(&bad_action));
    let unnamed = json(r#"{"table":"spot/trade","data":[{"timestamp":"1616236107276"}]}"#);
    assert_eq!(Err(MessageError::BadField), okex::extract_symbol(&unnamed));
    assert_eq!(Err(MessageError::BadField), okex::extract_timestamp(&unnamed));
    let untimed = json(r#"{"table":"spot/trade","data":[{"instrument_id":"BTC-USDT"}]}"#);
    assert_eq!(Ok("BTC-USDT".to_string()), okex::extract_symbol(&untimed));
    assert_eq!(Err(MessageError::BadField), okex::extract_timestamp(&untimed));
}

#[test]
fn zb_spot_times() {
    let trades = json(r#"{"dataType":"trades","channel":"btcusdt_trades","data":[{"date":1653884840,"amount":"0.01","price":"30000","trade_type":"bid","type":"buy","tid":1},{"date":1653884842,"amount":"0.01","price":"30000","trade_type":"ask","type":"sell","tid":2}]}"#);
    assert_eq!(Ok(Some(1653884842000)), zb_spot::extract_timestamp(&trades));
    let depth = json(r#"{"channel":"btcusdt_depth","dataType":"depth","timestamp":1653884840,"asks":[],"bids":[]}"#);
    assert_eq!(Ok(Some(1653884840000)), zb_spot::extract_timestamp(&depth));
    let depth = json(r#"{"channel":"btcusdt_depth","dataType":"depth"}"#);
    assert_eq!(Ok(None), zb_spot::extract_timestamp(&depth));
    let ticker = json(r#"{"channel":"btcusdt_ticker","date":"1653884840123","ticker":{}}"#);
    assert_eq!(Ok(Some(1653884840123)), zb_spot::extract_timestamp(&ticker));
    let kline = json(r#"{"channel":"btcusdt_kline_1min","datas":{"data":[[1653884820000,1,2,3,4,5],[1653884880000,1,2,3,4,5]]},"isSuc":true}"#);
    assert_eq!(Ok(Some(1653884880000)), zb_spot::extract_timestamp(&kline));
    let rest = json(r#"{"asks":[],"bids":[],"timestamp":1653884840}"#);
    assert_eq!(Ok(Some(1653884840000)), zb_spot::extract_timestamp(&rest));
    assert_eq!(Ok(None), zb_spot::extract_timestamp(&json(r#"{"asks":[]}"#)));
}

#[test]
fn zb_spot_shapes() {
    assert_eq!(Err(MessageError::BadShape), zb_spot::extract_timestamp(&json("[]")));
    assert_eq!(
        Err(MessageError::BadField),
        zb_spot::extract_timestamp(&json(r#"{"channel":7}"#))
    );
    assert_eq!(
        Err(MessageError::BadField),
        zb_spot::extract_timestamp(&json(r#"{"channel":"btcusdt"}"#))
    );
    assert_eq!(
        Err(MessageError::UnknownChannel),
        zb_spot::extract_timestamp(&json(r#"{"channel":"btcusdt_other"}"#))
    );
    assert_eq!(
        Err(MessageError::EmptyData),
        zb_spot::extract_timestamp(&json(r#"{"channel":"btcusdt_trades","data":[]}"#))
    );
    assert_eq!(
        Err(MessageError::BadField),
        zb_spot::extract_timestamp(&json(r#"{"channel":"btcusdt_trades"}"#))
    );
    assert_eq!(
        Err(MessageError::EmptyData),
        zb_spot::extract_timestamp(&json(r#"{"channel":"btcusdt_kline_1min","datas":{"data":[]}}"#))
    );
    assert_eq!(
        Err(MessageError::BadField),
        zb_spot::extract_timestamp(&json(r#"{"channel":"btcusdt_kline_1min","datas":{}}"#))
    );
    assert_eq!(
        Err(MessageError::BadField),
        zb_spot::extract_timestamp(&json(r#"{"channel":"btcusdt_ticker","date":1653884840123}"#))
    );
    assert_eq!(
        Err(MessageError::BadField),
        zb_spot::extract_timestamp(&json(r#"{"timestamp":"1653884840"}"#))
    );
}

#[test]
fn zb_swap_times() {
    let trade = json(r#"{"channel":"BTC_USDT.Trade","data":[[30000.5,0.1,1,1653884840],[30000.5,0.1,-1,1653884845]]}"#);
    assert_eq!(Ok(Some(1653884845000)), zb_swap::extract_timestamp(&trade));
    let depth = json(r#"{"channel":"BTC_USDT.Depth","data":{"time":"1653884840123","asks":[]}}"#);
    assert_eq!(Ok(Some(1653884840123)), zb_swap::extract_timestamp(&depth));
    let whole = json(r#"{"channel":"BTC_USDT.DepthWhole","data":{"asks":[]}}"#);
    assert_eq!(Ok(None), zb_swap::extract_timestamp(&whole));
    let ticker = json(r#"{"channel":"BTC_USDT.Ticker","data":[1,2,3,4,5,6,1653884840]}"#);
    assert_eq!(Ok(Some(1653884840000)), zb_swap::extract_timestamp(&ticker));
    let all = json(r#"{"channel":"All.Ticker","data":{"BTC_USDT":[1,2,3,4,5,6,1653884840],"ETH_USDT":[1,2,3,4,5,6,1653884850]}}"#);
    assert_eq!(Ok(Some(1653884850000)), zb_swap::extract_timestamp(&all));
    let kline = json(r#"{"channel":"BTC_USDT.KLine_1M","data":[[1,2,3,4,5,1653884820],[1,2,3,4,5,1653884880]]}"#);
    assert_eq!(Ok(Some(1653884880000)), zb_swap::extract_timestamp(&kline));
    let rest = json(r#"{"code":10000,"desc":"ok","data":{"time":1653884840123}}"#);
    assert_eq!(Ok(Some(1653884840123)), zb_swap::extract_timestamp(&rest));
    let rest = json(r#"{"code":10000,"desc":"ok","data":{}}"#);
    assert_eq!(Ok(None), zb_swap::extract_timestamp(&rest));
}

#[test]
fn zb_swap_shapes() {
    assert_eq!(Err(MessageError::BadShape), zb_swap::extract_timestamp(&json("7")));
    assert_eq!(
        Err(MessageError::UnknownFormat),
        zb_swap::extract_timestamp(&json(r#"{"code":10000,"data":{}}"#))
    );
    assert_eq!(
        Err(MessageError::BadField),
        zb_swap::extract_timestamp(&json(r#"{"channel":"BTC_USDT"}"#))
    );
    assert_eq!(
        Err(MessageError::UnknownChannel),
        zb_swap::extract_timestamp(&json(r#"{"channel":"BTC_USDT.Other"}"#))
    );
    assert_eq!(
        Err(MessageError::EmptyData),
        zb_swap::extract_timestamp(&json(r#"{"channel":"BTC_USDT.Trade","data":[]}"#))
    );
    assert_eq!(
        Err(MessageError::BadField),
        zb_swap::extract_timestamp(&json(r#"{"channel":"BTC_USDT.Trade","data":[[1,2,3]]}"#))
    );
    assert_eq!(
        Err(MessageError::BadField),
        zb_swap::extract_timestamp(&json(r#"{"channel":"BTC_USDT.Depth"}"#))
    );
    assert_eq!(
        Err(MessageError::BadField),
        zb_swap::extract_timestamp(&json(r#"{"channel":"BTC_USDT.Depth","data":{"time":1}}"#))
    );
    assert_eq!(
        Err(MessageError::BadField),
        zb_swap::extract_timestamp(&json(r#"{"channel":"BTC_USDT.Ticker","data":[1,2,3]}"#))
    );
    assert_eq!(
        Err(MessageError::EmptyData),
        zb_swap::extract_timestamp(&json(r#"{"channel":"All.Ticker","data":{}}"#))
    );
    assert_eq!(
        Err(MessageError::BadField),
        zb_swap::extract_timestamp(&json(r#"{"channel":"All.Ticker","data":[]}"#))
    );
    assert_eq!(
        Err(MessageError::BadField),
        zb_swap::extract_timestamp(&json(r#"{"code":10000,"desc":"ok","data":{"time":"1"}}"#))
    );
}
