use polygon::{
    Bar, ContractStyle, ContractType, CurrencyConversion, Details, ErrorCode, GroupedBars, Json,
    JsonObject, Number, Parse, Quotes, SimpleMovingAverage, Trades,
};

fn object(members: Vec<(&str, Json)>) -> JsonObject {
    let mut obj = JsonObject::new();
    for (key, value) in members {
        obj.insert(key, value);
    }
    obj
}

fn text(s: &str) -> Json {
    Json::Str(String::from(s))
}

fn whole_number(v: i64) -> Json {
    Json::Number(Number::integer(v))
}

fn fraction(s: &str) -> Json {
    Json::Number(Number::other(s))
}

fn value_of(n: &Number) -> f64 {
    n.text.parse::<f64>().unwrap()
}

#[test]
fn test_details_parse() {
    let data = object(vec![
        ("contract_type", text("Call")),
        ("contract_style", text("American")),
        ("expiration_date", text("2023-03-03")),
        ("shares_per_contract", whole_number(100)),
        ("strike_price", fraction("10.0")),
        ("ticker", text("TEST")),
    ]);
    let details = Details::parse(&data);
    assert_eq!(details.contract_type.unwrap(), ContractType::Call);
    assert_eq!(details.contract_style.unwrap(), ContractStyle::American);
    assert_eq!(details.expiration_date.unwrap(), "2023-03-03");
    assert_eq!(details.shares_per_contract.unwrap(), 100);
    assert_eq!(value_of(&details.strike_price.unwrap()), 10.0);
    assert_eq!(details.ticker.unwrap(), "TEST");
}

#[test]
fn test_currency_conversion_parse() {
    let data = object(vec![
        ("to", text("USD")),
        ("from", text("EUR")),
        ("initialAmount", fraction("100.0")),
        ("converted", fraction("108.35")),
        (
            "last",
            Json::Object(object(vec![
                ("ask", fraction("1.0835")),
                ("bid", fraction("1.0834")),
                ("exchange", whole_number(48)),
                ("timestamp", whole_number(1678886401000)),
            ])),
        ),
        ("symbol", text("C:EURUSD")),
        ("status", text("OK")),
        ("request_id", text("req12345")),
    ]);
    let currency_conversion = CurrencyConversion::parse(&data);
    assert_eq!(currency_conversion.to.unwrap(), "USD");
    assert_eq!(currency_conversion.from.unwrap(), "EUR");
    assert_eq!(value_of(&currency_conversion.initial_amount.unwrap()), 100.00);
    assert_eq!(value_of(&currency_conversion.converted.unwrap()), 108.35);
    assert_eq!(value_of(&currency_conversion.quote.unwrap().ask.unwrap()), 1.0835);
    assert_eq!(currency_conversion.symbol.unwrap(), "C:EURUSD");
    assert_eq!(currency_conversion.status.unwrap(), "OK");
    assert_eq!(currency_conversion.request_id.unwrap(), "req12345");
}

const SMA_NEXT: &str = "https://api.polygon.io/v1/indicators/sma/AAPL?cursor=YWN0aXZlPXRydWUmZGF0ZT0yMDIzLTA0LTAxJmxpbWl0PTEmb3JkZXI9YXNjJnBhZ2VfbWFya2VyPUElMjBWU1MjQyMCU3QzIwMjMtMDQtMDElN0M5JTNBNDElN0MwMCUzQTAwJnNvcnQ9dGlja2Vy";

#[test]
fn test_simple_moving_average_parse() {
    let bar = object(vec![
        ("c", fraction("1.23")),
        ("h", fraction("2.34")),
        ("l", fraction("0.12")),
        ("n", whole_number(123)),
        ("o", fraction("0.12")),
        ("t", whole_number(164545545)),
        ("v", fraction("456.78")),
        ("vw", fraction("901.23")),
    ]);
    let value = object(vec![("timestamp", whole_number(164545545)), ("value", fraction("1.23"))]);
    let results = object(vec![
        ("aggregates", Json::Array(vec![Json::Object(bar)])),
        ("values", Json::Array(vec![Json::Object(value)])),
        ("next_url", text(SMA_NEXT)),
    ]);
    let data = object(vec![
        ("next_url", text(SMA_NEXT)),
        ("request_id", text("req12345")),
        ("status", text("OK")),
        ("results", Json::Object(results)),
    ]);
    let simple_moving_average = SimpleMovingAverage::parse(&data);
    assert_eq!(simple_moving_average.next_url.unwrap(), SMA_NEXT);
    assert_eq!(simple_moving_average.request_id.unwrap(), "req12345");
    assert_eq!(simple_moving_average.status.unwrap(), "OK");
    assert_eq!(value_of(simple_moving_average.bars.unwrap()[0].close.as_ref().unwrap()), 1.23);
    assert_eq!(simple_moving_average.moving_average.unwrap()[0].timestamp.unwrap(), 164545545);
    assert_eq!(simple_moving_average.bars_url.unwrap(), SMA_NEXT);
}

#[test]
fn grouped_bars_without_bars() {
    let data = object(vec![("adjusted", Json::Bool(true)), ("resultsCount", whole_number(3))]);
    let grouped = GroupedBars::parse(&data);
    assert_eq!(grouped.adjusted, Some(true));
    assert!(grouped.bars.is_none());
    assert_eq!(grouped.results_count, Some(3));
    assert!(grouped.status.is_none());
    assert!(grouped.query_count.is_none());
}

#[test]
fn mistyped_members_read_as_absent() {
    let data = object(vec![
        ("adjusted", text("yes")),
        ("resultsCount", fraction("3.5")),
        ("status", whole_number(1)),
        ("bars", Json::Null),
    ]);
    let grouped = GroupedBars::parse(&data);
    assert!(grouped.adjusted.is_none());
    assert!(grouped.results_count.is_none());
    assert!(grouped.status.is_none());
    assert!(grouped.bars.is_none());
}

#[test]
fn array_elements_that_are_not_objects_are_skipped() {
    let first = object(vec![("T", text("AAPL")), ("c", fraction("1.5"))]);
    let second = object(vec![("T", text("MSFT"))]);
    let data = object(vec![(
        "results",
        Json::Array(vec![Json::Object(first), whole_number(7), Json::Null, Json::Object(second)]),
    )]);
    let grouped = GroupedBars::parse(&data);
    let bars = grouped.bars.unwrap();
    assert_eq!(bars.len(), 2);
    assert_eq!(bars[0].ticker.as_deref(), Some("AAPL"));
    assert_eq!(bars[1].ticker.as_deref(), Some("MSFT"));
    assert!(bars[1].close.is_none());
}

#[test]
fn candidate_keys_tried_in_order() {
    let quote = object(vec![("ask_price", fraction("2.5")), ("ask", text("n/a")), ("sip_timestamp", whole_number(9))]);
    let parsed = polygon::Quote::parse(&quote);
    assert_eq!(parsed.ask.unwrap().text, "2.5");
    assert_eq!(parsed.timestamp, Some(9));
    let quote = object(vec![("ask_price", fraction("2.5")), ("ask", fraction("2.25"))]);
    assert_eq!(polygon::Quote::parse(&quote).ask.unwrap().text, "2.25");
}

#[test]
fn number_members_of_a_size_map() {
    let data = object(vec![
        ("price", fraction("1.5")),
        ("size", Json::Object(object(vec![("a", whole_number(1)), ("b", text("x")), ("c", fraction("2.5"))]))),
    ]);
    let ask = polygon::Ask::parse(&data);
    let size = ask.size.unwrap();
    assert_eq!(size.len(), 2);
    assert_eq!(size[0].0, "a");
    assert_eq!(size[0].1.int, Some(1));
    assert_eq!(size[1].0, "c");
    assert_eq!(size[1].1.text, "2.5");
    assert!(polygon::Bid::parse(&JsonObject::new()).size.is_none());
}

#[test]
fn bar_written_and_read_back() {
    let data = object(vec![
        ("T", text("AAPL")),
        ("c", fraction("1.23")),
        ("n", whole_number(-4)),
        ("t", whole_number(164545545)),
        ("vw", fraction("901.23")),
    ]);
    let bar = Bar::parse(&data);
    let written = bar.to_json();
    let again = Bar::parse(&written);
    assert_eq!(again.ticker, bar.ticker);
    assert_eq!(again.close.as_ref().unwrap().text, "1.23");
    assert_eq!(again.transactions, Some(-4));
    assert_eq!(again.timestamp, Some(164545545));
    assert_eq!(again.vwap.as_ref().unwrap().text, "901.23");
    assert!(again.high.is_none() && again.low.is_none() && again.open.is_none() && again.volume.is_none());
    match written.get("n") {
        Some(Json::Number(n)) => assert_eq!(n.text, "-4"),
        _ => panic!("the transactions member is missing"),
    }
    assert!(matches!(written.get("h"), Some(Json::Null)));
}

#[test]
fn next_page_appends_api_key() {
    let data = object(vec![
        ("next_url", text("https://host/path?cursor=X")),
        ("results", Json::Array(vec![])),
    ]);
    let mut quotes = Quotes::parse(&data);
    assert_eq!(quotes.next_page_url("key123").unwrap(), "https://host/path?cursor=X&apiKey=key123");
    let page = object(vec![
        ("status", text("OK")),
        ("results", Json::Array(vec![Json::Object(object(vec![("bid", fraction("3.5"))]))])),
    ]);
    quotes.load_page(&page);
    assert!(quotes.next_url.is_none());
    assert_eq!(quotes.status.as_deref(), Some("OK"));
    assert_eq!(quotes.quotes.as_ref().unwrap().len(), 1);
    assert_eq!(quotes.next_page_url("key123"), Err(ErrorCode::NoNextPage));
}

#[test]
fn trades_without_next_page() {
    let mut trades = Trades::parse(&JsonObject::new());
    assert_eq!(trades.next_page_url("k"), Err(ErrorCode::NoNextPage));
    let page = object(vec![
        ("next_url", text("https://host/v3/trades/AAPL?cursor=Y")),
        ("results", Json::Array(vec![Json::Object(object(vec![("p", fraction("10.5")), ("i", text("71"))]))])),
    ]);
    trades.load_page(&page);
    assert_eq!(trades.trades.as_ref().unwrap()[0].id.as_deref(), Some("71"));
    assert_eq!(trades.next_page_url("k").unwrap(), "https://host/v3/trades/AAPL?cursor=Y&apiKey=k");
}

#[test]
fn details_written_and_read_back() {
    let data = object(vec![
        ("contract_type", text("Put")),
        ("contract_style", text("Bermudan")),
        ("expiration_date", text("2024-06-21")),
        ("shares_per_contract", whole_number(100)),
        ("strike_price", fraction("12.5")),
    ]);
    let details = Details::parse(&data);
    let written = details.to_json();
    let again = Details::parse(&written);
    assert_eq!(again.contract_type, Some(ContractType::Put));
    assert_eq!(again.contract_style, Some(ContractStyle::Bermudan));
    assert_eq!(again.expiration_date.as_deref(), Some("2024-06-21"));
    assert_eq!(again.shares_per_contract, Some(100));
    assert_eq!(again.strike_price.unwrap().text, "12.5");
    assert!(again.ticker.is_none());
    assert!(matches!(written.get("ticker"), Some(Json::Null)));
}

#[test]
fn moving_average_written_and_read_back() {
    let data = object(vec![("timestamp", whole_number(164545545)), ("value", fraction("1.23"))]);
    let value = polygon::MovingAverage::parse(&data);
    let again = polygon::MovingAverage::parse(&value.to_json());
    assert_eq!(again.timestamp, Some(164545545));
    assert_eq!(again.value.unwrap().text, "1.23");
    let empty = polygon::MovingAverage::parse(&JsonObject::new());
    let again = polygon::MovingAverage::parse(&empty.to_json());
    assert!(again.timestamp.is_none() && again.value.is_none());
}

#[test]
fn next_page_refuses_empty_api_key() {
    let data = object(vec![("next_url", text("https://host/path?cursor=X"))]);
    let quotes = Quotes::parse(&data);
    assert_eq!(
        quotes.next_page_url(""),
        Err(ErrorCode::ParameterNotSet(polygon::Parameter::ApiKey))
    );
}

#[test]
fn no_link_wins_over_empty_api_key() {
    let trades = Trades::parse(&JsonObject::new());
    assert_eq!(trades.next_page_url(""), Err(ErrorCode::NoNextPage));
}
