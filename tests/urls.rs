use polygon::{
    Decimal, Direction, Endpoint, ErrorCode, Order, Parameter, Parameters, SeriesType, Sortv3,
    TickerType, Timespan,
};

fn with_key(ticker: &str) -> Parameters {
    let mut parameters = Parameters::default();
    parameters.api_key = String::from("apiKey");
    parameters.ticker = Some(String::from(ticker));
    parameters
}

#[test]
fn currency_conversion_test_url() {
    let mut parameters = Parameters::default();
    parameters.api_key = String::from("apiKey");
    parameters.ticker = Some(String::from("C:EURUSD"));
    parameters.amount = Some(Decimal::whole(100));
    parameters.precision = Some(2);
    let url = Endpoint::CurrencyConversion.build_url(&parameters).unwrap();
    assert_eq!(url, "https://api.polygon.io/v1/conversion/EUR/USD?amount=100&precision=2&apiKey=apiKey");
}

#[test]
fn simple_moving_average_test_url() {
    let mut parameters = Parameters::default();
    parameters.api_key = String::from("apiKey");
    parameters.ticker = Some(String::from("AAPL"));
    parameters.from = Some(String::from("2023-03-01"));
    parameters.to = Some(String::from("2023-04-01"));
    parameters.timespan = Some(Timespan::Minute);
    parameters.adjusted = Some(true);
    parameters.window = Some(10);
    parameters.series_type = Some(SeriesType::Close);
    parameters.expand_underlying = Some(true);
    parameters.order = Some(Order::Asc);
    parameters.limit = Some(1000);
    let url = Endpoint::SimpleMovingAverage.build_url(&parameters).unwrap();
    assert_eq!(url, "https://api.polygon.io/v1/indicators/sma/AAPL?timestamp.gte=2023-03-01&timestamp.lte=2023-04-01&timespan=minute&adjusted=true&window=10&series_type=close&expand_underlying=true&order=asc&limit=1000&apiKey=apiKey");
}

#[test]
fn conversion_amount_with_fraction() {
    let mut parameters = with_key("C:GBPJPY");
    parameters.amount = Some(Decimal { units: 1005, scale: 2 });
    assert_eq!(
        Endpoint::CurrencyConversion.build_url(&parameters).unwrap(),
        "https://api.polygon.io/v1/conversion/GBP/JPY?amount=10.05&apiKey=apiKey"
    );
    parameters.amount = Some(Decimal { units: 5, scale: 3 });
    assert_eq!(
        Endpoint::CurrencyConversion.build_url(&parameters).unwrap(),
        "https://api.polygon.io/v1/conversion/GBP/JPY?amount=0.005&apiKey=apiKey"
    );
}

#[test]
fn conversion_rejects_malformed_pair() {
    let parameters = with_key("C:EUR");
    assert_eq!(
        Endpoint::CurrencyConversion.build_url(&parameters),
        Err(ErrorCode::TickerTypeNotValidForCall)
    );
    let parameters = with_key("AAPL");
    assert_eq!(
        Endpoint::CurrencyConversion.build_url(&parameters),
        Err(ErrorCode::TickerTypeNotValidForCall)
    );
}

#[test]
fn build_without_ticker_fails() {
    let mut parameters = Parameters::default();
    parameters.api_key = String::from("apiKey");
    assert_eq!(Endpoint::Quotes.build_url(&parameters), Err(ErrorCode::TickerNotSet));
    assert_eq!(Endpoint::CurrencyConversion.build_url(&parameters), Err(ErrorCode::TickerNotSet));
    assert_eq!(
        Endpoint::GroupedBars.build_url(&parameters),
        Err(ErrorCode::ParameterNotSet(Parameter::Date))
    );
}

#[test]
fn timestamp_dropped_when_range_present() {
    let mut parameters = with_key("AAPL");
    parameters.timestamp = Some(String::from("2023-01-09"));
    parameters.from = Some(String::from("2023-01-01"));
    assert_eq!(
        Endpoint::Quotes.build_url(&parameters).unwrap(),
        "https://api.polygon.io/v3/quotes/AAPL?timestamp.gte=2023-01-01&apiKey=apiKey"
    );
    parameters.from = None;
    parameters.to = Some(String::from("2023-02-01"));
    assert_eq!(
        Endpoint::Trades.build_url(&parameters).unwrap(),
        "https://api.polygon.io/v3/trades/AAPL?timestamp.lte=2023-02-01&apiKey=apiKey"
    );
    parameters.to = None;
    assert_eq!(
        Endpoint::Trades.build_url(&parameters).unwrap(),
        "https://api.polygon.io/v3/trades/AAPL?timestamp=2023-01-09&apiKey=apiKey"
    );
}

#[test]
fn quotes_segments_in_table_order() {
    let mut parameters = with_key("O:SPY251219C00650000");
    parameters.sortv3 = Some(Sortv3::ExpirationDate);
    parameters.limit = Some(50);
    parameters.order = Some(Order::Desc);
    assert_eq!(
        Endpoint::Quotes.build_url(&parameters).unwrap(),
        "https://api.polygon.io/v3/quotes/O:SPY251219C00650000?order=desc&limit=50&sort=expiration_date&apiKey=apiKey"
    );
}

#[test]
fn build_twice_gives_same_url() {
    let mut parameters = with_key("AAPL");
    parameters.adjusted = Some(false);
    let first = Endpoint::Previous.build_url(&parameters).unwrap();
    let second = Endpoint::Previous.build_url(&parameters).unwrap();
    assert_eq!(first, second);
    assert_eq!(first, "https://api.polygon.io/v2/aggs/ticker/AAPL/prev?adjusted=false&apiKey=apiKey");
}

#[test]
fn grouped_and_last_trade_urls() {
    let mut parameters = Parameters::default();
    parameters.api_key = String::from("k");
    parameters.date = Some(String::from("2023-01-09"));
    parameters.include_otc = Some(true);
    assert_eq!(
        Endpoint::GroupedBars.build_url(&parameters).unwrap(),
        "https://api.polygon.io/v2/aggs/grouped/locale/us/market/stocks/2023-01-09?include_otc=true&apiKey=k"
    );
    let parameters = with_key("MSFT");
    assert_eq!(
        Endpoint::LastTrade.build_url(&parameters).unwrap(),
        "https://api.polygon.io/v2/last/trade/MSFT?apiKey=apiKey"
    );
}

#[test]
fn gainers_losers_urls() {
    let mut parameters = Parameters::default();
    parameters.api_key = String::from("k");
    parameters.direction = Some(Direction::Gainers);
    parameters.include_otc = Some(false);
    assert_eq!(
        Endpoint::GainersLosers.build_url(&parameters),
        Err(ErrorCode::ParameterNotSet(Parameter::TickerType))
    );
    parameters.ticker_type = Some(TickerType::Stocks);
    assert_eq!(
        Endpoint::GainersLosers.build_url(&parameters).unwrap(),
        "https://api.polygon.io/v2/snapshot/locale/us/markets/stocks/gainers?include_otc=false&apiKey=k"
    );
    parameters.ticker_type = Some(TickerType::Crypto);
    parameters.direction = Some(Direction::Losers);
    assert_eq!(
        Endpoint::GainersLosers.build_url(&parameters).unwrap(),
        "https://api.polygon.io/v2/snapshot/locale/global/markets/crypto/losers?apiKey=k"
    );
    parameters.ticker_type = Some(TickerType::Options);
    assert_eq!(
        Endpoint::GainersLosers.build_url(&parameters),
        Err(ErrorCode::TickerTypeNotValidForCall)
    );
    assert_eq!(
        Endpoint::GainersLosers.prepare(&parameters),
        Err(ErrorCode::TickerTypeNotValidForCall)
    );
}

#[test]
fn negative_window_is_written_with_sign() {
    let mut parameters = with_key("X:BTCUSD");
    parameters.window = Some(-7);
    assert_eq!(
        Endpoint::SimpleMovingAverage.build_url(&parameters).unwrap(),
        "https://api.polygon.io/v1/indicators/sma/X:BTCUSD?window=-7&apiKey=apiKey"
    );
}

#[test]
fn prepare_checks_before_building() {
    let parameters = with_key("I:SPX");
    assert_eq!(
        Endpoint::Quotes.prepare(&parameters),
        Err(ErrorCode::TickerTypeNotValidForCall)
    );
    let mut parameters = with_key("C:EURUSD");
    parameters.precision = Some(4);
    assert_eq!(
        Endpoint::CurrencyConversion.prepare(&parameters).unwrap(),
        "https://api.polygon.io/v1/conversion/EUR/USD?precision=4&apiKey=apiKey"
    );
}

#[test]
fn prepare_refuses_empty_api_key() {
    let mut parameters = with_key("AAPL");
    parameters.api_key = String::new();
    assert_eq!(
        Endpoint::Quotes.prepare(&parameters),
        Err(ErrorCode::ParameterNotSet(Parameter::ApiKey))
    );
    let mut parameters = Parameters::default();
    parameters.date = Some(String::from("2023-01-09"));
    assert_eq!(
        Endpoint::GroupedBars.prepare(&parameters),
        Err(ErrorCode::ParameterNotSet(Parameter::ApiKey))
    );
    parameters.api_key = String::from("k");
    assert_eq!(
        Endpoint::GroupedBars.prepare(&parameters).unwrap(),
        "https://api.polygon.io/v2/aggs/grouped/locale/us/market/stocks/2023-01-09?apiKey=k"
    );
}

#[test]
fn prepare_refuses_other_classes_with_key() {
    for ticker in ["AAPL", "X:BTCUSD", "I:SPX", "O:AAPL230616C00150000"] {
        let mut parameters = with_key(ticker);
        parameters.amount = Some(Decimal::whole(5));
        parameters.precision = Some(1);
        assert_eq!(
            Endpoint::CurrencyConversion.prepare(&parameters),
            Err(ErrorCode::TickerTypeNotValidForCall)
        );
    }
    let mut parameters = Parameters::default();
    parameters.api_key = String::from("k");
    parameters.direction = Some(Direction::Gainers);
    parameters.ticker_type = Some(TickerType::Indicies);
    assert_eq!(
        Endpoint::GainersLosers.prepare(&parameters),
        Err(ErrorCode::TickerTypeNotValidForCall)
    );
    let mut parameters = Parameters::default();
    parameters.api_key = String::from("k");
    parameters.adjusted = Some(true);
    assert_eq!(
        Endpoint::GroupedBars.prepare(&parameters),
        Err(ErrorCode::ParameterNotSet(Parameter::Date))
    );
}
