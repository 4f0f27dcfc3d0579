use polygon::{
    check_parameters, classify, Endpoint, ErrorCode, Parameter, ParameterRequirment, Parameters,
    RegexPatterns, TickerType, TickerTypes,
};

#[test]
fn classify_by_prefix_and_pattern() {
    assert_eq!(classify("O:SPY251219C00650000"), Some(TickerType::Options));
    assert_eq!(classify("O:A230303P00010000"), Some(TickerType::Options));
    assert_eq!(classify("AAPL"), Some(TickerType::Stocks));
    assert_eq!(classify("A"), Some(TickerType::Stocks));
    assert_eq!(classify("I:SPX"), Some(TickerType::Indicies));
    assert_eq!(classify("C:EURUSD"), Some(TickerType::Forex));
    assert_eq!(classify("X:BTCUSD"), Some(TickerType::Crypto));
}

#[test]
fn classify_rejects_other_strings() {
    assert_eq!(classify(""), None);
    assert_eq!(classify("ABCDEFG"), None);
    assert_eq!(classify("aapl"), None);
    assert_eq!(classify("BRK.A"), None);
    assert_eq!(classify("O:SPY251319C00650000"), None);
    assert_eq!(classify("O:SPY251232C00650000"), None);
    assert_eq!(classify("O:SPYXX251219C00650000"), None);
    assert_eq!(classify("O:SPY251219X00650000"), None);
    assert_eq!(classify("C:EURUS"), None);
    assert_eq!(classify("X:"), None);
    assert_eq!(classify("I:spx"), None);
}

#[test]
fn dates_and_api_keys() {
    assert!(RegexPatterns::string_date("2023-03-01"));
    assert!(RegexPatterns::string_date("1900-12-31"));
    assert!(!RegexPatterns::string_date("2100-01-01"));
    assert!(!RegexPatterns::string_date("2023-13-01"));
    assert!(!RegexPatterns::string_date("2023-01-00"));
    assert!(!RegexPatterns::string_date("2023-1-01"));
    assert!(RegexPatterns::api_key("abcdefghijklmnopqrstuvwxyz012345"));
    assert!(!RegexPatterns::api_key("abcdefghijklmnop rstuvwxyz012345"));
    assert!(!RegexPatterns::api_key("abcdefghijklmnopqrstuvwxyz01234"));
}

#[test]
fn ticker_type_sets() {
    let s = TickerTypes::stocks();
    assert!(s.stocks && !s.options && !s.indicies && !s.forex && !s.crypto);
    let a = TickerTypes::all();
    assert!(a.stocks && a.options && a.indicies && a.forex && a.crypto);
    let f = TickerTypes::set(false, true, false, true, false);
    assert!(!f.stocks && f.options && !f.indicies && f.forex && !f.crypto);
    assert!(TickerTypes::options().options && TickerTypes::indicies().indicies);
    assert!(TickerTypes::forex().forex && TickerTypes::crypto().crypto);
}

#[test]
fn missing_required_parameter_is_named() {
    let table = [
        ParameterRequirment { required: false, parameter: Parameter::Adjusted },
        ParameterRequirment { required: true, parameter: Parameter::Date },
        ParameterRequirment { required: true, parameter: Parameter::Direction },
    ];
    let mut parameters = Parameters::default();
    parameters.adjusted = Some(true);
    assert_eq!(
        check_parameters(&TickerTypes::all(), &table, &parameters),
        Err(ErrorCode::ParameterNotSet(Parameter::Date))
    );
    parameters.date = Some(String::from("2023-01-09"));
    assert_eq!(
        check_parameters(&TickerTypes::all(), &table, &parameters),
        Err(ErrorCode::ParameterNotSet(Parameter::Direction))
    );
    parameters.direction = Some(polygon::Direction::Losers);
    assert_eq!(check_parameters(&TickerTypes::all(), &table, &parameters), Ok(()));
}

#[test]
fn ticker_checked_first() {
    let table = [
        ParameterRequirment { required: true, parameter: Parameter::Ticker },
        ParameterRequirment { required: true, parameter: Parameter::Date },
    ];
    let mut parameters = Parameters::default();
    assert_eq!(
        check_parameters(&TickerTypes::all(), &table, &parameters),
        Err(ErrorCode::TickerNotSet)
    );
    parameters.ticker = Some(String::from("X:BTCUSD"));
    assert_eq!(
        check_parameters(&TickerTypes::stocks(), &table, &parameters),
        Err(ErrorCode::TickerTypeNotValidForCall)
    );
    parameters.ticker = Some(String::from("not a ticker"));
    assert_eq!(
        check_parameters(&TickerTypes::all(), &table, &parameters),
        Err(ErrorCode::TickerTypeNotValidForCall)
    );
    parameters.ticker = Some(String::from("AAPL"));
    assert_eq!(
        check_parameters(&TickerTypes::stocks(), &table, &parameters),
        Err(ErrorCode::ParameterNotSet(Parameter::Date))
    );
}

#[test]
fn unlisted_parameters_are_ignored() {
    let mut parameters = Parameters::default();
    parameters.ticker = Some(String::from("AAPL"));
    parameters.strike_price = Some(polygon::Decimal::whole(5));
    parameters.limit = Some(3);
    let table = Endpoint::Previous.requirements();
    assert_eq!(check_parameters(&TickerTypes::all(), &table, &parameters), Ok(()));
}

#[test]
fn endpoint_tables() {
    let table = Endpoint::Quotes.requirements();
    assert_eq!(table.len(), 7);
    assert_eq!(table[0], ParameterRequirment { required: true, parameter: Parameter::Ticker });
    assert!(table[1..].iter().all(|r| !r.required));
    let table = Endpoint::GainersLosers.requirements();
    assert_eq!(table[1], ParameterRequirment { required: true, parameter: Parameter::Direction });
}

#[test]
fn word_and_epoch_checks() {
    assert!(RegexPatterns::stocks_check("BRK_B2"));
    assert!(RegexPatterns::stocks_check("aapl"));
    assert!(!RegexPatterns::stocks_check(""));
    assert!(!RegexPatterns::stocks_check("BRK.A"));
    assert!(!RegexPatterns::stocks_check("É"));
    assert!(RegexPatterns::epoch_nano_date("1678886401000000000"));
    assert!(!RegexPatterns::epoch_nano_date("167888640100000000"));
    assert!(!RegexPatterns::epoch_nano_date("16788864010000000x0"));
}
