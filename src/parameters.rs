use vstd::prelude::*;

verus! {

/// The five classes of tradable securities.
#[derive(Clone, Copy, Debug, PartialEq, Eq, Structural)]
pub enum TickerType {
    Stocks,
    Options,
    Indicies,
    Forex,
    Crypto,
}

/// Which ticker classes an endpoint accepts.
#[derive(Clone, Copy, Debug, PartialEq, Eq, Structural)]
pub struct TickerTypes {
    pub stocks: bool,
    pub options: bool,
    pub indicies: bool,
    pub forex: bool,
    pub crypto: bool,
}

impl TickerTypes {
    /// Whether the class `t` is among the accepted ones.
    pub open spec fn allows(self, t: TickerType) -> bool {
        match t {
            TickerType::Stocks => self.stocks,
            TickerType::Options => self.options,
            TickerType::Indicies => self.indicies,
            TickerType::Forex => self.forex,
            TickerType::Crypto => self.crypto,
        }
    }

    pub fn accepts(&self, t: TickerType) -> (r: bool)
        ensures
            r == self.allows(t),
    {
        match t {
            TickerType::Stocks => self.stocks,
            TickerType::Options => self.options,
            TickerType::Indicies => self.indicies,
            TickerType::Forex => self.forex,
            TickerType::Crypto => self.crypto,
        }
    }

    pub open spec fn spec_set(stocks: bool, options: bool, indicies: bool, forex: bool, crypto: bool) -> Self {
        TickerTypes { stocks, options, indicies, forex, crypto }
    }

    pub fn set(stocks: bool, options: bool, indicies: bool, forex: bool, crypto: bool) -> (r: Self)
        ensures
            r == Self::spec_set(stocks, options, indicies, forex, crypto),
    {
        TickerTypes { stocks, options, indicies, forex, crypto }
    }

    pub fn stocks() -> (r: Self)
        ensures
            r == Self::spec_set(true, false, false, false, false),
            forall|t: TickerType| r.allows(t) <==> t == TickerType::Stocks,
    {
        TickerTypes { stocks: true, options: false, indicies: false, forex: false, crypto: false }
    }

    pub fn options() -> (r: Self)
        ensures
            r == Self::spec_set(false, true, false, false, false),
            forall|t: TickerType| r.allows(t) <==> t == TickerType::Options,
    {
        TickerTypes { stocks: false, options: true, indicies: false, forex: false, crypto: false }
    }

    pub fn indicies() -> (r: Self)
        ensures
            r == Self::spec_set(false, false, true, false, false),
            forall|t: TickerType| r.allows(t) <==> t == TickerType::Indicies,
    {
        TickerTypes { stocks: false, options: false, indicies: true, forex: false, crypto: false }
    }

    pub fn forex() -> (r: Self)
        ensures
            r == Self::spec_set(false, false, false, true, false),
            forall|t: TickerType| r.allows(t) <==> t == TickerType::Forex,
    {
        TickerTypes { stocks: false, options: false, indicies: false, forex: true, crypto: false }
    }

    pub fn crypto() -> (r: Self)
        ensures
            r == Self::spec_set(false, false, false, false, true),
            forall|t: TickerType| r.allows(t) <==> t == TickerType::Crypto,
    {
        TickerTypes { stocks: false, options: false, indicies: false, forex: false, crypto: true }
    }

    pub fn all() -> (r: Self)
        ensures
            r == Self::spec_set(true, true, true, true, true),
            forall|t: TickerType| r.allows(t),
    {
        TickerTypes { stocks: true, options: true, indicies: true, forex: true, crypto: true }
    }
}

/// The identifier of each query parameter.
#[derive(Clone, Copy, Debug, PartialEq, Eq, Structural)]
pub enum Parameter {
    ApiKey,
    Ticker,
    Tickers,
    TickerFrom,
    TickerTo,
    TickerType,
    Date,
    Adjusted,
    Sort,
    Limit,
    Timespan,
    From,
    To,
    Multiplier,
    IncludeOTC,
    Order,
    ContractType,
    Timestamp,
    Sortv3,
    StrikePrice,
    StrikePriceFrom,
    StrikePriceTo,
    Amount,
    Precision,
    Direction,
    UnderlyingAsset,
    Window,
    SeriesType,
    ExpandUnderlying,
}

/// One entry of an endpoint's requirement table.
#[derive(Clone, Copy, Debug, PartialEq, Eq, Structural)]
pub struct ParameterRequirment {
    pub required: bool,
    pub parameter: Parameter,
}


/// The kind of an option contract.
#[derive(Clone, Copy, Debug, PartialEq, Eq, Structural)]
pub enum ContractType {
    Call,
    Put,
    Other,
    Unknown,
}

/// The exercise style of an option contract.
#[derive(Clone, Copy, Debug, PartialEq, Eq, Structural)]
pub enum ContractStyle {
    American,
    European,
    Bermudan,
    Unknown,
}

/// Whether data is delayed or real time.
#[derive(Clone, Copy, Debug, PartialEq, Eq, Structural)]
pub enum Timeframe {
    Delayed,
    RealTime,
    Unknown,
}

/// Sort direction of aggregate results.
#[derive(Clone, Copy, Debug, PartialEq, Eq, Structural)]
pub enum Sort {
    Asc,
    Desc,
}

impl Sort {
    /// The text that stands for this value in a query string.
    pub open spec fn spec_query_value(self) -> Seq<char> {
        match self {
            Sort::Asc => "asc"@,
            Sort::Desc => "desc"@,
        }
    }


    pub fn query_value(&self) -> (r: &'static str)
        ensures
            r@ == self.spec_query_value(),
    {
        match self {
            Sort::Asc => "asc",
            Sort::Desc => "desc",
        }
    }
}

/// Order of results by their sort field.
#[derive(Clone, Copy, Debug, PartialEq, Eq, Structural)]
pub enum Order {
    Asc,
    Desc,
}

impl Order {
    /// The text that stands for this value in a query string.
    pub open spec fn spec_query_value(self) -> Seq<char> {
        match self {
            Order::Asc => "asc"@,
            Order::Desc => "desc"@,
        }
    }


    pub fn query_value(&self) -> (r: &'static str)
        ensures
            r@ == self.spec_query_value(),
    {
        match self {
            Order::Asc => "asc",
            Order::Desc => "desc",
        }
    }
}

/// The field that results are sorted by.
#[derive(Clone, Copy, Debug, PartialEq, Eq, Structural)]
pub enum Sortv3 {
    Timestamp,
    Ticker,
    ExpirationDate,
    StrikePrice,
}

impl Sortv3 {
    /// The text that stands for this value in a query string.
    pub open spec fn spec_query_value(self) -> Seq<char> {
        match self {
            Sortv3::Timestamp => "timestamp"@,
            Sortv3::Ticker => "ticker"@,
            Sortv3::ExpirationDate => "expiration_date"@,
            Sortv3::StrikePrice => "strike_price"@,
        }
    }


    pub fn query_value(&self) -> (r: &'static str)
        ensures
            r@ == self.spec_query_value(),
    {
        match self {
            Sortv3::Timestamp => "timestamp",
            Sortv3::Ticker => "ticker",
            Sortv3::ExpirationDate => "expiration_date",
            Sortv3::StrikePrice => "strike_price",
        }
    }
}

/// The size of an aggregate window.
#[derive(Clone, Copy, Debug, PartialEq, Eq, Structural)]
pub enum Timespan {
    Second,
    Minute,
    Hour,
    Day,
    Week,
    Month,
    Quater,
    Year,
}

impl Timespan {
    /// The text that stands for this value in a query string.
    pub open spec fn spec_query_value(self) -> Seq<char> {
        match self {
            Timespan::Second => "second"@,
            Timespan::Minute => "minute"@,
            Timespan::Hour => "hour"@,
            Timespan::Day => "day"@,
            Timespan::Week => "week"@,
            Timespan::Month => "month"@,
            Timespan::Quater => "quarter"@,
            Timespan::Year => "year"@,
        }
    }


    pub fn query_value(&self) -> (r: &'static str)
        ensures
            r@ == self.spec_query_value(),
    {
        match self {
            Timespan::Second => "second",
            Timespan::Minute => "minute",
            Timespan::Hour => "hour",
            Timespan::Day => "day",
            Timespan::Week => "week",
            Timespan::Month => "month",
            Timespan::Quater => "quarter",
            Timespan::Year => "year",
        }
    }
}

/// Which movers a snapshot lists.
#[derive(Clone, Copy, Debug, PartialEq, Eq, Structural)]
pub enum Direction {
    Gainers,
    Losers,
}

impl Direction {
    /// The text that stands for this value in a query string.
    pub open spec fn spec_query_value(self) -> Seq<char> {
        match self {
            Direction::Gainers => "gainers"@,
            Direction::Losers => "losers"@,
        }
    }


    pub fn query_value(&self) -> (r: &'static str)
        ensures
            r@ == self.spec_query_value(),
    {
        match self {
            Direction::Gainers => "gainers",
            Direction::Losers => "losers",
        }
    }
}

/// The price that an indicator is computed from.
#[derive(Clone, Copy, Debug, PartialEq, Eq, Structural)]
pub enum SeriesType {
    Close,
    Open,
    High,
    Low,
}

impl SeriesType {
    /// The text that stands for this value in a query string.
    pub open spec fn spec_query_value(self) -> Seq<char> {
        match self {
            SeriesType::Close => "close"@,
            SeriesType::Open => "open"@,
            SeriesType::High => "high"@,
            SeriesType::Low => "low"@,
        }
    }


    pub fn query_value(&self) -> (r: &'static str)
        ensures
            r@ == self.spec_query_value(),
    {
        match self {
            SeriesType::Close => "close",
            SeriesType::Open => "open",
            SeriesType::High => "high",
            SeriesType::Low => "low",
        }
    }
}

impl TickerType {
    /// The market name of this class in a query path.
    pub open spec fn spec_query_value(self) -> Seq<char> {
        match self {
            TickerType::Stocks => "stocks"@,
            TickerType::Options => "options"@,
            TickerType::Indicies => "indicies"@,
            TickerType::Forex => "forex"@,
            TickerType::Crypto => "crypto"@,
        }
    }

    pub fn query_value(&self) -> (r: &'static str)
        ensures
            r@ == self.spec_query_value(),
    {
        match self {
            TickerType::Stocks => "stocks",
            TickerType::Options => "options",
            TickerType::Indicies => "indicies",
            TickerType::Forex => "forex",
            TickerType::Crypto => "crypto",
        }
    }
}

/// An exact decimal number: `units` divided by ten to the power `scale`,
/// written with exactly `scale` digits after the point.
#[derive(Clone, Copy, Debug, PartialEq, Eq, Structural)]
pub struct Decimal {
    pub units: u64,
    pub scale: u8,
}

impl Decimal {
    /// A whole number.
    pub fn whole(units: u64) -> (r: Decimal)
        ensures
            r == (Decimal { units, scale: 0 }),
    {
        Decimal { units, scale: 0 }
    }
}

/// Every query parameter that any endpoint takes. Only the API key is
/// always present; every other field is independently optional.
#[derive(Clone, Debug)]
pub struct Parameters {
    pub api_key: String,
    pub ticker: Option<String>,
    pub tickers: Option<Vec<String>>,
    pub ticker_from: Option<String>,
    pub ticker_to: Option<String>,
    pub multiplier: Option<u16>,
    pub timespan: Option<Timespan>,
    pub from: Option<String>,
    pub to: Option<String>,
    pub adjusted: Option<bool>,
    pub sort: Option<Sort>,
    pub order: Option<Order>,
    pub sortv3: Option<Sortv3>,
    pub timestamp: Option<String>,
    pub limit: Option<u16>,
    pub date: Option<String>,
    pub verbose: Option<bool>,
    pub contract_type: Option<ContractType>,
    pub include_otc: Option<bool>,
    pub strike_price: Option<Decimal>,
    pub strike_price_from: Option<Decimal>,
    pub strike_price_to: Option<Decimal>,
    pub amount: Option<Decimal>,
    pub precision: Option<u8>,
    pub direction: Option<Direction>,
    pub underlying_asset: Option<String>,
    pub ticker_type: Option<TickerType>,
    pub window: Option<i64>,
    pub series_type: Option<SeriesType>,
    pub expand_underlying: Option<bool>,
}

impl Parameters {
    /// Whether the field that `p` names holds a value; for the API key,
    /// whether it is non-empty.
    pub open spec fn is_set(&self, p: Parameter) -> bool {
        match p {
            Parameter::ApiKey => self.api_key@.len() > 0,
            Parameter::Ticker => self.ticker is Some,
            Parameter::Tickers => self.tickers is Some,
            Parameter::TickerFrom => self.ticker_from is Some,
            Parameter::TickerTo => self.ticker_to is Some,
            Parameter::TickerType => self.ticker_type is Some,
            Parameter::Date => self.date is Some,
            Parameter::Adjusted => self.adjusted is Some,
            Parameter::Sort => self.sort is Some,
            Parameter::Limit => self.limit is Some,
            Parameter::Timespan => self.timespan is Some,
            Parameter::From => self.from is Some,
            Parameter::To => self.to is Some,
            Parameter::Multiplier => self.multiplier is Some,
            Parameter::IncludeOTC => self.include_otc is Some,
            Parameter::Order => self.order is Some,
            Parameter::ContractType => self.contract_type is Some,
            Parameter::Timestamp => self.timestamp is Some,
            Parameter::Sortv3 => self.sortv3 is Some,
            Parameter::StrikePrice => self.strike_price is Some,
            Parameter::StrikePriceFrom => self.strike_price_from is Some,
            Parameter::StrikePriceTo => self.strike_price_to is Some,
            Parameter::Amount => self.amount is Some,
            Parameter::Precision => self.precision is Some,
            Parameter::Direction => self.direction is Some,
            Parameter::UnderlyingAsset => self.underlying_asset is Some,
            Parameter::Window => self.window is Some,
            Parameter::SeriesType => self.series_type is Some,
            Parameter::ExpandUnderlying => self.expand_underlying is Some,
        }
    }

    pub fn has(&self, p: Parameter) -> (r: bool)
        ensures
            r == self.is_set(p),
    {
        match p {
            Parameter::ApiKey => self.api_key.as_str().unicode_len() > 0,
            Parameter::Ticker => self.ticker.is_some(),
            Parameter::Tickers => self.tickers.is_some(),
            Parameter::TickerFrom => self.ticker_from.is_some(),
            Parameter::TickerTo => self.ticker_to.is_some(),
            Parameter::TickerType => self.ticker_type.is_some(),
            Parameter::Date => self.date.is_some(),
            Parameter::Adjusted => self.adjusted.is_some(),
            Parameter::Sort => self.sort.is_some(),
            Parameter::Limit => self.limit.is_some(),
            Parameter::Timespan => self.timespan.is_some(),
            Parameter::From => self.from.is_some(),
            Parameter::To => self.to.is_some(),
            Parameter::Multiplier => self.multiplier.is_some(),
            Parameter::IncludeOTC => self.include_otc.is_some(),
            Parameter::Order => self.order.is_some(),
            Parameter::ContractType => self.contract_type.is_some(),
            Parameter::Timestamp => self.timestamp.is_some(),
            Parameter::Sortv3 => self.sortv3.is_some(),
            Parameter::StrikePrice => self.strike_price.is_some(),
            Parameter::StrikePriceFrom => self.strike_price_from.is_some(),
            Parameter::StrikePriceTo => self.strike_price_to.is_some(),
            Parameter::Amount => self.amount.is_some(),
            Parameter::Precision => self.precision.is_some(),
            Parameter::Direction => self.direction.is_some(),
            Parameter::UnderlyingAsset => self.underlying_asset.is_some(),
            Parameter::Window => self.window.is_some(),
            Parameter::SeriesType => self.series_type.is_some(),
            Parameter::ExpandUnderlying => self.expand_underlying.is_some(),
        }
    }

    /// An empty API key and no other parameter.
    pub open spec fn is_blank(&self) -> bool {
        &&& self.api_key@.len() == 0
        &&& forall|p: Parameter| !self.is_set(p)
        &&& self.verbose is None
    }

    /// The set holding `api_key` and nothing else.
    pub fn with_api_key(api_key: String) -> (r: Parameters)
        ensures
            r.api_key == api_key,
            forall|p: Parameter| p != Parameter::ApiKey ==> !r.is_set(p),
            r.verbose is None,
    {
        Parameters {
            api_key,
            ticker: None,
            tickers: None,
            ticker_from: None,
            ticker_to: None,
            multiplier: None,
            timespan: None,
            from: None,
            to: None,
            adjusted: None,
            sort: None,
            order: None,
            sortv3: None,
            timestamp: None,
            limit: None,
            date: None,
            verbose: None,
            contract_type: None,
            include_otc: None,
            strike_price: None,
            strike_price_from: None,
            strike_price_to: None,
            amount: None,
            precision: None,
            direction: None,
            underlying_asset: None,
            ticker_type: None,
            window: None,
            series_type: None,
            expand_underlying: None,
        }
    }
}

impl Default for Parameters {
    fn default() -> (r: Parameters)
        ensures
            r.is_blank(),
    {
        Parameters::with_api_key(String::new())
    }
}

impl ContractType {
    /// The name of the variant, as a response writes it.
    pub open spec fn spec_name(self) -> Seq<char> {
        match self {
            ContractType::Call => "Call"@,
            ContractType::Put => "Put"@,
            ContractType::Other => "Other"@,
            ContractType::Unknown => "Unknown"@,
        }
    }

    pub fn name(&self) -> (r: &'static str)
        ensures
            r@ == self.spec_name(),
    {
        match self {
            ContractType::Call => "Call",
            ContractType::Put => "Put",
            ContractType::Other => "Other",
            ContractType::Unknown => "Unknown",
        }
    }
}

impl ContractStyle {
    /// The name of the variant, as a response writes it.
    pub open spec fn spec_name(self) -> Seq<char> {
        match self {
            ContractStyle::American => "American"@,
            ContractStyle::European => "European"@,
            ContractStyle::Bermudan => "Bermudan"@,
            ContractStyle::Unknown => "Unknown"@,
        }
    }

    pub fn name(&self) -> (r: &'static str)
        ensures
            r@ == self.spec_name(),
    {
        match self {
            ContractStyle::American => "American",
            ContractStyle::European => "European",
            ContractStyle::Bermudan => "Bermudan",
            ContractStyle::Unknown => "Unknown",
        }
    }
}

} // verus!
