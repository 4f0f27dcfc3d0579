use vstd::prelude::*;

use crate::error::ErrorCode;
use crate::parameters::{Parameter, ParameterRequirment, Parameters, TickerType, TickerTypes};
use crate::query::{
    bool_value, decimal_value, i64_value, opt_seg, order_value, push_bool_seg, push_decimal_seg,
    push_i64_seg, push_str_seg, push_text_seg, push_u16_seg, push_u8_seg, series_value,
    sortv3_value, str_value, timespan_value, u16_value, u8_value,
};
use crate::ticker::{is_forex_ticker, spec_classify, RegexPatterns};
use crate::verification::{
    check_parameters, is_missing, lemma_required_absent_fails, spec_check, ticker_error,
};

verus! {

/// The endpoints of the API that this library can call.
#[derive(Clone, Copy, Debug, PartialEq, Eq, Structural)]
pub enum Endpoint {
    CurrencyConversion,
    GroupedBars,
    LastTrade,
    Previous,
    Quotes,
    Trades,
    GainersLosers,
    SimpleMovingAverage,
}

pub open spec fn req(parameter: Parameter, required: bool) -> ParameterRequirment {
    ParameterRequirment { required, parameter }
}

/// The final segment of every URL: the API key.
pub open spec fn key_tail(ps: &Parameters) -> Seq<char> {
    "apiKey="@ + ps.api_key@
}

/// The time window segments: a single timestamp only when neither range
/// bound is present.
pub open spec fn range_segs(ps: &Parameters) -> Seq<char> {
    opt_seg(
        "timestamp"@,
        if ps.from is None && ps.to is None {
            str_value(ps.timestamp)
        } else {
            None
        },
    ) + opt_seg("timestamp.gte"@, str_value(ps.from)) + opt_seg("timestamp.lte"@, str_value(ps.to))
}

pub open spec fn currency_conversion_url(ps: &Parameters) -> Result<Seq<char>, ErrorCode> {
    match ps.ticker {
        None => Err(ErrorCode::TickerNotSet),
        Some(t) => if !is_forex_ticker(t@) {
            Err(ErrorCode::TickerTypeNotValidForCall)
        } else {
            Ok(
                "https://api.polygon.io/v1/conversion/"@ + t@.subrange(2, 5) + "/"@ + t@.subrange(
                    5,
                    8,
                ) + "?"@ + opt_seg("amount"@, decimal_value(ps.amount)) + opt_seg(
                    "precision"@,
                    u8_value(ps.precision),
                ) + key_tail(ps),
            )
        },
    }
}

pub open spec fn grouped_bars_url(ps: &Parameters) -> Result<Seq<char>, ErrorCode> {
    match ps.date {
        None => Err(ErrorCode::ParameterNotSet(Parameter::Date)),
        Some(d) => Ok(
            "https://api.polygon.io/v2/aggs/grouped/locale/us/market/stocks/"@ + d@ + "?"@
                + opt_seg("adjusted"@, bool_value(ps.adjusted)) + opt_seg(
                "include_otc"@,
                bool_value(ps.include_otc),
            ) + key_tail(ps),
        ),
    }
}

pub open spec fn last_trade_url(ps: &Parameters) -> Result<Seq<char>, ErrorCode> {
    match ps.ticker {
        None => Err(ErrorCode::TickerNotSet),
        Some(t) => Ok("https://api.polygon.io/v2/last/trade/"@ + t@ + "?"@ + key_tail(ps)),
    }
}

pub open spec fn previous_url(ps: &Parameters) -> Result<Seq<char>, ErrorCode> {
    match ps.ticker {
        None => Err(ErrorCode::TickerNotSet),
        Some(t) => Ok(
            "https://api.polygon.io/v2/aggs/ticker/"@ + t@ + "/prev?"@ + opt_seg(
                "adjusted"@,
                bool_value(ps.adjusted),
            ) + key_tail(ps),
        ),
    }
}

/// Quotes and trades share one layout under different paths.
pub open spec fn tick_url(path: Seq<char>, ps: &Parameters) -> Result<Seq<char>, ErrorCode> {
    match ps.ticker {
        None => Err(ErrorCode::TickerNotSet),
        Some(t) => Ok(
            path + t@ + "?"@ + range_segs(ps) + opt_seg("order"@, order_value(ps.order)) + opt_seg(
                "limit"@,
                u16_value(ps.limit),
            ) + opt_seg("sort"@, sortv3_value(ps.sortv3)) + key_tail(ps),
        ),
    }
}

pub open spec fn simple_moving_average_url(ps: &Parameters) -> Result<Seq<char>, ErrorCode> {
    match ps.ticker {
        None => Err(ErrorCode::TickerNotSet),
        Some(t) => Ok(
            "https://api.polygon.io/v1/indicators/sma/"@ + t@ + "?"@ + range_segs(ps) + opt_seg(
                "timespan"@,
                timespan_value(ps.timespan),
            ) + opt_seg("adjusted"@, bool_value(ps.adjusted)) + opt_seg(
                "window"@,
                i64_value(ps.window),
            ) + opt_seg("series_type"@, series_value(ps.series_type)) + opt_seg(
                "expand_underlying"@,
                bool_value(ps.expand_underlying),
            ) + opt_seg("order"@, order_value(ps.order)) + opt_seg("limit"@, u16_value(ps.limit))
                + key_tail(ps),
        ),
    }
}

/// The locale in the path of a movers snapshot.
pub open spec fn locale_of(t: TickerType) -> Option<Seq<char>> {
    match t {
        TickerType::Stocks => Some("us"@),
        TickerType::Forex => Some("global"@),
        TickerType::Crypto => Some("global"@),
        _ => None,
    }
}

pub open spec fn gainers_losers_url(ps: &Parameters) -> Result<Seq<char>, ErrorCode> {
    match ps.ticker_type {
        None => Err(ErrorCode::ParameterNotSet(Parameter::TickerType)),
        Some(tt) => match ps.direction {
            None => Err(ErrorCode::ParameterNotSet(Parameter::Direction)),
            Some(dir) => match locale_of(tt) {
                None => Err(ErrorCode::TickerTypeNotValidForCall),
                Some(locale) => Ok(
                    "https://api.polygon.io/v2/snapshot/locale/"@ + locale + "/markets/"@
                        + tt.spec_query_value() + "/"@ + dir.spec_query_value() + "?"@ + opt_seg(
                        "include_otc"@,
                        if tt == TickerType::Stocks {
                            bool_value(ps.include_otc)
                        } else {
                            None
                        },
                    ) + key_tail(ps),
                ),
            },
        },
    }
}

/// A built URL agrees with its specification.
pub open spec fn same_url(r: Result<String, ErrorCode>, s: Result<Seq<char>, ErrorCode>) -> bool {
    match r {
        Ok(u) => s == Ok::<Seq<char>, ErrorCode>(u@),
        Err(e) => s == Err::<Seq<char>, ErrorCode>(e),
    }
}

fn push_key_tail(out: &mut String, ps: &Parameters)
    ensures
        final(out)@ == old(out)@ + key_tail(ps),
{
    out.append("apiKey=");
    out.append(ps.api_key.as_str());
    assert(out@ =~= old(out)@ + key_tail(ps));
}

fn push_range_segs(out: &mut String, ps: &Parameters)
    ensures
        final(out)@ == old(out)@ + range_segs(ps),
{
    let start = Ghost(out@);
    if ps.from.is_none() && ps.to.is_none() {
        push_str_seg(out, "timestamp", &ps.timestamp);
    } else {
        push_str_seg(out, "timestamp", &None);
    }
    push_str_seg(out, "timestamp.gte", &ps.from);
    push_str_seg(out, "timestamp.lte", &ps.to);
    assert(out@ =~= start@ + range_segs(ps));
}

fn currency_conversion(ps: &Parameters) -> (r: Result<String, ErrorCode>)
    ensures
        same_url(r, currency_conversion_url(ps)),
{
    match &ps.ticker {
        None => Err(ErrorCode::TickerNotSet),
        Some(t) => {
            if !RegexPatterns::forex_ticker(t.as_str()) {
                return Err(ErrorCode::TickerTypeNotValidForCall);
            }
            let mut url = String::from_str("https://api.polygon.io/v1/conversion/");
            url.append(t.as_str().substring_char(2, 5));
            url.append("/");
            url.append(t.as_str().substring_char(5, 8));
            url.append("?");
            push_decimal_seg(&mut url, "amount", ps.amount);
            push_u8_seg(&mut url, "precision", ps.precision);
            push_key_tail(&mut url, ps);
            assert(currency_conversion_url(ps) == Ok::<Seq<char>, ErrorCode>(url@));
            Ok(url)
        },
    }
}

fn grouped_bars(ps: &Parameters) -> (r: Result<String, ErrorCode>)
    ensures
        same_url(r, grouped_bars_url(ps)),
{
    match &ps.date {
        None => Err(ErrorCode::ParameterNotSet(Parameter::Date)),
        Some(d) => {
            let mut url = String::from_str(
                "https://api.polygon.io/v2/aggs/grouped/locale/us/market/stocks/",
            );
            url.append(d.as_str());
            url.append("?");
            push_bool_seg(&mut url, "adjusted", ps.adjusted);
            push_bool_seg(&mut url, "include_otc", ps.include_otc);
            push_key_tail(&mut url, ps);
            assert(grouped_bars_url(ps) == Ok::<Seq<char>, ErrorCode>(url@));
            Ok(url)
        },
    }
}

fn last_trade(ps: &Parameters) -> (r: Result<String, ErrorCode>)
    ensures
        same_url(r, last_trade_url(ps)),
{
    match &ps.ticker {
        None => Err(ErrorCode::TickerNotSet),
        Some(t) => {
            let mut url = String::from_str("https://api.polygon.io/v2/last/trade/");
            url.append(t.as_str());
            url.append("?");
            push_key_tail(&mut url, ps);
            assert(last_trade_url(ps) == Ok::<Seq<char>, ErrorCode>(url@));
            Ok(url)
        },
    }
}

fn previous(ps: &Parameters) -> (r: Result<String, ErrorCode>)
    ensures
        same_url(r, previous_url(ps)),
{
    match &ps.ticker {
        None => Err(ErrorCode::TickerNotSet),
        Some(t) => {
            let mut url = String::from_str("https://api.polygon.io/v2/aggs/ticker/");
            url.append(t.as_str());
            url.append("/prev?");
            push_bool_seg(&mut url, "adjusted", ps.adjusted);
            push_key_tail(&mut url, ps);
            assert(previous_url(ps) == Ok::<Seq<char>, ErrorCode>(url@));
            Ok(url)
        },
    }
}

fn tick(path: &str, ps: &Parameters) -> (r: Result<String, ErrorCode>)
    ensures
        same_url(r, tick_url(path@, ps)),
{
    match &ps.ticker {
        None => Err(ErrorCode::TickerNotSet),
        Some(t) => {
            let mut url = String::from_str(path);
            url.append(t.as_str());
            url.append("?");
            push_range_segs(&mut url, ps);
            let order = match &ps.order {
                Some(o) => Some(o.query_value()),
                None => None,
            };
            push_text_seg(&mut url, "order", order);
            push_u16_seg(&mut url, "limit", ps.limit);
            let sort = match &ps.sortv3 {
                Some(o) => Some(o.query_value()),
                None => None,
            };
            push_text_seg(&mut url, "sort", sort);
            push_key_tail(&mut url, ps);
            assert(tick_url(path@, ps) == Ok::<Seq<char>, ErrorCode>(url@));
            Ok(url)
        },
    }
}

fn simple_moving_average(ps: &Parameters) -> (r: Result<String, ErrorCode>)
    ensures
        same_url(r, simple_moving_average_url(ps)),
{
    match &ps.ticker {
        None => Err(ErrorCode::TickerNotSet),
        Some(t) => {
            let mut url = String::from_str("https://api.polygon.io/v1/indicators/sma/");
            url.append(t.as_str());
            url.append("?");
            push_range_segs(&mut url, ps);
            let timespan = match &ps.timespan {
                Some(o) => Some(o.query_value()),
                None => None,
            };
            push_text_seg(&mut url, "timespan", timespan);
            push_bool_seg(&mut url, "adjusted", ps.adjusted);
            push_i64_seg(&mut url, "window", ps.window);
            let series = match &ps.series_type {
                Some(o) => Some(o.query_value()),
                None => None,
            };
            push_text_seg(&mut url, "series_type", series);
            push_bool_seg(&mut url, "expand_underlying", ps.expand_underlying);
            let order = match &ps.order {
                Some(o) => Some(o.query_value()),
                None => None,
            };
            push_text_seg(&mut url, "order", order);
            push_u16_seg(&mut url, "limit", ps.limit);
            push_key_tail(&mut url, ps);
            assert(simple_moving_average_url(ps) == Ok::<Seq<char>, ErrorCode>(url@));
            Ok(url)
        },
    }
}

fn locale(t: TickerType) -> (r: Option<&'static str>)
    ensures
        match r {
            Some(l) => locale_of(t) == Some(l@),
            None => locale_of(t) is None,
        },
{
    match t {
        TickerType::Stocks => Some("us"),
        TickerType::Forex => Some("global"),
        TickerType::Crypto => Some("global"),
        _ => None,
    }
}

fn gainers_losers(ps: &Parameters) -> (r: Result<String, ErrorCode>)
    ensures
        same_url(r, gainers_losers_url(ps)),
{
    let tt = match ps.ticker_type {
        None => {
            return Err(ErrorCode::ParameterNotSet(Parameter::TickerType));
        },
        Some(tt) => tt,
    };
    let dir = match ps.direction {
        None => {
            return Err(ErrorCode::ParameterNotSet(Parameter::Direction));
        },
        Some(d) => d,
    };
    let loc = match locale(tt) {
        None => {
            return Err(ErrorCode::TickerTypeNotValidForCall);
        },
        Some(l) => l,
    };
    let mut url = String::from_str("https://api.polygon.io/v2/snapshot/locale/");
    url.append(loc);
    url.append("/markets/");
    url.append(tt.query_value());
    url.append("/");
    url.append(dir.query_value());
    url.append("?");
    let otc = if tt == TickerType::Stocks {
        ps.include_otc
    } else {
        None
    };
    push_bool_seg(&mut url, "include_otc", otc);
    push_key_tail(&mut url, ps);
    assert(gainers_losers_url(ps) == Ok::<Seq<char>, ErrorCode>(url@));
    Ok(url)
}

impl Endpoint {
    /// The endpoint's requirement table, in query-string order.
    pub open spec fn spec_requirements(self) -> Seq<ParameterRequirment> {
        match self {
            Endpoint::CurrencyConversion => seq![req(Parameter::Ticker, true), req(Parameter::Amount, false), req(Parameter::Precision, false)],
            Endpoint::GroupedBars => seq![req(Parameter::Date, true), req(Parameter::Adjusted, false), req(Parameter::IncludeOTC, false)],
            Endpoint::LastTrade => seq![req(Parameter::Ticker, true)],
            Endpoint::Previous => seq![req(Parameter::Ticker, true), req(Parameter::Adjusted, false)],
            Endpoint::Quotes => seq![req(Parameter::Ticker, true), req(Parameter::Timestamp, false), req(Parameter::From, false), req(Parameter::To, false), req(Parameter::Order, false), req(Parameter::Limit, false), req(Parameter::Sortv3, false)],
            Endpoint::Trades => seq![req(Parameter::Ticker, true), req(Parameter::Timestamp, false), req(Parameter::From, false), req(Parameter::To, false), req(Parameter::Order, false), req(Parameter::Limit, false), req(Parameter::Sortv3, false)],
            Endpoint::GainersLosers => seq![req(Parameter::TickerType, true), req(Parameter::Direction, true), req(Parameter::IncludeOTC, false)],
            Endpoint::SimpleMovingAverage => seq![req(Parameter::Ticker, true), req(Parameter::Timestamp, false), req(Parameter::From, false), req(Parameter::To, false), req(Parameter::Timespan, false), req(Parameter::Adjusted, false), req(Parameter::Window, false), req(Parameter::SeriesType, false), req(Parameter::ExpandUnderlying, false), req(Parameter::Order, false), req(Parameter::Limit, false)],
        }
    }

    pub fn requirements(&self) -> (r: Vec<ParameterRequirment>)
        ensures
            r@ == self.spec_requirements(),
    {
        let r = match self {
            Endpoint::CurrencyConversion => vec![ParameterRequirment { required: true, parameter: Parameter::Ticker }, ParameterRequirment { required: false, parameter: Parameter::Amount }, ParameterRequirment { required: false, parameter: Parameter::Precision }],
            Endpoint::GroupedBars => vec![ParameterRequirment { required: true, parameter: Parameter::Date }, ParameterRequirment { required: false, parameter: Parameter::Adjusted }, ParameterRequirment { required: false, parameter: Parameter::IncludeOTC }],
            Endpoint::LastTrade => vec![ParameterRequirment { required: true, parameter: Parameter::Ticker }],
            Endpoint::Previous => vec![ParameterRequirment { required: true, parameter: Parameter::Ticker }, ParameterRequirment { required: false, parameter: Parameter::Adjusted }],
            Endpoint::Quotes => vec![ParameterRequirment { required: true, parameter: Parameter::Ticker }, ParameterRequirment { required: false, parameter: Parameter::Timestamp }, ParameterRequirment { required: false, parameter: Parameter::From }, ParameterRequirment { required: false, parameter: Parameter::To }, ParameterRequirment { required: false, parameter: Parameter::Order }, ParameterRequirment { required: false, parameter: Parameter::Limit }, ParameterRequirment { required: false, parameter: Parameter::Sortv3 }],
            Endpoint::Trades => vec![ParameterRequirment { required: true, parameter: Parameter::Ticker }, ParameterRequirment { required: false, parameter: Parameter::Timestamp }, ParameterRequirment { required: false, parameter: Parameter::From }, ParameterRequirment { required: false, parameter: Parameter::To }, ParameterRequirment { required: false, parameter: Parameter::Order }, ParameterRequirment { required: false, parameter: Parameter::Limit }, ParameterRequirment { required: false, parameter: Parameter::Sortv3 }],
            Endpoint::GainersLosers => vec![ParameterRequirment { required: true, parameter: Parameter::TickerType }, ParameterRequirment { required: true, parameter: Parameter::Direction }, ParameterRequirment { required: false, parameter: Parameter::IncludeOTC }],
            Endpoint::SimpleMovingAverage => vec![ParameterRequirment { required: true, parameter: Parameter::Ticker }, ParameterRequirment { required: false, parameter: Parameter::Timestamp }, ParameterRequirment { required: false, parameter: Parameter::From }, ParameterRequirment { required: false, parameter: Parameter::To }, ParameterRequirment { required: false, parameter: Parameter::Timespan }, ParameterRequirment { required: false, parameter: Parameter::Adjusted }, ParameterRequirment { required: false, parameter: Parameter::Window }, ParameterRequirment { required: false, parameter: Parameter::SeriesType }, ParameterRequirment { required: false, parameter: Parameter::ExpandUnderlying }, ParameterRequirment { required: false, parameter: Parameter::Order }, ParameterRequirment { required: false, parameter: Parameter::Limit }],
        };
        assert(r@ =~= self.spec_requirements());
        r
    }

    /// The ticker classes the endpoint accepts, or `None` when the
    /// parameters name a ticker class that the endpoint cannot serve.
    pub open spec fn spec_allowed_classes(self, ps: &Parameters) -> Option<TickerTypes> {
        match self {
            Endpoint::CurrencyConversion => Some(TickerTypes::spec_set(false, false, false, true, false)),
            Endpoint::GroupedBars => Some(TickerTypes::spec_set(true, false, false, true, true)),
            Endpoint::LastTrade => Some(TickerTypes::spec_set(true, false, false, false, false)),
            Endpoint::Previous => Some(TickerTypes::spec_set(true, true, true, true, true)),
            Endpoint::Quotes => Some(TickerTypes::spec_set(true, true, false, false, false)),
            Endpoint::Trades => Some(TickerTypes::spec_set(true, true, false, false, true)),
            Endpoint::SimpleMovingAverage => Some(TickerTypes::spec_set(true, true, true, true, true)),
            Endpoint::GainersLosers => match ps.ticker_type {
                None => Some(TickerTypes::spec_set(true, false, false, true, true)),
                Some(TickerType::Stocks) => Some(TickerTypes::spec_set(true, false, false, false, false)),
                Some(TickerType::Forex) => Some(TickerTypes::spec_set(false, false, false, true, false)),
                Some(TickerType::Crypto) => Some(TickerTypes::spec_set(false, false, false, false, true)),
                Some(_) => None,
            },
        }
    }

    pub fn allowed_classes(&self, ps: &Parameters) -> (r: Option<TickerTypes>)
        ensures
            r == self.spec_allowed_classes(ps),
    {
        match self {
            Endpoint::CurrencyConversion => Some(TickerTypes::forex()),
            Endpoint::GroupedBars => Some(TickerTypes::set(true, false, false, true, true)),
            Endpoint::LastTrade => Some(TickerTypes::stocks()),
            Endpoint::Previous => Some(TickerTypes::all()),
            Endpoint::Quotes => Some(TickerTypes::set(true, true, false, false, false)),
            Endpoint::Trades => Some(TickerTypes::set(true, true, false, false, true)),
            Endpoint::SimpleMovingAverage => Some(TickerTypes::all()),
            Endpoint::GainersLosers => match ps.ticker_type {
                None => Some(TickerTypes::set(true, false, false, true, true)),
                Some(TickerType::Stocks) => Some(TickerTypes::stocks()),
                Some(TickerType::Forex) => Some(TickerTypes::forex()),
                Some(TickerType::Crypto) => Some(TickerTypes::crypto()),
                Some(_) => None,
            },
        }
    }

    /// The URL for `ps`, or the error that keeps it from being built.
    pub open spec fn spec_url(self, ps: &Parameters) -> Result<Seq<char>, ErrorCode> {
        match self {
            Endpoint::CurrencyConversion => currency_conversion_url(ps),
            Endpoint::GroupedBars => grouped_bars_url(ps),
            Endpoint::LastTrade => last_trade_url(ps),
            Endpoint::Previous => previous_url(ps),
            Endpoint::Quotes => tick_url("https://api.polygon.io/v3/quotes/"@, ps),
            Endpoint::Trades => tick_url("https://api.polygon.io/v3/trades/"@, ps),
            Endpoint::GainersLosers => gainers_losers_url(ps),
            Endpoint::SimpleMovingAverage => simple_moving_average_url(ps),
        }
    }

    /// Builds the request URL: fixed host and path, one `key=value&`
    /// segment per present parameter in table order, and the API key last.
    /// Values are written as they are, without percent-encoding. Enumerated
    /// values are written in the lower-case form the API documents
    /// (`order=asc`, `sort=expiration_date`, `timespan=quarter`), on every
    /// endpoint alike.
    pub fn build_url(&self, ps: &Parameters) -> (r: Result<String, ErrorCode>)
        ensures
            same_url(r, self.spec_url(ps)),
    {
        match self {
            Endpoint::CurrencyConversion => currency_conversion(ps),
            Endpoint::GroupedBars => grouped_bars(ps),
            Endpoint::LastTrade => last_trade(ps),
            Endpoint::Previous => previous(ps),
            Endpoint::Quotes => tick("https://api.polygon.io/v3/quotes/", ps),
            Endpoint::Trades => tick("https://api.polygon.io/v3/trades/", ps),
            Endpoint::GainersLosers => gainers_losers(ps),
            Endpoint::SimpleMovingAverage => simple_moving_average(ps),
        }
    }

    /// What preparing a call gives: an empty API key is refused first, then
    /// the parameters are checked, and the URL is built only when they pass.
    pub open spec fn spec_prepare(self, ps: &Parameters) -> Result<Seq<char>, ErrorCode> {
        if ps.api_key@.len() == 0 {
            Err(ErrorCode::ParameterNotSet(Parameter::ApiKey))
        } else {
            self.spec_checked_url(ps)
        }
    }

    /// The check against the endpoint, then the URL.
    pub open spec fn spec_checked_url(self, ps: &Parameters) -> Result<Seq<char>, ErrorCode> {
        match self.spec_allowed_classes(ps) {
            None => Err(ErrorCode::TickerTypeNotValidForCall),
            Some(allowed) => match spec_check(allowed, self.spec_requirements(), ps) {
                Err(e) => Err(e),
                Ok(_) => self.spec_url(ps),
            },
        }
    }

    /// Checks `ps` against this endpoint and builds the URL to request.
    pub fn prepare(&self, ps: &Parameters) -> (r: Result<String, ErrorCode>)
        ensures
            same_url(r, self.spec_prepare(ps)),
    {
        if !ps.has(Parameter::ApiKey) {
            return Err(ErrorCode::ParameterNotSet(Parameter::ApiKey));
        }
        let allowed = match self.allowed_classes(ps) {
            None => {
                return Err(ErrorCode::TickerTypeNotValidForCall);
            },
            Some(a) => a,
        };
        let reqs = self.requirements();
        match check_parameters(&allowed, reqs.as_slice(), ps) {
            Err(e) => Err(e),
            Ok(_) => self.build_url(ps),
        }
    }
}

/// No call is prepared without an API key: an empty key is refused with
/// `ParameterNotSet(ApiKey)`, whatever the other parameters hold.
pub proof fn lemma_empty_key_refused(e: Endpoint, ps: &Parameters)
    requires
        ps.api_key@.len() == 0,
    ensures
        e.spec_prepare(ps) == Err::<Seq<char>, ErrorCode>(ErrorCode::ParameterNotSet(Parameter::ApiKey)),
{
}

/// With a key, preparing a call fails with `TickerTypeNotValidForCall`
/// whenever the ticker is unrecognized or of a class the endpoint does not
/// accept, whatever the other fields hold; the movers snapshot also refuses
/// the option and index classes this way.
pub proof fn lemma_prepare_disallowed_ticker(e: Endpoint, ps: &Parameters)
    requires
        ps.api_key@.len() > 0,
        match e.spec_allowed_classes(ps) {
            None => true,
            Some(allowed) => ps.ticker is Some && match spec_classify(ps.ticker.unwrap()@) {
                Some(c) => !allowed.allows(c),
                None => true,
            },
        },
    ensures
        e.spec_prepare(ps) == Err::<Seq<char>, ErrorCode>(ErrorCode::TickerTypeNotValidForCall),
{
}

/// With a key and a ticker that the endpoint accepts (or none), preparing a
/// call fails with `ParameterNotSet` naming the first required parameter
/// that is absent.
pub proof fn lemma_prepare_required_absent(e: Endpoint, ps: &Parameters, i: int)
    requires
        ps.api_key@.len() > 0,
        e.spec_allowed_classes(ps) is Some,
        ticker_error(e.spec_allowed_classes(ps).unwrap(), e.spec_requirements(), ps) is None,
        0 <= i < e.spec_requirements().len(),
        is_missing(e.spec_requirements(), ps, i),
        forall|j: int| 0 <= j < i ==> !is_missing(e.spec_requirements(), ps, j),
    ensures
        e.spec_prepare(ps) == Err::<Seq<char>, ErrorCode>(
            ErrorCode::ParameterNotSet(e.spec_requirements()[i].parameter),
        ),
{
    lemma_required_absent_fails(e.spec_allowed_classes(ps).unwrap(), e.spec_requirements(), ps, i);
}

/// Building a URL is deterministic: two builds from the same endpoint and
/// the same parameters give the same text, or the same error.
pub proof fn lemma_build_deterministic(
    e: Endpoint,
    ps: &Parameters,
    r1: Result<String, ErrorCode>,
    r2: Result<String, ErrorCode>,
)
    requires
        same_url(r1, e.spec_url(ps)),
        same_url(r2, e.spec_url(ps)),
    ensures
        r1 is Ok <==> r2 is Ok,
        r1 is Ok ==> r1->Ok_0@ == r2->Ok_0@,
        r1 is Err ==> r1 == r2,
{
}

/// The parameters with the single timestamp taken out.
pub open spec fn without_timestamp(ps: Parameters) -> Parameters {
    Parameters { timestamp: None, ..ps }
}

/// When a range bound is present, the timestamp is left out of the URL:
/// the URL is the one built with no timestamp at all.
pub proof fn lemma_range_suppresses_timestamp(e: Endpoint, ps: Parameters)
    requires
        ps.from is Some || ps.to is Some,
    ensures
        e.spec_url(&ps) == e.spec_url(&without_timestamp(ps)),
{
    assert(range_segs(&ps) == range_segs(&without_timestamp(ps)));
}

} // verus!
