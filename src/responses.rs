use vstd::prelude::*;

use crate::endpoint::same_url;
use crate::error::ErrorCode;
use crate::parameters::Parameter;
use crate::json::{
    array_parse, bool_parse, i64_parse, key1, key2, number_parse, object, object_parse,
    opt_vec_is, spec_array, spec_bool, spec_i64, spec_number, spec_object, spec_record,
    spec_string, string_parse, JsonObject, Number,
};
use crate::records::{Bar, MovingAverage, Quote, Ticker, Trade};

verus! {

/// Where the next page is: the carried link with the API key appended.
/// Without a link there is no next page; with one, an empty key is refused.
pub open spec fn spec_page_url(next: Option<String>, api_key: Seq<char>) -> Result<
    Seq<char>,
    ErrorCode,
> {
    match next {
        None => Err(ErrorCode::NoNextPage),
        Some(u) => if api_key.len() == 0 {
            Err(ErrorCode::ParameterNotSet(Parameter::ApiKey))
        } else {
            Ok(u@ + "&apiKey="@ + api_key)
        },
    }
}

pub fn page_url(next: &Option<String>, api_key: &str) -> (r: Result<String, ErrorCode>)
    ensures
        same_url(r, spec_page_url(*next, api_key@)),
{
    match next {
        Some(u) => {
            if api_key.unicode_len() == 0 {
                return Err(ErrorCode::ParameterNotSet(Parameter::ApiKey));
            }
            let mut url = u.clone();
            url.append("&apiKey=");
            url.append(api_key);
            Ok(url)
        },
        None => Err(ErrorCode::NoNextPage),
    }
}

/// The result of converting an amount between two currencies.
#[derive(Debug)]
pub struct CurrencyConversion {
    pub to: Option<String>,
    pub from: Option<String>,
    pub request_id: Option<String>,
    pub quote: Option<Quote>,
    pub status: Option<String>,
    pub symbol: Option<String>,
    pub initial_amount: Option<Number>,
    pub converted: Option<Number>,
}

impl CurrencyConversion {
    /// `self` is what `obj` reads as.
    pub open spec fn read_from(&self, obj: JsonObject) -> bool {
        &&& self.to == spec_string(obj, seq!["to"])
        &&& self.from == spec_string(obj, seq!["from"])
        &&& self.request_id == spec_string(obj, seq!["request_id"])
        &&& self.quote == spec_record::<Quote>(obj, seq!["last"])
        &&& self.status == spec_string(obj, seq!["status"])
        &&& self.symbol == spec_string(obj, seq!["symbol"])
        &&& self.initial_amount == spec_number(obj, seq!["initialAmount"])
        &&& self.converted == spec_number(obj, seq!["converted"])
    }

    /// Reads the object; a missing or mistyped member leaves its field `None`.
    pub fn parse(obj: &JsonObject) -> (r: Self)
        ensures
            r.read_from(*obj),
    {
        let to = string_parse(obj, &key1("to"));
        let from = string_parse(obj, &key1("from"));
        let request_id = string_parse(obj, &key1("request_id"));
        let quote = object_parse::<Quote>(obj, &key1("last"));
        let status = string_parse(obj, &key1("status"));
        let symbol = string_parse(obj, &key1("symbol"));
        let initial_amount = number_parse(obj, &key1("initialAmount"));
        let converted = number_parse(obj, &key1("converted"));
        CurrencyConversion { to, from, request_id, quote, status, symbol, initial_amount, converted }
    }
}

/// The daily bars of a whole market.
#[derive(Debug)]
pub struct GroupedBars {
    pub adjusted: Option<bool>,
    pub bars: Option<Vec<Bar>>,
    pub status: Option<String>,
    pub results_count: Option<i64>,
    pub query_count: Option<i64>,
}

impl GroupedBars {
    /// `self` is what `obj` reads as.
    pub open spec fn read_from(&self, obj: JsonObject) -> bool {
        &&& self.adjusted == spec_bool(obj, seq!["adjusted"])
        &&& opt_vec_is(self.bars, spec_array::<Bar>(obj, seq!["bars", "results"]))
        &&& self.status == spec_string(obj, seq!["status"])
        &&& self.results_count == spec_i64(obj, seq!["resultsCount"])
        &&& self.query_count == spec_i64(obj, seq!["queryCount"])
    }

    /// Reads the object; a missing or mistyped member leaves its field `None`.
    pub fn parse(obj: &JsonObject) -> (r: Self)
        ensures
            r.read_from(*obj),
    {
        let adjusted = bool_parse(obj, &key1("adjusted"));
        let bars = array_parse::<Bar>(obj, &key2("bars", "results"));
        let status = string_parse(obj, &key1("status"));
        let results_count = i64_parse(obj, &key1("resultsCount"));
        let query_count = i64_parse(obj, &key1("queryCount"));
        GroupedBars { adjusted, bars, status, results_count, query_count }
    }
}

/// The previous day's bar of a ticker.
#[derive(Debug)]
pub struct Previous {
    pub adjusted: Option<bool>,
    pub query_count: Option<i64>,
    pub request_id: Option<String>,
    pub results: Option<Vec<Bar>>,
    pub results_count: Option<i64>,
    pub status: Option<String>,
    pub ticker: Option<String>,
}

impl Previous {
    /// `self` is what `obj` reads as.
    pub open spec fn read_from(&self, obj: JsonObject) -> bool {
        &&& self.adjusted == spec_bool(obj, seq!["adjusted"])
        &&& self.query_count == spec_i64(obj, seq!["queryCount"])
        &&& self.request_id == spec_string(obj, seq!["request_id"])
        &&& opt_vec_is(self.results, spec_array::<Bar>(obj, seq!["results"]))
        &&& self.results_count == spec_i64(obj, seq!["resultsCount"])
        &&& self.status == spec_string(obj, seq!["status"])
        &&& self.ticker == spec_string(obj, seq!["ticker"])
    }

    /// Reads the object; a missing or mistyped member leaves its field `None`.
    pub fn parse(obj: &JsonObject) -> (r: Self)
        ensures
            r.read_from(*obj),
    {
        let adjusted = bool_parse(obj, &key1("adjusted"));
        let query_count = i64_parse(obj, &key1("queryCount"));
        let request_id = string_parse(obj, &key1("request_id"));
        let results = array_parse::<Bar>(obj, &key1("results"));
        let results_count = i64_parse(obj, &key1("resultsCount"));
        let status = string_parse(obj, &key1("status"));
        let ticker = string_parse(obj, &key1("ticker"));
        Previous { adjusted, query_count, request_id, results, results_count, status, ticker }
    }
}

/// A page of quotes.
#[derive(Debug)]
pub struct Quotes {
    pub next_url: Option<String>,
    pub request_id: Option<String>,
    pub quotes: Option<Vec<Quote>>,
    pub status: Option<String>,
}

impl Quotes {
    /// `self` is what `obj` reads as.
    pub open spec fn read_from(&self, obj: JsonObject) -> bool {
        &&& self.next_url == spec_string(obj, seq!["next_url"])
        &&& self.request_id == spec_string(obj, seq!["request_id"])
        &&& opt_vec_is(self.quotes, spec_array::<Quote>(obj, seq!["results"]))
        &&& self.status == spec_string(obj, seq!["status"])
    }

    /// Reads the object; a missing or mistyped member leaves its field `None`.
    pub fn parse(obj: &JsonObject) -> (r: Self)
        ensures
            r.read_from(*obj),
    {
        let next_url = string_parse(obj, &key1("next_url"));
        let request_id = string_parse(obj, &key1("request_id"));
        let quotes = array_parse::<Quote>(obj, &key1("results"));
        let status = string_parse(obj, &key1("status"));
        Quotes { next_url, request_id, quotes, status }
    }

    /// The URL of the next page: the carried link with the API key
    /// appended; `NoNextPage` when there is no link, and
    /// `ParameterNotSet(ApiKey)` when there is one but the key is empty.
    pub fn next_page_url(&self, api_key: &str) -> (r: Result<String, ErrorCode>)
        ensures
            same_url(r, spec_page_url(self.next_url, api_key@)),
    {
        page_url(&self.next_url, api_key)
    }

    /// Replaces this page with the one decoded from `page`.
    pub fn load_page(&mut self, page: &JsonObject)
        ensures
            final(self).read_from(*page),
    {
        *self = Self::parse(page);
    }
}

/// A page of trades.
#[derive(Debug)]
pub struct Trades {
    pub next_url: Option<String>,
    pub request_id: Option<String>,
    pub trades: Option<Vec<Trade>>,
    pub status: Option<String>,
}

impl Trades {
    /// `self` is what `obj` reads as.
    pub open spec fn read_from(&self, obj: JsonObject) -> bool {
        &&& self.next_url == spec_string(obj, seq!["next_url"])
        &&& self.request_id == spec_string(obj, seq!["request_id"])
        &&& opt_vec_is(self.trades, spec_array::<Trade>(obj, seq!["results"]))
        &&& self.status == spec_string(obj, seq!["status"])
    }

    /// Reads the object; a missing or mistyped member leaves its field `None`.
    pub fn parse(obj: &JsonObject) -> (r: Self)
        ensures
            r.read_from(*obj),
    {
        let next_url = string_parse(obj, &key1("next_url"));
        let request_id = string_parse(obj, &key1("request_id"));
        let trades = array_parse::<Trade>(obj, &key1("results"));
        let status = string_parse(obj, &key1("status"));
        Trades { next_url, request_id, trades, status }
    }

    /// The URL of the next page: the carried link with the API key
    /// appended; `NoNextPage` when there is no link, and
    /// `ParameterNotSet(ApiKey)` when there is one but the key is empty.
    pub fn next_page_url(&self, api_key: &str) -> (r: Result<String, ErrorCode>)
        ensures
            same_url(r, spec_page_url(self.next_url, api_key@)),
    {
        page_url(&self.next_url, api_key)
    }

    /// Replaces this page with the one decoded from `page`.
    pub fn load_page(&mut self, page: &JsonObject)
        ensures
            final(self).read_from(*page),
    {
        *self = Self::parse(page);
    }
}

/// The most recent trade of a ticker.
#[derive(Debug)]
pub struct LastTrade {
    pub request_id: Option<String>,
    pub results: Option<Trade>,
    pub status: Option<String>,
}

impl LastTrade {
    /// `self` is what `obj` reads as.
    pub open spec fn read_from(&self, obj: JsonObject) -> bool {
        &&& self.request_id == spec_string(obj, seq!["request_id"])
        &&& self.results == spec_record::<Trade>(obj, seq!["results"])
        &&& self.status == spec_string(obj, seq!["status"])
    }

    /// Reads the object; a missing or mistyped member leaves its field `None`.
    pub fn parse(obj: &JsonObject) -> (r: Self)
        ensures
            r.read_from(*obj),
    {
        let request_id = string_parse(obj, &key1("request_id"));
        let results = object_parse::<Trade>(obj, &key1("results"));
        let status = string_parse(obj, &key1("status"));
        LastTrade { request_id, results, status }
    }
}

/// The top movers of a market.
#[derive(Debug)]
pub struct GainersLosers {
    pub status: Option<String>,
    pub tickers: Option<Vec<Ticker>>,
}

impl GainersLosers {
    /// `self` is what `obj` reads as.
    pub open spec fn read_from(&self, obj: JsonObject) -> bool {
        &&& self.status == spec_string(obj, seq!["status"])
        &&& opt_vec_is(self.tickers, spec_array::<Ticker>(obj, seq!["tickers"]))
    }

    /// Reads the object; a missing or mistyped member leaves its field `None`.
    pub fn parse(obj: &JsonObject) -> (r: Self)
        ensures
            r.read_from(*obj),
    {
        let status = string_parse(obj, &key1("status"));
        let tickers = array_parse::<Ticker>(obj, &key1("tickers"));
        GainersLosers { status, tickers }
    }
}

/// A page of simple moving average values, with the bars they were
/// computed from.
#[derive(Debug)]
pub struct SimpleMovingAverage {
    pub next_url: Option<String>,
    pub request_id: Option<String>,
    pub status: Option<String>,
    pub bars: Option<Vec<Bar>>,
    pub bars_url: Option<String>,
    pub moving_average: Option<Vec<MovingAverage>>,
}

impl SimpleMovingAverage {
    /// `self` is what `obj` reads as: the bars, their link and the values
    /// sit inside the nested `results` object.
    pub open spec fn read_from(&self, obj: JsonObject) -> bool {
        &&& self.next_url == spec_string(obj, seq!["next_url"])
        &&& self.request_id == spec_string(obj, seq!["request_id"])
        &&& self.status == spec_string(obj, seq!["status"])
        &&& match spec_object(obj, seq!["results"]) {
            Some(res) => {
                &&& opt_vec_is(self.bars, spec_array::<Bar>(res, seq!["aggregates"]))
                &&& self.bars_url == spec_string(res, seq!["next_url"])
                &&& opt_vec_is(self.moving_average, spec_array::<MovingAverage>(res, seq!["values"]))
            },
            None => self.bars is None && self.bars_url is None && self.moving_average is None,
        }
    }

    /// Reads the object; a missing or mistyped member leaves its field `None`.
    pub fn parse(obj: &JsonObject) -> (r: Self)
        ensures
            r.read_from(*obj),
    {
        let next_url = string_parse(obj, &key1("next_url"));
        let request_id = string_parse(obj, &key1("request_id"));
        let status = string_parse(obj, &key1("status"));
        let (bars, bars_url, moving_average) = match object(obj, &key1("results")) {
            Some(res) => (
                array_parse::<Bar>(res, &key1("aggregates")),
                string_parse(res, &key1("next_url")),
                array_parse::<MovingAverage>(res, &key1("values")),
            ),
            None => (None, None, None),
        };
        SimpleMovingAverage { next_url, request_id, status, bars, bars_url, moving_average }
    }

    /// The URL of the next page: the carried link with the API key
    /// appended; `NoNextPage` when there is no link, and
    /// `ParameterNotSet(ApiKey)` when there is one but the key is empty.
    pub fn next_page_url(&self, api_key: &str) -> (r: Result<String, ErrorCode>)
        ensures
            same_url(r, spec_page_url(self.next_url, api_key@)),
    {
        page_url(&self.next_url, api_key)
    }

    /// Replaces this page with the one decoded from `page`.
    pub fn load_page(&mut self, page: &JsonObject)
        ensures
            final(self).read_from(*page),
    {
        *self = Self::parse(page);
    }
}

} // verus!
