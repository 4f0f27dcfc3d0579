//! A typed client core for a market-data REST API: parameter sets, the
//! per-endpoint requirement tables, a ticker classifier, a parameter
//! verifier, URL builders, a null-tolerant JSON extraction layer and
//! cursor pagination. Transport and JSON decoding are left to the caller,
//! which hands decoded bodies in as `Json` values.
use vstd::prelude::*;

pub mod endpoint;
pub mod error;
pub mod json;
pub mod parameters;
pub mod query;
pub mod records;
pub mod responses;
pub mod text;
pub mod ticker;
pub mod verification;

pub use endpoint::Endpoint;
pub use error::ErrorCode;
pub use json::{Json, JsonObject, Number, Parse};
pub use parameters::{
    ContractStyle, ContractType, Decimal, Direction, Order, Parameter, ParameterRequirment,
    Parameters, SeriesType, Sort, Sortv3, TickerType, TickerTypes, Timeframe, Timespan,
};
pub use records::{Ask, Bar, Bid, Details, MovingAverage, Quote, Ticker, Trade};
pub use responses::{
    CurrencyConversion, GainersLosers, GroupedBars, LastTrade, Previous, Quotes,
    SimpleMovingAverage, Trades,
};
pub use ticker::{classify, RegexPatterns};
pub use verification::check_parameters;

verus! {

} // verus!
