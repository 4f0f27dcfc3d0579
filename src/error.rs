use vstd::prelude::*;

use crate::parameters::Parameter;

verus! {

/// Every failure that the public entry points report.
#[derive(Clone, Copy, Debug, PartialEq, Eq, Structural)]
pub enum ErrorCode {
    /// The endpoint needs a ticker and none was supplied.
    TickerNotSet,
    /// The ticker is unrecognized, malformed, or of a class the endpoint does not accept.
    TickerTypeNotValidForCall,
    /// A parameter that the endpoint requires is absent.
    ParameterNotSet(Parameter),
    /// The response body did not decode into the expected shape.
    FormatError,
    /// The response carries no link to a further page.
    NoNextPage,
    /// The HTTP layer failed.
    TransportError,
}

} // verus!
