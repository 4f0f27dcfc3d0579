use vstd::prelude::*;

use crate::error::ErrorCode;
use crate::parameters::{Parameter, ParameterRequirment, Parameters, TickerTypes};
use crate::ticker::{classify, spec_classify};

verus! {

/// Some entry of the table marks the ticker as required.
pub open spec fn requires_ticker(reqs: Seq<ParameterRequirment>) -> bool {
    exists|i: int| 0 <= i < reqs.len() && #[trigger] reqs[i].required && reqs[i].parameter
        == Parameter::Ticker
}

/// Entry `i` is required and its parameter is absent.
pub open spec fn is_missing(reqs: Seq<ParameterRequirment>, ps: &Parameters, i: int) -> bool {
    reqs[i].required && !ps.is_set(reqs[i].parameter)
}

/// The parameter of the first required entry at or after `i` that is absent.
pub open spec fn first_missing_from(reqs: Seq<ParameterRequirment>, ps: &Parameters, i: int) -> Option<
    Parameter,
>
    decreases reqs.len() - i,
{
    if i < 0 || i >= reqs.len() {
        None
    } else if is_missing(reqs, ps, i) {
        Some(reqs[i].parameter)
    } else {
        first_missing_from(reqs, ps, i + 1)
    }
}

/// The verdict on the ticker alone: `None` when it passes.
pub open spec fn ticker_error(
    allowed: TickerTypes,
    reqs: Seq<ParameterRequirment>,
    ps: &Parameters,
) -> Option<ErrorCode> {
    match ps.ticker {
        Some(t) => match spec_classify(t@) {
            Some(c) => if allowed.allows(c) {
                None
            } else {
                Some(ErrorCode::TickerTypeNotValidForCall)
            },
            None => Some(ErrorCode::TickerTypeNotValidForCall),
        },
        None => if requires_ticker(reqs) {
            Some(ErrorCode::TickerNotSet)
        } else {
            None
        },
    }
}

/// The outcome of checking a parameter set against an endpoint: the ticker
/// first, then each required entry in table order; the first failure wins.
pub open spec fn spec_check(
    allowed: TickerTypes,
    reqs: Seq<ParameterRequirment>,
    ps: &Parameters,
) -> Result<(), ErrorCode> {
    match ticker_error(allowed, reqs, ps) {
        Some(e) => Err(e),
        None => match first_missing_from(reqs, ps, 0) {
            Some(p) => Err(ErrorCode::ParameterNotSet(p)),
            None => Ok(()),
        },
    }
}

fn table_requires_ticker(reqs: &[ParameterRequirment]) -> (r: bool)
    ensures
        r == requires_ticker(reqs@),
{
    let mut i: usize = 0;
    while i < reqs.len()
        invariant
            i <= reqs@.len(),
            forall|j: int|
                0 <= j < i ==> !(#[trigger] reqs@[j].required && reqs@[j].parameter
                    == Parameter::Ticker),
        decreases reqs@.len() - i,
    {
        if reqs[i].required && reqs[i].parameter == Parameter::Ticker {
            return true;
        }
        i = i + 1;
    }
    false
}

/// Checks `parameters` against an endpoint's accepted ticker classes and
/// requirement table, before any request is made.
pub fn check_parameters(
    allowed: &TickerTypes,
    requirements: &[ParameterRequirment],
    parameters: &Parameters,
) -> (r: Result<(), ErrorCode>)
    ensures
        r == spec_check(*allowed, requirements@, parameters),
{
    match &parameters.ticker {
        Some(t) => match classify(t.as_str()) {
            Some(c) => {
                if !allowed.accepts(c) {
                    return Err(ErrorCode::TickerTypeNotValidForCall);
                }
            },
            None => {
                return Err(ErrorCode::TickerTypeNotValidForCall);
            },
        },
        None => {
            if table_requires_ticker(requirements) {
                return Err(ErrorCode::TickerNotSet);
            }
        },
    }
    let mut i: usize = 0;
    while i < requirements.len()
        invariant
            i <= requirements@.len(),
            ticker_error(*allowed, requirements@, parameters) is None,
            first_missing_from(requirements@, parameters, 0) == first_missing_from(
                requirements@,
                parameters,
                i as int,
            ),
        decreases requirements@.len() - i,
    {
        let entry = requirements[i];
        assert(entry == requirements@[i as int]);
        if entry.required && !parameters.has(entry.parameter) {
            return Err(ErrorCode::ParameterNotSet(entry.parameter));
        }
        i = i + 1;
    }
    Ok(())
}

/// Every required entry before `i` is present.
pub proof fn lemma_first_missing_skips(reqs: Seq<ParameterRequirment>, ps: &Parameters, i: int)
    requires
        0 <= i <= reqs.len(),
        forall|j: int| 0 <= j < i ==> !is_missing(reqs, ps, j),
    ensures
        first_missing_from(reqs, ps, 0) == first_missing_from(reqs, ps, i),
    decreases i,
{
    if i > 0 {
        lemma_first_missing_skips(reqs, ps, i - 1);
    }
}

/// A required parameter that is absent always makes the check fail: with
/// `TickerNotSet` when it is the ticker, and otherwise with
/// `ParameterNotSet` naming it, once the ticker passes and no earlier
/// required entry is absent.
pub proof fn lemma_required_absent_fails(
    allowed: TickerTypes,
    reqs: Seq<ParameterRequirment>,
    ps: &Parameters,
    i: int,
)
    requires
        0 <= i < reqs.len(),
        reqs[i].required,
        !ps.is_set(reqs[i].parameter),
    ensures
        spec_check(allowed, reqs, ps) is Err,
        reqs[i].parameter == Parameter::Ticker ==> spec_check(allowed, reqs, ps) == Err::<
            (),
            ErrorCode,
        >(ErrorCode::TickerNotSet),
        ticker_error(allowed, reqs, ps) is None && (forall|j: int|
            0 <= j < i ==> !is_missing(reqs, ps, j)) ==> spec_check(allowed, reqs, ps) == Err::<
            (),
            ErrorCode,
        >(ErrorCode::ParameterNotSet(reqs[i].parameter)),
{
    if reqs[i].parameter == Parameter::Ticker {
        assert(requires_ticker(reqs));
    }
    if ticker_error(allowed, reqs, ps) is None {
        lemma_first_missing_reaches(reqs, ps, 0, i);
    }
    if ticker_error(allowed, reqs, ps) is None && (forall|j: int|
        0 <= j < i ==> !is_missing(reqs, ps, j)) {
        lemma_first_missing_skips(reqs, ps, i);
    }
}

/// A missing entry at `i` means some entry from `from` on is reported.
pub proof fn lemma_first_missing_reaches(
    reqs: Seq<ParameterRequirment>,
    ps: &Parameters,
    from: int,
    i: int,
)
    requires
        0 <= from <= i < reqs.len(),
        is_missing(reqs, ps, i),
    ensures
        first_missing_from(reqs, ps, from) is Some,
    decreases i - from,
{
    if from < i && !is_missing(reqs, ps, from) {
        lemma_first_missing_reaches(reqs, ps, from + 1, i);
    }
}

/// A ticker that is unrecognized or of a class the endpoint does not accept
/// makes the check fail with `TickerTypeNotValidForCall`, whatever the other
/// fields hold.
pub proof fn lemma_disallowed_ticker_fails(
    allowed: TickerTypes,
    reqs: Seq<ParameterRequirment>,
    ps: &Parameters,
)
    requires
        ps.ticker is Some,
        match spec_classify(ps.ticker.unwrap()@) {
            Some(c) => !allowed.allows(c),
            None => true,
        },
    ensures
        spec_check(allowed, reqs, ps) == Err::<(), ErrorCode>(ErrorCode::TickerTypeNotValidForCall),
{
}

} // verus!
