use crate::error::{
    error_text, illegal_metric_name_text, illegal_selector_text, invalid_time_duration_text,
    Error, IllegalMetricNameError, IllegalTimeSeriesSelectorError,
    InvalidTimeDurationError, ResponseError, UnknownResponseStatus, UnsupportedResponseDataType,
};
use reqwest::Error as HttpError;
use vstd::prelude::*;
use vstd::std_specs::cmp::PartialEqSpec;
use vstd::std_specs::convert::FromSpec;

verus! {

/// Two errors are the same failure when they are the same case with equal
/// payloads, the strings compared by their characters.
pub open spec fn same_failure(a: Error, b: Error) -> bool {
    match (a, b) {
        (Error::IllegalMetricName, Error::IllegalMetricName) => true,
        (Error::InvalidTimeDuration, Error::InvalidTimeDuration) => true,
        (Error::IllegalTimeSeriesSelector, Error::IllegalTimeSeriesSelector) => true,
        (Error::Reqwest(x), Error::Reqwest(y)) => x == y,
        (Error::ResponseError(x), Error::ResponseError(y)) => x@ == y@,
        (Error::UnsupportedResponseDataType(x), Error::UnsupportedResponseDataType(y)) => x@ == y@,
        (Error::UnknownResponseStatus(x), Error::UnknownResponseStatus(y)) => x@ == y@,
        _ => false,
    }
}

/// Errors of the same case with equal payloads render identically.
pub proof fn lemma_same_failure_same_text(a: Error, b: Error)
    requires
        same_failure(a, b),
    ensures
        forall|t: Seq<char>| #[trigger] error_text(a, t) == error_text(b, t),
{
}

/// Response-shape errors with equal payloads compare equal, and errors whose
/// payloads differ do not.
pub proof fn lemma_payload_equality(
    a: ResponseError,
    b: ResponseError,
    c: UnsupportedResponseDataType,
    d: UnsupportedResponseDataType,
    s: UnknownResponseStatus,
    t: UnknownResponseStatus,
)
    ensures
        a.eq_spec(&b) <==> (a.kind@ == b.kind@ && a.message@ == b.message@),
        c.eq_spec(&d) <==> c.0@ == d.0@,
        s.eq_spec(&t) <==> s.0@ == t.0@,
{
}

/// Each validation error has exactly one value, so any two of a kind are equal.
pub proof fn lemma_validation_errors_singleton(
    a: IllegalMetricNameError,
    b: IllegalMetricNameError,
    c: InvalidTimeDurationError,
    d: InvalidTimeDurationError,
    s: IllegalTimeSeriesSelectorError,
    t: IllegalTimeSeriesSelectorError,
)
    ensures
        a == b,
        c == d,
        s == t,
{
}

/// A wrapped transport error renders exactly as the transport error itself:
/// whatever text that error renders as is the whole message.
pub proof fn lemma_transport_text_passes_through(e: HttpError, transport: Seq<char>)
    ensures
        error_text(Error::Reqwest(e), transport) == transport,
{
}

/// Embedding a validation error into [`Error`] yields the matching case, and
/// the result renders as the validation error does.
pub proof fn lemma_embedding_is_lossless(
    a: IllegalMetricNameError,
    b: InvalidTimeDurationError,
    c: IllegalTimeSeriesSelectorError,
    t: Seq<char>,
)
    ensures
        <Error as FromSpec<IllegalMetricNameError>>::from_spec(a) == Error::IllegalMetricName,
        error_text(<Error as FromSpec<IllegalMetricNameError>>::from_spec(a), t)
            == illegal_metric_name_text(),
        <Error as FromSpec<InvalidTimeDurationError>>::from_spec(b) == Error::InvalidTimeDuration,
        error_text(<Error as FromSpec<InvalidTimeDurationError>>::from_spec(b), t)
            == invalid_time_duration_text(),
        <Error as FromSpec<IllegalTimeSeriesSelectorError>>::from_spec(c)
            == Error::IllegalTimeSeriesSelector,
        error_text(<Error as FromSpec<IllegalTimeSeriesSelectorError>>::from_spec(c), t)
            == illegal_selector_text(),
{
}

} // verus!
