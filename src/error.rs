use reqwest::Error as HttpError;
use vstd::prelude::*;

verus! {

/// The message of [`IllegalMetricNameError`].
pub open spec fn illegal_metric_name_text() -> Seq<char> {
    "the provided metric name is a reserved PromQL keyword"@
}

/// The message of [`InvalidTimeDurationError`].
pub open spec fn invalid_time_duration_text() -> Seq<char> {
    "the provided time duration is invalid as it does not comply with PromQL time duration syntax"@
}

/// The message of [`IllegalTimeSeriesSelectorError`].
pub open spec fn illegal_selector_text() -> Seq<char> {
    "vector selectors must either specify a name or at least one label matcher that does not match the empty string"@
}

/// The message of a [`ResponseError`] with the given error type and message.
pub open spec fn response_error_text(kind: Seq<char>, message: Seq<char>) -> Seq<char> {
    "the JSON response contains an error of type "@ + kind + ": "@ + message
}

/// The message of an [`UnsupportedResponseDataType`] for the given data type.
pub open spec fn unsupported_data_type_text(data_type: Seq<char>) -> Seq<char> {
    "the API returned an unsupported type of data, is '"@ + data_type
        + "', must be either 'vector' or 'matrix'"@
}

/// The message of an [`UnknownResponseStatus`] for the given status.
/// The space before the comma belongs to the established message and is kept.
pub open spec fn unknown_status_text(status: Seq<char>) -> Seq<char> {
    "the API returned an unknown response status , is '"@ + status
        + "', must be either 'success' or 'error'"@
}

/// The error type of the HTTP client, carried through unchanged.
#[verifier::external_type_specification]
#[verifier::external_body]
pub struct ExReqwestError(HttpError);

/// Relies on reqwest's `Display` impl for `reqwest::Error` (reached through
/// `ToString`). Nothing is promised of the text: it ends with the error's
/// source, rendered by code outside reqwest.
#[verifier::external_body]
fn reqwest_to_string(e: &HttpError) -> (r: String) {
    e.to_string()
}

/// This error is thrown when a reserved PromQL keyword is used
/// as metric name in a `Selector`.
#[derive(Debug, Clone, Copy, PartialEq, Eq, Structural)]
pub struct IllegalMetricNameError;

impl IllegalMetricNameError {
    /// The human-readable message of this error.
    pub fn to_string(&self) -> (r: String)
        ensures
            r@ == illegal_metric_name_text(),
    {
        String::from_str("the provided metric name is a reserved PromQL keyword")
    }
}

/// This error is thrown when a time duration is invalidated or empty.
/// See the [Prometheus reference](https://prometheus.io/docs/prometheus/latest/querying/basics/#time-durations)
/// for the correct time duration syntax.
#[derive(Debug, Clone, Copy, PartialEq, Eq, Structural)]
pub struct InvalidTimeDurationError;

impl InvalidTimeDurationError {
    /// The human-readable message of this error.
    pub fn to_string(&self) -> (r: String)
        ensures
            r@ == invalid_time_duration_text(),
    {
        String::from_str(
            "the provided time duration is invalid as it does not comply with PromQL time duration syntax",
        )
    }
}

/// This error is thrown when a `Selector` cannot be constructed from the
/// provided metric name and/or the list of labels.
#[derive(Debug, Clone, Copy, PartialEq, Eq, Structural)]
pub struct IllegalTimeSeriesSelectorError;

impl IllegalTimeSeriesSelectorError {
    /// The human-readable message of this error.
    pub fn to_string(&self) -> (r: String)
        ensures
            r@ == illegal_selector_text(),
    {
        String::from_str(
            "vector selectors must either specify a name or at least one label matcher that does not match the empty string",
        )
    }
}

/// This error is thrown when the JSON response's "status" field contains "error".
/// The error-related information in the response is included in this error.
#[derive(Debug, Clone)]
pub struct ResponseError {
    pub kind: String,
    pub message: String,
}

impl View for ResponseError {
    type V = (Seq<char>, Seq<char>);

    open spec fn view(&self) -> (Seq<char>, Seq<char>) {
        (self.kind@, self.message@)
    }
}

impl ResponseError {
    /// The human-readable message of this error.
    pub fn to_string(&self) -> (r: String)
        ensures
            r@ == response_error_text(self.kind@, self.message@),
    {
        let mut s = String::from_str("the JSON response contains an error of type ");
        s.append(self.kind.as_str());
        s.append(": ");
        s.append(self.message.as_str());
        s
    }
}

impl PartialEq for ResponseError {
    fn eq(&self, other: &ResponseError) -> (r: bool)
        ensures
            r == (self@ == other@),
    {
        self.kind == other.kind && self.message == other.message
    }
}

impl vstd::std_specs::cmp::PartialEqSpecImpl for ResponseError {
    open spec fn obeys_eq_spec() -> bool {
        true
    }

    open spec fn eq_spec(&self, other: &ResponseError) -> bool {
        self@ == other@
    }
}

impl Eq for ResponseError {}

/// This error is thrown when the JSON response's "data.resultType" field indicates
/// an unsupported data format that is not expected for this type of request.
/// For instant and range queries this must be either "vector" or "matrix".
#[derive(Debug, Clone)]
pub struct UnsupportedResponseDataType(pub String);

impl View for UnsupportedResponseDataType {
    type V = Seq<char>;

    open spec fn view(&self) -> Seq<char> {
        self.0@
    }
}

impl UnsupportedResponseDataType {
    /// The human-readable message of this error.
    pub fn to_string(&self) -> (r: String)
        ensures
            r@ == unsupported_data_type_text(self@),
    {
        let mut s = String::from_str("the API returned an unsupported type of data, is '");
        s.append(self.0.as_str());
        s.append("', must be either 'vector' or 'matrix'");
        s
    }
}

impl PartialEq for UnsupportedResponseDataType {
    fn eq(&self, other: &UnsupportedResponseDataType) -> (r: bool)
        ensures
            r == (self@ == other@),
    {
        self.0 == other.0
    }
}

impl vstd::std_specs::cmp::PartialEqSpecImpl for UnsupportedResponseDataType {
    open spec fn obeys_eq_spec() -> bool {
        true
    }

    open spec fn eq_spec(&self, other: &UnsupportedResponseDataType) -> bool {
        self@ == other@
    }
}

impl Eq for UnsupportedResponseDataType {}

/// This error is thrown when the JSON response's "status" field contains an
/// unexpected value. As per the Prometheus reference this must be either "success" or "error".
#[derive(Debug, Clone)]
pub struct UnknownResponseStatus(pub String);

impl View for UnknownResponseStatus {
    type V = Seq<char>;

    open spec fn view(&self) -> Seq<char> {
        self.0@
    }
}

impl UnknownResponseStatus {
    /// The human-readable message of this error.
    pub fn to_string(&self) -> (r: String)
        ensures
            r@ == unknown_status_text(self@),
    {
        let mut s = String::from_str("the API returned an unknown response status , is '");
        s.append(self.0.as_str());
        s.append("', must be either 'success' or 'error'");
        s
    }
}

impl PartialEq for UnknownResponseStatus {
    fn eq(&self, other: &UnknownResponseStatus) -> (r: bool)
        ensures
            r == (self@ == other@),
    {
        self.0 == other.0
    }
}

impl vstd::std_specs::cmp::PartialEqSpecImpl for UnknownResponseStatus {
    open spec fn obeys_eq_spec() -> bool {
        true
    }

    open spec fn eq_spec(&self, other: &UnknownResponseStatus) -> bool {
        self@ == other@
    }
}

impl Eq for UnknownResponseStatus {}

/// A global error enum that encapsulates other more specific
/// types of errors.
#[derive(Debug)]
pub enum Error {
    IllegalMetricName,
    InvalidTimeDuration,
    IllegalTimeSeriesSelector,
    Reqwest(HttpError),
    ResponseError(ResponseError),
    UnsupportedResponseDataType(UnsupportedResponseDataType),
    UnknownResponseStatus(UnknownResponseStatus),
}

/// The message of an [`Error`], given the text that the wrapped transport
/// error renders as: a transport error renders as exactly that text, and
/// every other case as its own error does.
pub open spec fn error_text(e: Error, transport: Seq<char>) -> Seq<char> {
    match e {
        Error::IllegalMetricName => illegal_metric_name_text(),
        Error::InvalidTimeDuration => invalid_time_duration_text(),
        Error::IllegalTimeSeriesSelector => illegal_selector_text(),
        Error::Reqwest(_) => transport,
        Error::ResponseError(r) => response_error_text(r.kind@, r.message@),
        Error::UnsupportedResponseDataType(d) => unsupported_data_type_text(d@),
        Error::UnknownResponseStatus(s) => unknown_status_text(s@),
    }
}

impl Error {
    /// The human-readable message of this error, where `transport` is what
    /// the wrapped transport error renders as; it is used for that case only.
    pub fn render(&self, transport: &str) -> (r: String)
        ensures
            r@ == error_text(*self, transport@),
    {
        match self {
            Error::IllegalMetricName => IllegalMetricNameError.to_string(),
            Error::InvalidTimeDuration => InvalidTimeDurationError.to_string(),
            Error::IllegalTimeSeriesSelector => IllegalTimeSeriesSelectorError.to_string(),
            Error::Reqwest(_) => String::from_str(transport),
            Error::ResponseError(e) => e.to_string(),
            Error::UnsupportedResponseDataType(e) => e.to_string(),
            Error::UnknownResponseStatus(e) => e.to_string(),
        }
    }

    /// The human-readable message of this error: that of the wrapped or
    /// corresponding specific error, unmodified. A transport error is
    /// rendered by the HTTP client and its text handed to [`Error::render`].
    pub fn to_string(&self) -> (r: String)
        ensures
            !(*self is Reqwest) ==> forall|t: Seq<char>| r@ == #[trigger] error_text(*self, t),
    {
        let transport = match self {
            Error::Reqwest(e) => reqwest_to_string(e),
            _ => String::new(),
        };
        self.render(transport.as_str())
    }
}

impl From<IllegalMetricNameError> for Error {
    fn from(e: IllegalMetricNameError) -> (r: Error)
        ensures
            r == Error::IllegalMetricName,
    {
        Error::IllegalMetricName
    }
}

impl vstd::std_specs::convert::FromSpecImpl<IllegalMetricNameError> for Error {
    open spec fn obeys_from_spec() -> bool {
        true
    }

    open spec fn from_spec(e: IllegalMetricNameError) -> Error {
        Error::IllegalMetricName
    }
}

impl From<InvalidTimeDurationError> for Error {
    fn from(e: InvalidTimeDurationError) -> (r: Error)
        ensures
            r == Error::InvalidTimeDuration,
    {
        Error::InvalidTimeDuration
    }
}

impl vstd::std_specs::convert::FromSpecImpl<InvalidTimeDurationError> for Error {
    open spec fn obeys_from_spec() -> bool {
        true
    }

    open spec fn from_spec(e: InvalidTimeDurationError) -> Error {
        Error::InvalidTimeDuration
    }
}

impl From<IllegalTimeSeriesSelectorError> for Error {
    fn from(e: IllegalTimeSeriesSelectorError) -> (r: Error)
        ensures
            r == Error::IllegalTimeSeriesSelector,
    {
        Error::IllegalTimeSeriesSelector
    }
}

impl vstd::std_specs::convert::FromSpecImpl<IllegalTimeSeriesSelectorError> for Error {
    open spec fn obeys_from_spec() -> bool {
        true
    }

    open spec fn from_spec(e: IllegalTimeSeriesSelectorError) -> Error {
        Error::IllegalTimeSeriesSelector
    }
}

} // verus!
