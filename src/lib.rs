//! Error taxonomy of a client for a Prometheus-style HTTP query API.
//!
//! Every failure that a caller of the client can observe is one case of the
//! closed enum [`Error`]; each case renders as a fixed, single-line message.
pub mod error;
pub mod laws;

pub use error::{
    Error, IllegalMetricNameError, IllegalTimeSeriesSelectorError, InvalidTimeDurationError,
    ResponseError, UnknownResponseStatus, UnsupportedResponseDataType,
};
