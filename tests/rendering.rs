use prometheus_http_query::{
    Error, IllegalMetricNameError, IllegalTimeSeriesSelectorError, InvalidTimeDurationError,
    ResponseError, UnknownResponseStatus, UnsupportedResponseDataType,
};

fn transport_error() -> reqwest::Error {
    reqwest::Client::new()
        .get("not a url")
        .build()
        .unwrap_err()
}

fn case_name(e: &Error) -> &'static str {
    match e {
        Error::IllegalMetricName => "illegal metric name",
        Error::InvalidTimeDuration => "invalid time duration",
        Error::IllegalTimeSeriesSelector => "illegal selector",
        Error::Reqwest(_) => "transport",
        Error::ResponseError(_) => "server reported",
        Error::UnsupportedResponseDataType(_) => "unsupported data type",
        Error::UnknownResponseStatus(_) => "unknown status",
    }
}

#[test]
fn illegal_metric_name_message_is_fixed() {
    let expected = "the provided metric name is a reserved PromQL keyword";
    assert_eq!(IllegalMetricNameError.to_string(), expected);
    assert_eq!(Error::IllegalMetricName.to_string(), expected);
    assert_eq!(Error::IllegalMetricName.to_string(), Error::IllegalMetricName.to_string());
}

#[test]
fn invalid_time_duration_message_is_fixed() {
    let expected = "the provided time duration is invalid as it does not comply with PromQL time duration syntax";
    assert_eq!(InvalidTimeDurationError.to_string(), expected);
    assert_eq!(Error::InvalidTimeDuration.to_string(), expected);
}

#[test]
fn illegal_selector_message_is_fixed() {
    let expected = "vector selectors must either specify a name or at least one label matcher that does not match the empty string";
    assert_eq!(IllegalTimeSeriesSelectorError.to_string(), expected);
    assert_eq!(Error::IllegalTimeSeriesSelector.to_string(), expected);
}

#[test]
fn transport_error_renders_as_itself() {
    let e = transport_error();
    let direct = e.to_string();
    assert!(direct.starts_with("builder error"));
    let wrapped = Error::Reqwest(e);
    assert_eq!(wrapped.to_string(), direct);
}

#[test]
fn server_reported_error_message() {
    let e = ResponseError {
        kind: "bad_data".to_string(),
        message: "no query".to_string(),
    };
    assert_eq!(
        e.to_string(),
        "the JSON response contains an error of type bad_data: no query"
    );
    assert_eq!(
        Error::ResponseError(e).to_string(),
        "the JSON response contains an error of type bad_data: no query"
    );
}

#[test]
fn server_reported_error_keeps_empty_fields() {
    let e = ResponseError {
        kind: String::new(),
        message: String::new(),
    };
    assert_eq!(e.to_string(), "the JSON response contains an error of type : ");
    assert_eq!(e.kind, "");
    assert_eq!(e.message, "");
}

#[test]
fn server_reported_error_is_not_trimmed() {
    let e = ResponseError {
        kind: " execution ".to_string(),
        message: "timeout\t".to_string(),
    };
    assert_eq!(
        e.to_string(),
        "the JSON response contains an error of type  execution : timeout\t"
    );
}

#[test]
fn unsupported_data_type_message() {
    let e = UnsupportedResponseDataType("scalar".into());
    let expected = "the API returned an unsupported type of data, is 'scalar', must be either 'vector' or 'matrix'";
    assert_eq!(e.to_string(), expected);
    assert_eq!(Error::UnsupportedResponseDataType(e).to_string(), expected);
}

#[test]
fn unknown_status_message() {
    let e = UnknownResponseStatus("pending".into());
    let text = e.to_string();
    assert!(text.contains("is 'pending'"));
    assert!(text.contains("success"));
    assert!(text.contains("error"));
    assert_eq!(
        text,
        "the API returned an unknown response status , is 'pending', must be either 'success' or 'error'"
    );
    assert_eq!(Error::UnknownResponseStatus(e).to_string(), text);
}

#[test]
fn equal_payloads_are_equal_and_render_alike() {
    let a = ResponseError {
        kind: "bad_data".to_string(),
        message: "no query".to_string(),
    };
    let b = a.clone();
    assert_eq!(a, b);
    assert_eq!(a.to_string(), b.to_string());
    let c = ResponseError {
        kind: "bad_data".to_string(),
        message: "other".to_string(),
    };
    assert_ne!(a, c);

    assert_eq!(
        UnsupportedResponseDataType("scalar".into()),
        UnsupportedResponseDataType("scalar".into())
    );
    assert_ne!(
        UnsupportedResponseDataType("scalar".into()),
        UnsupportedResponseDataType("string".into())
    );
    assert_eq!(
        UnknownResponseStatus("pending".into()),
        UnknownResponseStatus("pending".into())
    );
    assert_ne!(
        UnknownResponseStatus("pending".into()),
        UnknownResponseStatus("".into())
    );
    assert_eq!(
        Error::UnknownResponseStatus(UnknownResponseStatus("x".into())).to_string(),
        Error::UnknownResponseStatus(UnknownResponseStatus("x".into())).to_string()
    );
}

#[test]
fn validation_errors_are_singletons() {
    assert_eq!(IllegalMetricNameError, IllegalMetricNameError);
    assert_eq!(InvalidTimeDurationError, InvalidTimeDurationError);
    assert_eq!(IllegalTimeSeriesSelectorError, IllegalTimeSeriesSelectorError);
}

#[test]
fn embedding_validation_errors_is_lossless() {
    let e = Error::from(IllegalMetricNameError);
    assert!(matches!(e, Error::IllegalMetricName));
    assert_eq!(e.to_string(), Error::IllegalMetricName.to_string());
    assert_eq!(e.to_string(), IllegalMetricNameError.to_string());

    let e: Error = InvalidTimeDurationError.into();
    assert!(matches!(e, Error::InvalidTimeDuration));
    assert_eq!(e.to_string(), Error::InvalidTimeDuration.to_string());

    let e = Error::from(IllegalTimeSeriesSelectorError);
    assert!(matches!(e, Error::IllegalTimeSeriesSelector));
    assert_eq!(e.to_string(), IllegalTimeSeriesSelectorError.to_string());
}

#[test]
fn every_case_is_matched() {
    let all = vec![
        Error::IllegalMetricName,
        Error::InvalidTimeDuration,
        Error::IllegalTimeSeriesSelector,
        Error::Reqwest(transport_error()),
        Error::ResponseError(ResponseError {
            kind: "bad_data".to_string(),
            message: "no query".to_string(),
        }),
        Error::UnsupportedResponseDataType(UnsupportedResponseDataType("scalar".into())),
        Error::UnknownResponseStatus(UnknownResponseStatus("pending".into())),
    ];
    let names: Vec<&str> = all.iter().map(case_name).collect();
    assert_eq!(
        names,
        vec![
            "illegal metric name",
            "invalid time duration",
            "illegal selector",
            "transport",
            "server reported",
            "unsupported data type",
            "unknown status",
        ]
    );
}

#[test]
fn render_uses_transport_text_for_transport_case_only() {
    let wrapped = Error::Reqwest(transport_error());
    assert_eq!(wrapped.render("connection refused"), "connection refused");
    assert_eq!(wrapped.render(""), "");
    assert_eq!(
        Error::IllegalMetricName.render("connection refused"),
        "the provided metric name is a reserved PromQL keyword"
    );
    assert_eq!(
        Error::UnknownResponseStatus(UnknownResponseStatus("pending".into())).render("ignored"),
        "the API returned an unknown response status , is 'pending', must be either 'success' or 'error'"
    );
}
