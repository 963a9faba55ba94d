use oanda_rust::errors::{
    common_error, response_result, APIError, CommonErrorResponse, ErrorResponse, ResponseBody,
};
use oanda_rust::order::OrderCancelErrorResponse;
use oanda_rust::pricing::parse_liquidity;
use oanda_rust::primitives::{deserialize_datetime, Timestamp};
use oanda_rust::text::decimal_string;

#[test]
fn it_works() {
    let result = oanda_rust::add(2, 2);
    assert_eq!(result, 4);
}

#[test]
fn regression_invalid_liquidity_is_a_decode_error_not_a_panic() {
    assert_eq!(parse_liquidity("10000000"), Some(10_000_000));
    assert_eq!(parse_liquidity("1.5"), None);
}

#[test]
fn liquidity_follows_integer_parsing() {
    for text in ["0", "-0", "+42", "-42", "9223372036854775807", "-9223372036854775808", "007"] {
        assert_eq!(parse_liquidity(text), text.parse::<i64>().ok(), "{text}");
    }
    for text in ["", "-", "+", "9223372036854775808", "-9223372036854775809", " 1", "1e3", "--1"] {
        assert_eq!(parse_liquidity(text), None, "{text}");
    }
}

#[test]
fn every_integer_text_reads_back() {
    for value in [i64::MIN, -1_000_000, -1, 0, 1, 42, 10_000_000, i64::MAX] {
        assert_eq!(parse_liquidity(&value.to_string()), Some(value));
    }
}

#[test]
fn zero_datetime_means_none() {
    assert!(matches!(deserialize_datetime("0"), Ok(None)));
    let parsed = deserialize_datetime("2026-09-12T00:00:00.5Z").unwrap().unwrap();
    assert_eq!(parsed.secs(), 1_789_171_200);
    assert_eq!(parsed.nanos(), 500_000_000);
    match deserialize_datetime("yesterday") {
        Err(message) => assert_eq!(message, "unexpected datetime"),
        Ok(_) => panic!("text that is not a datetime must be refused"),
    }
}

#[test]
fn timestamps_are_written_in_rfc3339() {
    let instant = Timestamp::new(1_767_225_600, 123_456_789).unwrap();
    assert_eq!(instant.to_rfc3339(), "2026-01-01T00:00:00.123456789+00:00");
    assert!(Timestamp::new(i64::MAX, 0).is_none());
}

#[test]
fn decimal_text_of_integers() {
    assert_eq!(decimal_string(0), "0");
    assert_eq!(decimal_string(7), "7");
    assert_eq!(decimal_string(5000), "5000");
    assert_eq!(decimal_string(u64::MAX), u64::MAX.to_string());
}

#[test]
fn error_texts_show_the_code_only_when_sent() {
    let invalid = APIError::InvalidRequest("Missing account_id".into());
    assert_eq!(invalid.to_string(), "Invalid request: Missing account_id");
    let with_code = ErrorResponse::OrderCancelError(OrderCancelErrorResponse {
        order_cancel_reject_transaction: None,
        related_transaction_ids: None,
        last_transaction_id: None,
        error_code: Some("ORDER_DOESNT_EXIST".into()),
        error_message: "missing order".into(),
    });
    assert_eq!(
        with_code.to_string(),
        "Order cancellation was rejected ORDER_DOESNT_EXIST: missing order"
    );
    let without_code = ErrorResponse::OrderCancelError(OrderCancelErrorResponse {
        order_cancel_reject_transaction: None,
        related_transaction_ids: None,
        last_transaction_id: None,
        error_code: None,
        error_message: "missing order".into(),
    });
    assert_eq!(without_code.to_string(), "Order cancellation was rejected: missing order");
}

#[test]
fn common_errors_become_structured_or_json_errors() {
    let common = common_error(Ok(CommonErrorResponse {
        error_message: "invalid token".into(),
    }));
    match common {
        APIError::ErrorResponse(inner) => match *inner {
            ErrorResponse::CommonError(body) => assert_eq!(body.error_message, "invalid token"),
            _ => panic!("expected a common error"),
        },
        _ => panic!("expected a structured error"),
    }
    let broken = serde_json::from_str::<serde_json::Value>("<html>").unwrap_err();
    assert!(matches!(common_error(Err(broken)), APIError::JSONError(_)));
}

#[test]
fn response_errors_keep_status_and_request_id() {
    let error = oanda_rust::errors::response_error(
        404,
        Some("fixture-123".into()),
        APIError::InvalidRequest("x".into()),
    );
    match &error {
        APIError::Response(context) => {
            assert_eq!(context.status, 404);
            assert_eq!(context.request_id.as_deref(), Some("fixture-123"));
        }
        _ => panic!("missing HTTP context"),
    }
    assert_eq!(
        error.to_string(),
        "HTTP 404 Not Found (request ID Some(\"fixture-123\")): Invalid request: x"
    );
}

#[test]
fn response_results_keep_context_around_each_cause() {
    let ok: Result<u8, APIError> =
        response_result(200, None, ResponseBody::Success(Ok(7u8)));
    assert_eq!(ok.unwrap(), 7);
    let broken = serde_json::from_str::<serde_json::Value>("{invalid").unwrap_err();
    let bad: Result<u8, APIError> = response_result(
        200,
        Some("fixture-123".into()),
        ResponseBody::Success(Err(broken)),
    );
    match bad {
        Err(APIError::Response(context)) => {
            assert_eq!(context.status, 200);
            assert_eq!(context.request_id.as_deref(), Some("fixture-123"));
            assert!(matches!(context.source, APIError::JSONError(_)));
        }
        _ => panic!("missing HTTP context"),
    }
    let common: Result<u8, APIError> = response_result(
        401,
        None,
        ResponseBody::Common(Ok(CommonErrorResponse { error_message: "invalid token".into() })),
    );
    match common {
        Err(APIError::Response(context)) => match context.source {
            APIError::ErrorResponse(inner) => {
                assert!(matches!(*inner, ErrorResponse::CommonError(_)))
            }
            _ => panic!("expected a structured error"),
        },
        _ => panic!("missing HTTP context"),
    }
}

#[test]
fn an_over_long_stream_message_is_a_json_error() {
    assert!(matches!(oanda_rust::stream::overflow_error(), APIError::JSONError(_)));
}

#[test]
fn timestamps_cover_exactly_chronos_range() {
    let first = -8_334_601_228_800i64;
    let last = 8_210_266_876_799i64;
    assert!(Timestamp::new(first, 0).is_some());
    assert!(Timestamp::new(first - 1, 999_999_999).is_none());
    assert!(Timestamp::new(last, 999_999_999).is_some());
    assert!(Timestamp::new(last + 1, 0).is_none());
    assert!(Timestamp::new(59, 1_999_999_999).is_some());
    assert!(Timestamp::new(58, 1_000_000_000).is_none());
    assert!(Timestamp::new(59, 2_000_000_000).is_none());
    assert!(Timestamp::new(-1, 1_500_000_000).is_some());
}

#[test]
fn status_text_is_number_and_reason() {
    for (code, text) in [(401u16, "401 Unauthorized"), (599, "599 <unknown status code>"), (42, "42")] {
        let error = oanda_rust::errors::response_error(
            code,
            None,
            APIError::InvalidRequest("x".into()),
        );
        assert_eq!(error.to_string(), format!("HTTP {text} (request ID None): Invalid request: x"));
    }
}
