use launchdarkly_server_sdk::events::sender::{
    after_attempt, classify, parse_rate_limit, serialization_failure, Attempt, EventSenderResult,
    ResponseClass, SendError, SendStep,
};

fn response(status: u16) -> Attempt {
    Attempt::Response { status, rate_limit: None }
}

#[test]
fn statuses_are_classified() {
    assert_eq!(classify(200), ResponseClass::Delivered);
    assert_eq!(classify(202), ResponseClass::Delivered);
    assert_eq!(classify(299), ResponseClass::Delivered);
    assert_eq!(classify(401), ResponseClass::Fatal);
    assert_eq!(classify(403), ResponseClass::Fatal);
    assert_eq!(classify(429), ResponseClass::Transient);
    assert_eq!(classify(500), ResponseClass::Transient);
    assert_eq!(classify(503), ResponseClass::Transient);
    assert_eq!(classify(599), ResponseClass::Transient);
    assert_eq!(classify(199), ResponseClass::Rejected);
    assert_eq!(classify(300), ResponseClass::Rejected);
    assert_eq!(classify(400), ResponseClass::Rejected);
    assert_eq!(classify(404), ResponseClass::Rejected);
    assert_eq!(classify(600), ResponseClass::Rejected);
}

#[test]
fn success_ends_the_delivery() {
    let expected = SendStep::Done(EventSenderResult {
        success: true,
        must_shutdown: false,
        rate_limit: Some(17),
        error: None,
    });
    let attempt = Attempt::Response { status: 202, rate_limit: Some(17) };
    assert_eq!(after_attempt(false, attempt), expected);
    assert_eq!(after_attempt(true, attempt), expected);
}

#[test]
fn transient_failure_is_retried_once() {
    for attempt in [response(500), response(429), Attempt::NoResponse] {
        assert_eq!(after_attempt(false, attempt), SendStep::Retry);
        assert_eq!(
            after_attempt(true, attempt),
            SendStep::Done(EventSenderResult {
                success: false,
                must_shutdown: false,
                rate_limit: None,
                error: Some(SendError::Transport),
            })
        );
    }
}

#[test]
fn refused_credential_is_fatal_and_not_retried() {
    for status in [401u16, 403] {
        for retried in [false, true] {
            assert_eq!(
                after_attempt(retried, response(status)),
                SendStep::Done(EventSenderResult {
                    success: false,
                    must_shutdown: true,
                    rate_limit: None,
                    error: Some(SendError::Auth),
                })
            );
        }
    }
}

#[test]
fn rejected_batch_is_not_retried() {
    assert_eq!(
        after_attempt(false, Attempt::Response { status: 400, rate_limit: Some(3) }),
        SendStep::Done(EventSenderResult {
            success: false,
            must_shutdown: false,
            rate_limit: Some(3),
            error: Some(SendError::Rejected),
        })
    );
}

#[test]
fn batch_that_cannot_be_written_is_reported() {
    assert_eq!(
        serialization_failure(),
        EventSenderResult {
            success: false,
            must_shutdown: false,
            rate_limit: None,
            error: Some(SendError::Serialization),
        }
    );
}

#[test]
fn rate_limit_is_read_from_decimal_digits() {
    assert_eq!(parse_rate_limit(b"0"), Some(0));
    assert_eq!(parse_rate_limit(b"007"), Some(7));
    assert_eq!(parse_rate_limit(b"1700000000000"), Some(1_700_000_000_000));
    assert_eq!(parse_rate_limit(b"18446744073709551615"), Some(u64::MAX));
}

#[test]
fn rate_limit_that_is_no_number_is_none() {
    assert_eq!(parse_rate_limit(b""), None);
    assert_eq!(parse_rate_limit(b" 1"), None);
    assert_eq!(parse_rate_limit(b"1 "), None);
    assert_eq!(parse_rate_limit(b"-1"), None);
    assert_eq!(parse_rate_limit(b"12a"), None);
    assert_eq!(parse_rate_limit(b"1.5"), None);
    assert_eq!(parse_rate_limit(b"18446744073709551616"), None);
    assert_eq!(parse_rate_limit(b"99999999999999999999999"), None);
    assert_eq!(parse_rate_limit(b"184467440737095516150"), None);
}
