use elevenlabs_ttm::{interpret_response, ElevenLabsTTMError};

#[test]
fn status_401_is_authentication_error() {
    for body in [&b""[..], &b"{\"detail\":\"bad key\"}"[..], &b"whatever"[..]] {
        let r = interpret_response(401, body.to_vec());
        match r {
            Err(ElevenLabsTTMError::AuthenticationError(m)) => {
                assert_eq!(m, "Invalid API key");
            }
            other => panic!("expected AuthenticationError, got {:?}", other),
        }
    }
}

#[test]
fn status_429_is_rate_limit_error_without_retry_hint() {
    let r = interpret_response(429, b"slow down".to_vec());
    match r {
        Err(ElevenLabsTTMError::RateLimitError {
            retry_after,
            message,
        }) => {
            assert_eq!(retry_after, None);
            assert_eq!(message, "Too many requests");
        }
        other => panic!("expected RateLimitError, got {:?}", other),
    }
}

#[test]
fn status_402_is_quota_exceeded_error() {
    let r = interpret_response(402, b"no credits".to_vec());
    match r {
        Err(ElevenLabsTTMError::QuotaExceededError(m)) => {
            assert_eq!(m, "Insufficient credits");
        }
        other => panic!("expected QuotaExceededError, got {:?}", other),
    }
}

#[test]
fn other_statuses_are_api_errors_with_status_and_text() {
    for (status, text) in [(400u16, "bad request"), (404, "missing"), (500, "oops")] {
        let r = interpret_response(status, text.as_bytes().to_vec());
        match r {
            Err(ElevenLabsTTMError::ApiError {
                status: s,
                message,
            }) => {
                assert_eq!(s, status);
                assert_eq!(message, text);
            }
            other => panic!("expected ApiError, got {:?}", other),
        }
    }
}

#[test]
fn error_body_text_comes_from_the_bytes() {
    // A body that is not valid UTF-8 is decoded lossily, not echoed raw.
    let r = interpret_response(500, vec![0xff, b'h', b'i']);
    match r {
        Err(ElevenLabsTTMError::ApiError { status, message }) => {
            assert_eq!(status, 500);
            assert_eq!(message, "\u{fffd}hi");
        }
        other => panic!("expected ApiError, got {:?}", other),
    }
}

#[test]
fn success_returns_the_raw_bytes_untouched() {
    // Bytes that are not valid UTF-8 and not meaningful audio either: the
    // payload must come back identical, never decoded or re-encoded.
    let audio: Vec<u8> = vec![0x49, 0x44, 0x33, 0x00, 0xff, 0xfe, 0x80, 0x00, 0x7f];
    for status in [200u16, 201, 204, 299] {
        let r = interpret_response(status, audio.clone());
        let out = r.expect("2xx must succeed");
        assert_eq!(out.len(), audio.len());
        assert_eq!(out, audio);
    }
}

#[test]
fn boundary_statuses_classify_as_errors() {
    assert!(interpret_response(199, b"x".to_vec()).is_err());
    assert!(interpret_response(300, b"x".to_vec()).is_err());
    assert!(interpret_response(200, b"x".to_vec()).is_ok());
    assert!(interpret_response(299, b"x".to_vec()).is_ok());
}

#[test]
fn api_error_message_text() {
    let e = ElevenLabsTTMError::ApiError {
        status: 404,
        message: "Not Found".to_string(),
    };
    assert_eq!(e.message(), "API error (404): Not Found");
}

#[test]
fn rate_limit_message_text() {
    let e = ElevenLabsTTMError::RateLimitError {
        retry_after: Some(30),
        message: "slow down".to_string(),
    };
    assert_eq!(e.message(), "Rate limit exceeded (retry in 30s): slow down");
    let e = ElevenLabsTTMError::RateLimitError {
        retry_after: None,
        message: "slow down".to_string(),
    };
    assert_eq!(e.message(), "Rate limit exceeded: slow down");
}

#[test]
fn fixed_kind_message_texts() {
    let e = ElevenLabsTTMError::AuthenticationError("Invalid API key".to_string());
    assert_eq!(e.message(), "Authentication failed: Invalid API key");
    let e = ElevenLabsTTMError::QuotaExceededError("Insufficient credits".to_string());
    assert_eq!(e.message(), "Quota exceeded: Insufficient credits");
}

#[test]
fn json_decode_failure_becomes_parse_error() {
    let bad: Result<serde_json::Value, serde_json::Error> = serde_json::from_str("{not json");
    let e = ElevenLabsTTMError::from(bad.unwrap_err());
    match &e {
        ElevenLabsTTMError::ParseError(_) => {}
        other => panic!("expected ParseError, got {:?}", other),
    }
    assert!(e.message().starts_with("Failed to parse response: "));
}
