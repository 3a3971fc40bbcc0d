use telegrax::http::HttpOutcome;
use telegrax::parse::error_description;
use telegrax::result::translate_outcome;
use telegrax::result::Error;

fn failure(status: u16, body: &str) -> HttpOutcome {
    HttpOutcome::Failure {
        status,
        body: Some(body.to_string()),
    }
}

#[test]
fn success_is_ok() {
    assert!(matches!(translate_outcome(HttpOutcome::Success), Ok(())));
}

#[test]
fn transport_failure_is_endpoint_connection() {
    let outcome = HttpOutcome::Transport {
        detail: "connection refused".to_string(),
    };
    assert!(matches!(
        translate_outcome(outcome),
        Err(Error::EndpointConnection)
    ));
}

#[test]
fn service_description_is_surfaced_verbatim() {
    let outcome = failure(400, "{\"description\":\"Bad Request: chat not found\"}");
    match translate_outcome(outcome) {
        Err(Error::Endpoint { description }) => {
            assert_eq!(description, "Bad Request: chat not found")
        }
        _ => panic!("expected the endpoint's own description"),
    }
}

#[test]
fn real_failure_body_shape_is_accepted() {
    let outcome = failure(
        400,
        "{\"ok\":false,\"error_code\":400,\"description\":\"Bad Request: chat not found\"}",
    );
    match translate_outcome(outcome) {
        Err(Error::Endpoint { description }) => {
            assert_eq!(description, "Bad Request: chat not found")
        }
        _ => panic!("expected the endpoint's own description"),
    }
}

#[test]
fn plain_text_body_is_endpoint_response() {
    let outcome = failure(502, "Bad Gateway");
    assert!(matches!(
        translate_outcome(outcome),
        Err(Error::EndpointResponse)
    ));
}

#[test]
fn missing_description_is_endpoint_response() {
    let outcome = failure(500, "{\"ok\":false,\"error_code\":500}");
    assert!(matches!(
        translate_outcome(outcome),
        Err(Error::EndpointResponse)
    ));
}

#[test]
fn unreadable_body_is_endpoint_response() {
    let outcome = HttpOutcome::Failure {
        status: 500,
        body: None,
    };
    assert!(matches!(
        translate_outcome(outcome),
        Err(Error::EndpointResponse)
    ));
}

#[test]
fn non_string_description_is_endpoint_response() {
    assert!(error_description("{\"description\":null}").is_none());
    assert!(error_description("{\"description\":7}").is_none());
    assert!(error_description("{\"description\":[\"x\"]}").is_none());
}

#[test]
fn repeated_description_is_rejected() {
    assert!(error_description("{\"description\":\"a\",\"description\":\"b\"}").is_none());
}

#[test]
fn empty_description_is_kept_empty() {
    assert_eq!(error_description("{\"description\":\"\"}"), Some(String::new()));
}

#[test]
fn surrounding_whitespace_is_accepted() {
    let body = " \t\r\n {\"description\":\"x\"} \n ";
    assert_eq!(error_description(body), Some("x".to_string()));
}

#[test]
fn trailing_garbage_is_rejected() {
    assert!(error_description("{\"description\":\"x\"} extra").is_none());
    assert!(error_description("{\"description\":\"x\"}{}").is_none());
}

#[test]
fn other_members_are_skipped_whatever_their_shape() {
    let body = "{\"a\":[1,2.5,-3e+7,true,false,null],\"b\":{\"c\":[{}],\"d\":\"s\"},\"description\":\"kept\",\"z\":0.125}";
    assert_eq!(error_description(body), Some("kept".to_string()));
}

#[test]
fn malformed_members_make_the_body_unparseable() {
    assert!(error_description("{\"a\":01,\"description\":\"x\"}").is_none());
    assert!(error_description("{\"a\":1.,\"description\":\"x\"}").is_none());
    assert!(error_description("{\"a\":+1,\"description\":\"x\"}").is_none());
    assert!(error_description("{\"a\":tru,\"description\":\"x\"}").is_none());
    assert!(error_description("{\"a\":[1,,2],\"description\":\"x\"}").is_none());
    assert!(error_description("{\"description\":\"x\",}").is_none());
    assert!(error_description("{\"description\" \"x\"}").is_none());
    assert!(error_description("{\"description\":\"x\"").is_none());
}

#[test]
fn string_escapes_are_decoded() {
    let body = "{\"description\":\"a\\\"b\\\\c\\/d\\b\\f\\n\\r\\te\\u0041f\"}";
    assert_eq!(
        error_description(body),
        Some("a\"b\\c/d\u{8}\u{c}\n\r\teAf".to_string())
    );
}

#[test]
fn surrogate_pairs_are_combined() {
    let body = "{\"description\":\"\\uD83D\\uDE00 and \\u00e9\"}";
    assert_eq!(error_description(body), Some("😀 and é".to_string()));
}

#[test]
fn lone_surrogates_are_rejected() {
    assert!(error_description("{\"description\":\"\\uD83D\"}").is_none());
    assert!(error_description("{\"description\":\"\\uDE00\"}").is_none());
    assert!(error_description("{\"description\":\"\\uD83D\\u0041\"}").is_none());
}

#[test]
fn raw_control_characters_are_rejected() {
    assert!(error_description("{\"description\":\"a\nb\"}").is_none());
}

#[test]
fn invalid_escape_is_rejected() {
    assert!(error_description("{\"description\":\"\\x41\"}").is_none());
    assert!(error_description("{\"description\":\"\\u00g1\"}").is_none());
}

#[test]
fn escaped_key_still_matches() {
    let body = "{\"descri\\u0070tion\":\"x\"}";
    assert_eq!(error_description(body), Some("x".to_string()));
}

#[test]
fn nesting_beyond_the_bound_is_rejected() {
    let deep = format!(
        "{{\"a\":{}1{},\"description\":\"x\"}}",
        "[".repeat(126),
        "]".repeat(126)
    );
    assert_eq!(error_description(&deep), Some("x".to_string()));
    let too_deep = format!(
        "{{\"a\":{}1{},\"description\":\"x\"}}",
        "[".repeat(130),
        "]".repeat(130)
    );
    assert!(error_description(&too_deep).is_none());
}

#[test]
fn non_object_top_level_is_rejected() {
    assert!(error_description("[{\"description\":\"x\"}]").is_none());
    assert!(error_description("\"description\"").is_none());
    assert!(error_description("").is_none());
    assert!(error_description("   ").is_none());
}

#[test]
fn result_error_display_strings() {
    assert_eq!(
        Error::EndpointConnection.display_string(),
        "EndpointConnection"
    );
    assert_eq!(Error::EndpointResponse.display_string(), "EndpointResponse");
    let error = Error::Endpoint {
        description: "oh".to_string(),
    };
    assert_eq!(error.display_string(), "Endpoint: oh");
}

#[test]
fn status_error_keeps_the_status_line() {
    let error = telegrax::error::Error::from_http_api_error(failure(
        400,
        "{\"description\":\"Bad Request: chat not found\"}",
    ));
    assert_eq!(
        error.display_string(),
        "code=Endpoint; description=status=400; description=Bad Request: chat not found"
    );
}

#[test]
fn status_error_notes_an_unparseable_body() {
    let error = telegrax::error::Error::from_http_api_error(failure(500, "not json"));
    assert_eq!(
        error.display_string(),
        "code=Endpoint; description=Cannot parse API response."
    );
}

#[test]
fn status_error_keeps_the_transport_text() {
    let error = telegrax::error::Error::from_http_api_error(HttpOutcome::Transport {
        detail: "dns failure".to_string(),
    });
    assert_eq!(
        error.display_string(),
        "code=Endpoint; description=dns failure"
    );
    assert_eq!(
        telegrax::error::ErrorCode::Endpoint.display_string(),
        "Endpoint"
    );
}

#[test]
fn bot_is_built_without_any_call() {
    let config = telegrax::bot::Configuration {
        token: "123:abc".to_string(),
    };
    let _bot = telegrax::bot::Bot::new(config);
}
