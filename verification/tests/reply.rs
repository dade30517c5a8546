use prompt_mixer::error::{ErrorKind, MixError};
use prompt_mixer::reply::{completion_of, interpret_reply};

#[test]
fn content_of_the_first_choice_is_the_completion() {
    let body = r#"{"id":"x","choices":[{"index":0,"message":{"role":"assistant","content":" Hi\n"}},{"message":{"content":"second"}}]}"#;
    assert_eq!(interpret_reply(200, body), Ok(" Hi\n".to_string()));
    assert_eq!(interpret_reply(299, body), Ok(" Hi\n".to_string()));
}

#[test]
fn empty_content_is_still_a_completion() {
    let body = r#"{"choices":[{"message":{"content":""}}]}"#;
    assert_eq!(interpret_reply(200, body), Ok(String::new()));
}

#[test]
fn escapes_are_decoded() {
    let body = r#"{"choices":[{"message":{"content":"a\"bé\n<think>"}}]}"#;
    assert_eq!(interpret_reply(200, body), Ok("a\"bé\n<think>".to_string()));
}

#[test]
fn status_outside_the_two_hundreds_fails_with_the_body() {
    let body = r#"{"choices":[{"message":{"content":"Hi"}}]}"#;
    for code in [199u16, 300, 404, 500, 0] {
        let outcome = interpret_reply(code, body);
        assert_eq!(outcome, Err(MixError::Status { code, body: body.to_string() }));
        assert_eq!(outcome.unwrap_err().kind(), ErrorKind::Protocol);
    }
    assert_eq!(
        interpret_reply(429, "slow down").unwrap_err().message(),
        "LLM API error (429 Too Many Requests): slow down"
    );
    assert_eq!(
        interpret_reply(404, "").unwrap_err().message(),
        "LLM API error (404 Not Found): "
    );
}

#[test]
fn body_that_is_no_json_fails_with_the_message_of_the_parser() {
    for body in ["", "not json", "{\"choices\":", "{} trailing", "{\"a\":\n\n  }"] {
        let expected = serde_json::from_str::<serde_json::Value>(body).unwrap_err().to_string();
        assert!(!expected.is_empty());
        assert_eq!(interpret_reply(200, body), Err(MixError::InvalidJson(expected)), "{:?}", body);
    }
    assert_eq!(
        interpret_reply(200, "not json"),
        Err(MixError::InvalidJson("expected ident at line 1 column 2".to_string()))
    );
    assert_eq!(
        interpret_reply(200, "").unwrap_err().message(),
        "Invalid JSON: EOF while parsing a value at line 1 column 0"
    );
}

#[test]
fn missing_content_fails() {
    for body in [
        "{}",
        "null",
        "[]",
        r#"{"choices":[]}"#,
        r#"{"choices":{}}"#,
        r#"{"choices":{"0":{"message":{"content":"Hi"}}}}"#,
        r#"{"choices":[{}]}"#,
        r#"{"choices":[{"message":{}}]}"#,
        r#"{"choices":[{"message":"Hi"}]}"#,
        r#"{"choices":[{"message":{"content":null}}]}"#,
        r#"{"choices":[{"message":{"content":5}}]}"#,
        r#"{"choices":[{"message":{"content":["Hi"]}}]}"#,
        r#"{"choices":[null,{"message":{"content":"Hi"}}]}"#,
    ] {
        assert_eq!(interpret_reply(200, body), Err(MixError::MissingContent), "{}", body);
    }
}

#[test]
fn parsed_document_is_read_the_same_way() {
    let parse = |text: &str| -> serde_json::Value { serde_json::from_str(text).unwrap() };
    assert_eq!(
        completion_of(&parse(r#"{"choices":[{"message":{"content":"Hi"}}]}"#)),
        Ok("Hi".to_string())
    );
    assert_eq!(completion_of(&parse(r#"{"choices":[]}"#)), Err(MixError::MissingContent));
    assert_eq!(completion_of(&parse("3")), Err(MixError::MissingContent));
}
