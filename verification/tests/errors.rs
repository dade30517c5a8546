use prompt_mixer::error::{ErrorKind, MixError};

#[test]
fn every_failure_has_its_family() {
    assert_eq!(MixError::NoActiveAnchors.kind(), ErrorKind::Configuration);
    assert_eq!(MixError::UnknownSpeed("x".to_string()).kind(), ErrorKind::Configuration);
    assert_eq!(MixError::NoSession.kind(), ErrorKind::State);
    assert_eq!(MixError::Client("x".to_string()).kind(), ErrorKind::Network);
    assert_eq!(MixError::Transport("x".to_string()).kind(), ErrorKind::Network);
    assert_eq!(MixError::Unreadable("x".to_string()).kind(), ErrorKind::Network);
    assert_eq!(MixError::Status { code: 500, body: String::new() }.kind(), ErrorKind::Protocol);
    assert_eq!(MixError::InvalidJson("x".to_string()).kind(), ErrorKind::Protocol);
    assert_eq!(MixError::MissingContent.kind(), ErrorKind::Protocol);
}

#[test]
fn every_failure_has_its_sentence() {
    assert_eq!(MixError::NoActiveAnchors.message(), "No active anchors (all weights are 0)");
    assert_eq!(
        MixError::UnknownSpeed("warp".to_string()).message(),
        "Unknown speed: warp. Use 'slow' or 'fast'."
    );
    assert_eq!(MixError::NoSession.message(), "No active session");
    assert_eq!(
        MixError::Client("no TLS backend".to_string()).message(),
        "Failed to create HTTP client: no TLS backend"
    );
    assert_eq!(
        MixError::Transport("connection refused".to_string()).message(),
        "HTTP request failed: connection refused"
    );
    assert_eq!(
        MixError::Unreadable("reset".to_string()).message(),
        "Failed to read response: reset"
    );
    assert_eq!(
        MixError::Status { code: 404, body: "{\"error\":\"no\"}".to_string() }.message(),
        "LLM API error (404 Not Found): {\"error\":\"no\"}"
    );
    assert_eq!(
        MixError::InvalidJson("EOF at line 1".to_string()).message(),
        "Invalid JSON: EOF at line 1"
    );
    assert_eq!(MixError::MissingContent.message(), "No content in LLM response");
}
