use starlight::proxy::RequestError;

#[test]
fn request_error_messages() {
    assert_eq!(
        RequestError::InvalidMethod { method: "BREW".to_string() }.to_string(),
        "invalid method: BREW"
    );
    assert_eq!(
        RequestError::AcquiringTicket { source: "channel closed".to_string() }.to_string(),
        "error when acquiring ratelimiting ticket: channel closed"
    );
    assert_eq!(
        RequestError::InvalidPath { source: "x".to_string() }.to_string(),
        "invalid path: x"
    );
    assert_eq!(
        RequestError::InvalidURI { source: "y".to_string() }.to_string(),
        "generated uri for discord api is invalid: y"
    );
    assert_eq!(
        RequestError::RequestIssue { source: "z".to_string() }.to_string(),
        "error execuring request: z"
    );
}
