use receipten::fetch::{classify_response, FetchError, FetchState, Fetcher};

fn status_error(status: u16) -> FetchError {
    FetchError::HttpStatus { status }
}

#[test]
fn new_fetcher_is_idle() {
    let f: Fetcher<u32> = Fetcher::new();
    assert!(matches!(f.state, FetchState::Idle));
    assert_eq!(f.last_token, 0);
    assert_eq!(f.outstanding(), None);
}

#[test]
fn tokens_increase() {
    let mut f: Fetcher<u32> = Fetcher::new();
    let a = f.start_fetch();
    let b = f.start_fetch();
    let c = f.start_fetch();
    assert_eq!((a, b, c), (1, 2, 3));
    assert_eq!(f.outstanding(), Some(3));
}

#[test]
fn only_latest_token_applies() {
    let mut f: Fetcher<u32> = Fetcher::new();
    let t1 = f.start_fetch();
    let t2 = f.start_fetch();
    let t3 = f.start_fetch();
    assert!(!f.on_response(t1, Ok(10)));
    assert!(!f.on_response(t2, Err(status_error(500))));
    assert_eq!(f.state, FetchState::Loading { token: t3 });
    assert!(f.on_response(t3, Ok(30)));
    assert_eq!(f.state, FetchState::Success { value: 30 });
    assert!(!f.on_response(t1, Ok(10)));
    assert_eq!(f.state, FetchState::Success { value: 30 });
}

#[test]
fn stale_success_does_not_overwrite_later_result() {
    let mut f: Fetcher<u32> = Fetcher::new();
    let t1 = f.start_fetch();
    let t2 = f.start_fetch();
    assert!(f.on_response(t2, Ok(2)));
    assert!(!f.on_response(t1, Ok(1)));
    assert_eq!(f.state, FetchState::Success { value: 2 });
}

#[test]
fn response_twice_same_token() {
    let mut f: Fetcher<u32> = Fetcher::new();
    let t = f.start_fetch();
    assert!(f.on_response(t, Ok(7)));
    let after_first = f.clone();
    assert!(!f.on_response(t, Err(status_error(404))));
    assert_eq!(f, after_first);
}

#[test]
fn exactly_one_state() {
    let mut f: Fetcher<u32> = Fetcher::new();
    let one = |s: &FetchState<u32>| {
        [
            matches!(s, FetchState::Idle),
            matches!(s, FetchState::Loading { .. }),
            matches!(s, FetchState::Success { .. }),
            matches!(s, FetchState::Error { .. }),
        ]
        .iter()
        .filter(|b| **b)
        .count()
    };
    assert_eq!(one(&f.state), 1);
    let t = f.start_fetch();
    assert_eq!(one(&f.state), 1);
    f.on_response(t, Ok(1));
    assert_eq!(one(&f.state), 1);
    let t = f.start_fetch();
    f.on_response(t, Err(status_error(500)));
    assert_eq!(one(&f.state), 1);
    assert!(!f.is_loading());
}

#[test]
fn cancel_without_request_is_noop() {
    let mut f: Fetcher<u32> = Fetcher::new();
    assert!(!f.cancel());
    assert_eq!(f.state, FetchState::Idle);
    let t = f.start_fetch();
    f.on_response(t, Ok(5));
    let before = f.clone();
    assert!(!f.cancel());
    assert_eq!(f, before);
}

#[test]
fn cancel_discards_later_completion() {
    let mut f: Fetcher<u32> = Fetcher::new();
    let t = f.start_fetch();
    assert!(f.cancel());
    assert_eq!(f.state, FetchState::Idle);
    assert!(!f.on_response(t, Ok(5)));
    assert_eq!(f.state, FetchState::Idle);
    assert_eq!(f.last_token, 1);
}

#[test]
fn messages_of_each_error() {
    let net = FetchError::Network { reason: "connection refused".to_string() };
    assert_eq!(net.message(), "network error: connection refused");
    assert_eq!(status_error(404).message(), "server returned status 404");
    assert_eq!(status_error(0).message(), "server returned status 0");
    assert_eq!(status_error(65535).message(), "server returned status 65535");
    let dec = FetchError::Decode { reason: "expected value".to_string() };
    assert_eq!(dec.message(), "could not decode response: expected value");
}

#[test]
fn status_and_decode_messages_are_distinct() {
    let a = status_error(500).message();
    let b = FetchError::Decode { reason: "500".to_string() }.message();
    assert_ne!(a, b);
}

#[test]
fn classify_by_status() {
    let ok: Result<u32, String> = Ok(1);
    assert_eq!(classify_response(200, ok.clone()), Ok(1));
    assert_eq!(classify_response(299, ok.clone()), Ok(1));
    assert_eq!(classify_response(204, ok.clone()), Ok(1));
    assert_eq!(classify_response(199, ok.clone()), Err(status_error(199)));
    assert_eq!(classify_response(300, ok.clone()), Err(status_error(300)));
    assert_eq!(classify_response(500, ok), Err(status_error(500)));
    let bad: Result<u32, String> = Err("trailing characters".to_string());
    assert_eq!(
        classify_response(200, bad.clone()),
        Err(FetchError::Decode { reason: "trailing characters".to_string() })
    );
    assert_eq!(classify_response(404, bad), Err(status_error(404)));
}
