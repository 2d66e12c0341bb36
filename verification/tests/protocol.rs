use airscan::fetch::{FetchDirective, FetchError, FetchEvent, FetchState};
use airscan::submit::{
    SubmitDirective, SubmitError, SubmitEvent, SubmitState, MAX_BUSY_REPLIES,
};

fn reply(status: u16, location: Option<&str>) -> SubmitEvent {
    SubmitEvent::Reply { status, location: location.map(String::from) }
}

#[test]
fn test_send_post_success() {
    let mut st = SubmitState::new();
    let result = st.on_event(reply(200, Some("http://example.com")));
    match result {
        SubmitDirective::Accepted(url) => assert_eq!(url, "http://example.com/"),
        _ => panic!("Unexpected result"),
    }
    assert_eq!(st.attempts, 0);
}

#[test]
fn test_send_post_busy() {
    let mut st = SubmitState::new();
    let result = st.on_event(reply(503, None));
    match result {
        SubmitDirective::WaitAndRetry => {}
        _ => panic!("Unexpected result"),
    }
    assert_eq!(st.attempts, 1);
}

#[test]
fn test_send_post_error() {
    let mut st = SubmitState::new();
    let result = st.on_event(reply(500, None));
    assert_eq!(result, SubmitDirective::Fail(SubmitError::ScannerRejected(500)));
    assert_eq!(st.attempts, 0);
}

#[test]
fn submit_success_appends_trailing_separator() {
    let mut st = SubmitState::new();
    let result = st.on_event(reply(201, Some("http://host/job-id")));
    assert_eq!(
        result,
        SubmitDirective::Accepted(String::from("http://host/job-id/"))
    );
}

#[test]
fn submit_success_without_location_is_rejected() {
    let mut st = SubmitState::new();
    assert_eq!(
        st.on_event(reply(200, None)),
        SubmitDirective::Fail(SubmitError::ScannerRejected(200))
    );
    assert_eq!(
        st.on_event(reply(200, Some("not a url"))),
        SubmitDirective::Fail(SubmitError::ScannerRejected(200))
    );
    assert_eq!(st.attempts, 0);
}

#[test]
fn submit_no_reply_fails_immediately() {
    let mut st = SubmitState::new();
    assert_eq!(
        st.on_event(SubmitEvent::NoReply),
        SubmitDirective::Fail(SubmitError::RequestFailed)
    );
    assert_eq!(st.attempts, 0);
}

#[test]
fn submit_always_busy_times_out_after_the_bound() {
    let mut st = SubmitState::new();
    for i in 1..MAX_BUSY_REPLIES {
        assert_eq!(st.on_event(reply(503, None)), SubmitDirective::WaitAndRetry);
        assert_eq!(st.attempts, i);
    }
    assert_eq!(
        st.on_event(reply(503, None)),
        SubmitDirective::Fail(SubmitError::SubmissionTimedOut)
    );
}

#[test]
fn test_fetch_result_success_single() {
    let mut st = FetchState::new(String::from("test.txt"), false).unwrap();
    match st.on_event(FetchEvent::Reply { status: 200 }) {
        FetchDirective::Save { filename, more } => {
            assert_eq!(filename, "test.txt");
            assert!(!more);
        }
        _ => panic!("Unexpected result"),
    }
    assert_eq!(st.seq_number, 2);
}

#[test]
fn test_fetch_result_success_multi() {
    let mut st = FetchState::new(String::from("test.txt"), true).unwrap();
    match st.on_event(FetchEvent::Reply { status: 200 }) {
        FetchDirective::Save { filename, more } => {
            assert_eq!(filename, "test-1.txt");
            assert!(more);
        }
        _ => panic!("Unexpected result"),
    }
    match st.on_event(FetchEvent::Reply { status: 200 }) {
        FetchDirective::Save { filename, more } => {
            assert_eq!(filename, "test-2.txt");
            assert!(more);
        }
        _ => panic!("Unexpected result"),
    }
    assert_eq!(st.on_event(FetchEvent::Reply { status: 404 }), FetchDirective::Finished);
    assert_eq!(st.seq_number, 3);
}

#[test]
fn test_fetch_result_404() {
    let mut st = FetchState::new(String::from("test.txt"), false).unwrap();
    assert_eq!(st.on_event(FetchEvent::Reply { status: 404 }), FetchDirective::Finished);
    assert_eq!(st.seq_number, 1);
}

#[test]
fn test_fetch_result_unexpected_error() {
    let mut st = FetchState::new(String::from("test.txt"), false).unwrap();
    assert_eq!(
        st.on_event(FetchEvent::Reply { status: 500 }),
        FetchDirective::Abort(FetchError::UnexpectedStatus(500))
    );
    assert_eq!(st.seq_number, 1);
}

#[test]
fn fetch_abort_keeps_earlier_saves() {
    let mut st = FetchState::new(String::from("test.txt"), true).unwrap();
    let mut saved: Vec<String> = Vec::new();
    for event in [
        FetchEvent::Reply { status: 200 },
        FetchEvent::Reply { status: 200 },
        FetchEvent::Reply { status: 500 },
    ] {
        match st.on_event(event) {
            FetchDirective::Save { filename, more } => {
                saved.push(filename);
                assert!(more);
            }
            d => {
                assert_eq!(d, FetchDirective::Abort(FetchError::UnexpectedStatus(500)));
                break;
            }
        }
    }
    assert_eq!(saved, vec!["test-1.txt".to_string(), "test-2.txt".to_string()]);
}

#[test]
fn fetch_no_reply_aborts_as_transport_failure() {
    let mut st = FetchState::new(String::from("test.txt"), true).unwrap();
    assert_eq!(
        st.on_event(FetchEvent::NoReply),
        FetchDirective::Abort(FetchError::TransportError)
    );
}

#[test]
fn fetch_rejects_multi_path_without_single_separator() {
    assert!(FetchState::new(String::from("noext"), true).is_none());
    assert!(FetchState::new(String::from("a.b.c"), true).is_none());
    assert!(FetchState::new(String::from("noext"), false).is_some());
    let st = FetchState::new(String::from("test.txt"), true).unwrap();
    assert_eq!(st.seq_number, 1);
    assert!(st.multi);
}
