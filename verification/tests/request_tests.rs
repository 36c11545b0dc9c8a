use rustfinal::event::{Level, LogEvent};
use rustfinal::request::{make_request, RequestOutcome, TransportError};

#[test]
fn test_make_request() {
    let result = make_request(Ok(200));
    assert!(result.is_ok(), "Request should succeed");
    assert_eq!(result, Ok(RequestOutcome::Success(200)));
}

#[test]
fn test_make_request_failure() {
    let result = make_request(Err(String::from(
        "error sending request for url (https://notaurl.url/)",
    )));
    assert!(!result.is_ok(), "Request should fail but pass test");
    assert_eq!(
        result,
        Err(TransportError {
            detail: String::from("error sending request for url (https://notaurl.url/)"),
        })
    );
}

#[test]
fn success_range_is_200_to_299() {
    assert_eq!(RequestOutcome::from_status(199), RequestOutcome::Failure(199));
    assert_eq!(RequestOutcome::from_status(200), RequestOutcome::Success(200));
    assert_eq!(RequestOutcome::from_status(204), RequestOutcome::Success(204));
    assert_eq!(RequestOutcome::from_status(299), RequestOutcome::Success(299));
    assert_eq!(RequestOutcome::from_status(300), RequestOutcome::Failure(300));
}

#[test]
fn other_statuses_are_classified_failures() {
    for status in [0u16, 100, 101, 301, 404, 500, 503, 999, u16::MAX] {
        assert_eq!(make_request(Ok(status)), Ok(RequestOutcome::Failure(status)));
    }
}

#[test]
fn every_status_is_classified_by_its_range() {
    for status in 0..=u16::MAX {
        let expected = if (200..=299).contains(&status) {
            RequestOutcome::Success(status)
        } else {
            RequestOutcome::Failure(status)
        };
        assert_eq!(RequestOutcome::from_status(status), expected);
    }
}

#[test]
fn transport_failure_is_never_a_classified_outcome() {
    for detail in ["", "dns error", "connection refused", "200"] {
        match make_request(Err(String::from(detail))) {
            Err(error) => assert_eq!(error.detail, detail),
            Ok(outcome) => panic!("classified as {:?}", outcome),
        }
    }
}

#[test]
fn request_events_and_their_levels() {
    let done = RequestOutcome::Success(200).event();
    assert_eq!(done, LogEvent::RequestCompleted { status: 200 });
    assert_eq!(done.level(), Level::Info);
    let failed = RequestOutcome::Failure(404).event();
    assert_eq!(failed, LogEvent::RequestFailed { status: 404 });
    assert_eq!(failed.level(), Level::Error);
}
