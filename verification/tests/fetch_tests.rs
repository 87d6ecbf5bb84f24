use event_relay::fetch::{FetchSession, FetchAction, FetchOutcome, FetchError, FetchErrorKind};
use event_relay::job::DispatchJob;

fn sample_job() -> DispatchJob {
    DispatchJob { url: "https://x/y.bin".to_string(), target_file_name: "out.bin".to_string() }
}

#[test]
fn three_chunks_written_incrementally() {
    let mut s = FetchSession::new(sample_job());
    let a = s.on_status(200);
    assert_eq!(a, FetchAction::CreateTarget);
    assert!(s.file_created);

    s.on_chunk(&b"first-".to_vec());
    assert_eq!(s.file, b"first-".to_vec());
    s.on_chunk(&b"second-".to_vec());
    assert_eq!(s.file, b"first-second-".to_vec());
    s.on_chunk(&b"third".to_vec());
    assert_eq!(s.file, b"first-second-third".to_vec());

    s.on_body_end();
    assert_eq!(s.outcome, Some(FetchOutcome::Completed));
    assert_eq!(s.file, b"first-second-third".to_vec());
}

#[test]
fn bad_status_skips_without_creating_a_file() {
    let mut s = FetchSession::new(sample_job());
    let a = s.on_status(404);
    assert_eq!(a, FetchAction::Finish);
    assert!(!s.file_created);
    assert_eq!(s.outcome, Some(FetchOutcome::SkippedStatus(404)));
}

#[test]
fn status_range_edges() {
    let mut s = FetchSession::new(sample_job());
    assert_eq!(s.on_status(199), FetchAction::Finish);

    let mut s = FetchSession::new(sample_job());
    assert_eq!(s.on_status(200), FetchAction::CreateTarget);

    let mut s = FetchSession::new(sample_job());
    assert_eq!(s.on_status(299), FetchAction::CreateTarget);

    let mut s = FetchSession::new(sample_job());
    assert_eq!(s.on_status(300), FetchAction::Finish);
}

#[test]
fn network_error_aborts_with_cause() {
    let mut s = FetchSession::new(sample_job());
    s.on_status(200);
    s.on_chunk(&b"part".to_vec());
    s.on_error(FetchErrorKind::Network, "connection reset".to_string());
    assert_eq!(
        s.outcome,
        Some(FetchOutcome::Failed(FetchError {
            kind: FetchErrorKind::Network,
            cause: "connection reset".to_string(),
        }))
    );
}

#[test]
fn storage_error_aborts_with_cause() {
    let mut s = FetchSession::new(sample_job());
    s.on_status(200);
    s.on_error(FetchErrorKind::Storage, "no space left".to_string());
    assert_eq!(
        s.outcome,
        Some(FetchOutcome::Failed(FetchError {
            kind: FetchErrorKind::Storage,
            cause: "no space left".to_string(),
        }))
    );
}
