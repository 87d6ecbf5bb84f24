use event_relay::consumer::{
    PartitionConsumer, MessageDisposition, MessageOutcome, OffsetAction, StartupDecision,
    startup_decision,
};
use event_relay::fetch::{FetchOutcome, FetchError, FetchErrorKind};
use event_relay::job::{DispatchJob, encode_job};
use event_relay::config::{producer_config, consumer_config};

fn job_payload(url: &str, target: &str) -> Vec<u8> {
    encode_job(&DispatchJob { url: url.to_string(), target_file_name: target.to_string() })
}

#[test]
fn messages_processed_in_delivery_order() {
    let mut c = PartitionConsumer::new();

    let d = c.begin_message(5, &job_payload("https://x/a", "a.bin"));
    assert!(matches!(d, MessageDisposition::RunFetch(_)));
    c.complete_message(&MessageOutcome::Fetched(FetchOutcome::Completed));

    let d = c.begin_message(6, &job_payload("https://x/b", "b.bin"));
    assert!(matches!(d, MessageDisposition::RunFetch(_)));
    c.complete_message(&MessageOutcome::Fetched(FetchOutcome::Completed));

    assert_eq!(c.handled, vec![5, 6]);
}

#[test]
fn begin_decodes_the_job() {
    let mut c = PartitionConsumer::new();
    let d = c.begin_message(1, &job_payload("https://x/y.bin", "out.bin"));
    match d {
        MessageDisposition::RunFetch(job) => {
            assert_eq!(job.url, "https://x/y.bin".to_string());
            assert_eq!(job.target_file_name, "out.bin".to_string());
        }
        MessageDisposition::SkipMalformed => panic!("payload was well-formed"),
    }
}

#[test]
fn success_stores_offset_before_next_commit() {
    let mut c = PartitionConsumer::new();
    assert_eq!(c.commit_tick(), None);

    c.begin_message(7, &job_payload("https://x/y", "y.bin"));
    let a = c.complete_message(&MessageOutcome::Fetched(FetchOutcome::Completed));
    assert_eq!(a, OffsetAction::StoreOffset(7));
    // the very next periodic commit flushes the processed position
    assert_eq!(c.commit_tick(), Some(7));
}

#[test]
fn skipped_status_still_acknowledges() {
    let mut c = PartitionConsumer::new();
    c.begin_message(3, &job_payload("https://x/gone", "gone.bin"));
    let a = c.complete_message(&MessageOutcome::Fetched(FetchOutcome::SkippedStatus(404)));
    assert_eq!(a, OffsetAction::StoreOffset(3));
    assert_eq!(c.commit_tick(), Some(3));
}

#[test]
fn failed_fetch_leaves_offset_unstored() {
    let mut c = PartitionConsumer::new();
    c.begin_message(9, &job_payload("https://x/y", "y.bin"));
    let a = c.complete_message(&MessageOutcome::Fetched(FetchOutcome::Failed(FetchError {
        kind: FetchErrorKind::Network,
        cause: "connection reset".to_string(),
    })));
    assert_eq!(a, OffsetAction::LeaveUnstored);
    // nothing acknowledged: the message may be delivered again
    assert_eq!(c.commit_tick(), None);
    assert_eq!(c.handled, vec![9]);
}

#[test]
fn malformed_payload_skipped_and_acknowledged() {
    let mut c = PartitionConsumer::new();
    let garbage: Vec<u8> = vec![9, 9, 9];
    let d = c.begin_message(2, &garbage);
    assert_eq!(d, MessageDisposition::SkipMalformed);
    let a = c.complete_message(&MessageOutcome::Malformed);
    assert_eq!(a, OffsetAction::StoreOffset(2));
    assert_eq!(c.commit_tick(), Some(2));
}

#[test]
fn unreachable_broker_is_fatal_at_startup() {
    assert_eq!(startup_decision(false), StartupDecision::FatalExit);
    assert_eq!(startup_decision(true), StartupDecision::Proceed);
}

#[test]
fn adapter_configuration_values() {
    let p = producer_config("127.0.0.1:19092".to_string());
    assert_eq!(p.bootstrap_servers, "127.0.0.1:19092".to_string());
    assert_eq!(p.message_timeout_ms, 5000);

    let c = consumer_config(
        "localhost:19092".to_string(),
        "workers".to_string(),
        "jobs".to_string(),
    );
    assert_eq!(c.session_timeout_ms, 6000);
    assert!(c.auto_commit);
    assert_eq!(c.auto_commit_interval_ms, 5000);
    assert!(c.manual_offset_store);
    assert!(!c.partition_eof_events);
}
