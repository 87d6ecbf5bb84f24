use event_relay::record::{EventData, EventBatch, decode_event};
use event_relay::gateway::{IngestSession, DeliveryResult};
use event_relay::error::Error;

fn sample_record(sid: &str) -> EventData {
    EventData {
        e: "pv".to_string(),
        eid: "id-1".to_string(),
        tv: "tv-2.0".to_string(),
        tna: "tracker".to_string(),
        aid: "app".to_string(),
        p: "web".to_string(),
        cookie: "1".to_string(),
        cs: None,
        cx: None,
        lang: "en".to_string(),
        res: "1920x1080".to_string(),
        cd: "24".to_string(),
        tz: "UTC".to_string(),
        dtm: "1700000000000".to_string(),
        vp: "800x600".to_string(),
        ds: "800x600".to_string(),
        vid: "7".to_string(),
        sid: sid.to_string(),
        duid: "device-1".to_string(),
        refr: None,
        url: "https://example.com/page".to_string(),
        ue_pr: None,
        ue_px: None,
        co: None,
        stm: "1700000000001".to_string(),
    }
}

fn sample_batch(sids: &[&str]) -> EventBatch {
    EventBatch {
        schema: "s1".to_string(),
        data: sids.iter().map(|s| sample_record(s)).collect(),
    }
}

#[test]
fn two_records_two_publishes_in_order() {
    let batch = sample_batch(&["abc", "def"]);
    let mut session = IngestSession::new(&batch);
    assert_eq!(session.messages.len(), 2);
    assert_eq!(session.messages[0].key, b"abc".to_vec());
    assert_eq!(session.messages[1].key, b"def".to_vec());

    let first = session.next_message().expect("first publish owed").clone();
    assert_eq!(first.key, b"abc".to_vec());
    session.record_outcome(&DeliveryResult::Delivered { partition: 0, offset: 10 });

    let second = session.next_message().expect("second publish owed").clone();
    assert_eq!(second.key, b"def".to_vec());
    session.record_outcome(&DeliveryResult::Delivered { partition: 0, offset: 11 });

    assert!(session.is_done());
    let (status, body) = session.response();
    assert_eq!(status, 200);
    assert_eq!(body, "ok".to_string());
    assert_eq!(session.failures, 0);
}

#[test]
fn empty_batch_is_done_at_once() {
    let batch = sample_batch(&[]);
    let session = IngestSession::new(&batch);
    assert!(session.next_message().is_none());
    assert!(session.is_done());
    let (status, body) = session.response();
    assert_eq!(status, 200);
    assert_eq!(body, "ok".to_string());
}

#[test]
fn failure_does_not_stop_the_batch() {
    let batch = sample_batch(&["abc", "def", "ghi"]);
    let mut session = IngestSession::new(&batch);

    session.record_outcome(&DeliveryResult::Failed { cause: "broker away".to_string() });
    // the remaining records are still attempted, in order
    let next = session.next_message().expect("second record still owed").clone();
    assert_eq!(next.key, b"def".to_vec());
    session.record_outcome(&DeliveryResult::Failed { cause: "broker away".to_string() });
    let next = session.next_message().expect("third record still owed").clone();
    assert_eq!(next.key, b"ghi".to_vec());
    session.record_outcome(&DeliveryResult::Delivered { partition: 1, offset: 5 });

    assert!(session.is_done());
    assert_eq!(session.attempted, 3);
    assert_eq!(session.failures, 2);
    // a partially failed batch still answers plain success
    let (status, body) = session.response();
    assert_eq!(status, 200);
    assert_eq!(body, "ok".to_string());
}

#[test]
fn published_payload_decodes_to_the_record() {
    let batch = sample_batch(&["abc"]);
    let session = IngestSession::new(&batch);
    let payload = session.messages[0].payload.clone();
    assert_eq!(decode_event(&payload), Some(sample_record("abc")));
}

#[test]
fn malformed_batch_answers_bare_500() {
    let e = Error::new();
    assert_eq!(e.status_code(), 500);
    assert!(e.body().is_empty());
}
