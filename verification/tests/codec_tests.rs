use event_relay::record::{EventData, encode_event, decode_event};
use event_relay::job::{DispatchJob, encode_job, decode_job};

fn sample_record(sid: &str) -> EventData {
    EventData {
        e: "pv".to_string(),
        eid: "id-1".to_string(),
        tv: "tv-2.0".to_string(),
        tna: "tracker".to_string(),
        aid: "app".to_string(),
        p: "web".to_string(),
        cookie: "1".to_string(),
        cs: Some("UTF-8".to_string()),
        cx: None,
        lang: "en".to_string(),
        res: "1920x1080".to_string(),
        cd: "24".to_string(),
        tz: "UTC".to_string(),
        dtm: "1700000000000".to_string(),
        vp: "800x600".to_string(),
        ds: "800x600".to_string(),
        vid: "7".to_string(),
        sid: sid.to_string(),
        duid: "device-1".to_string(),
        refr: None,
        url: "https://example.com/page".to_string(),
        ue_pr: None,
        ue_px: None,
        co: None,
        stm: "1700000000001".to_string(),
    }
}

#[test]
fn record_round_trip() {
    let r = sample_record("abc");
    let bytes = encode_event(&r);
    let back = decode_event(&bytes);
    assert_eq!(back, Some(r));
}

#[test]
fn record_round_trip_unicode_and_optionals() {
    let mut r = sample_record("sessão-42");
    r.refr = Some("https://vorher.example/läuft?q=日本語".to_string());
    r.co = Some("{\"k\":\"v\"}".to_string());
    r.cx = Some("".to_string());
    let bytes = encode_event(&r);
    let back = decode_event(&bytes);
    assert_eq!(back, Some(r));
}

#[test]
fn job_round_trip() {
    let j = DispatchJob {
        url: "https://x/y.bin".to_string(),
        target_file_name: "out.bin".to_string(),
    };
    let bytes = encode_job(&j);
    let back = decode_job(&bytes);
    assert_eq!(back, Some(j));
}

#[test]
fn job_encoding_exact_bytes() {
    let j = DispatchJob { url: "ab".to_string(), target_file_name: "c".to_string() };
    let bytes = encode_job(&j);
    let expected: Vec<u8> = vec![
        1, 2, 0, 0, 0, 0, 0, 0, 0, b'a', b'b', // present, length 2, "ab"
        1, 1, 0, 0, 0, 0, 0, 0, 0, b'c', // present, length 1, "c"
    ];
    assert_eq!(bytes, expected);
}

#[test]
fn garbage_payload_rejected() {
    let garbage: Vec<u8> = vec![42, 0, 255, 7];
    assert_eq!(decode_event(&garbage), None);
    assert_eq!(decode_job(&garbage), None);
    assert_eq!(decode_job(&Vec::new()), None);
}

#[test]
fn trailing_bytes_rejected() {
    let r = sample_record("abc");
    let mut bytes = encode_event(&r);
    bytes.push(0);
    assert_eq!(decode_event(&bytes), None);

    let j = DispatchJob { url: "u".to_string(), target_file_name: "f".to_string() };
    let mut jb = encode_job(&j);
    jb.push(1);
    assert_eq!(decode_job(&jb), None);
}

#[test]
fn truncated_payload_rejected() {
    let r = sample_record("abc");
    let bytes = encode_event(&r);
    let cut: Vec<u8> = bytes[..bytes.len() - 1].to_vec();
    assert_eq!(decode_event(&cut), None);
}

#[test]
fn invalid_utf8_rejected() {
    // present, length 1, one byte that is not valid UTF-8, then a valid field
    let bad: Vec<u8> = vec![1, 1, 0, 0, 0, 0, 0, 0, 0, 0xFF, 0];
    assert_eq!(decode_job(&bad), None);
}
