use video_worker::envelope::{assemble, parse_envelope, EnvelopeError};
use video_worker::json::{find, JsonObject};
use video_worker::status::{fail_job, stamp_status, status_key, update_job_status, StatusError};

fn fields(list: &[(&str, &str)]) -> Vec<(String, String)> {
    list.iter().map(|(k, v)| (k.to_string(), v.to_string())).collect()
}

#[test]
fn object_members_are_read_by_key() {
    let object = JsonObject::parse(r#" {"b": 17, "a": "x\ny", "c": [1, 2], "d": {"e": null}} "#).unwrap();
    assert_eq!(object.len(), 4);
    assert_eq!(object.get("a").map(|s| s.as_str()), Some(r#""x\ny""#));
    assert_eq!(object.get("b").map(|s| s.as_str()), Some("17"));
    assert_eq!(object.get("c").map(|s| s.as_str()), Some("[1, 2]"));
    assert_eq!(object.get("d").map(|s| s.as_str()), Some(r#"{"e": null}"#));
    assert_eq!(object.get("e"), None);
    assert_eq!(object.string_member("a"), Some("x\ny".to_string()));
    assert_eq!(object.string_member("b"), None);
    assert_eq!(object.string_member("zz"), None);
    assert_eq!(object.unsigned_member("b"), Some(17));
    assert_eq!(object.unsigned_member("a"), None);
    assert_eq!(object.unsigned_member("zz"), None);
}

#[test]
fn object_members_come_in_key_order_and_the_later_duplicate_counts() {
    let object = JsonObject::parse(r#"{"z":1,"a":2,"m":3,"a":4}"#).unwrap();
    assert_eq!(object.render(), r#"{"a":4,"m":3,"z":1}"#);
}

#[test]
fn only_objects_are_objects() {
    assert!(JsonObject::parse("[1]").is_none());
    assert!(JsonObject::parse("3").is_none());
    assert!(JsonObject::parse("null").is_none());
    assert!(JsonObject::parse("").is_none());
    assert!(JsonObject::parse("{").is_none());
    assert!(JsonObject::parse("{} {}").is_none());
    assert_eq!(JsonObject::parse("{}").unwrap().len(), 0);
    assert_eq!(JsonObject::parse_or_empty("[1]").len(), 0);
    assert_eq!(JsonObject::parse_or_empty(r#"{"a":1}"#).len(), 1);
    assert_eq!(JsonObject::new().render(), "{}");
}

#[test]
fn unsigned_members_are_whole_and_fit() {
    let object = JsonObject::parse(
        r#"{"max":18446744073709551615,"over":18446744073709551616,"neg":-1,"frac":1.0,"exp":1e2,"zero":0}"#,
    )
    .unwrap();
    assert_eq!(object.unsigned_member("max"), Some(u64::MAX));
    assert_eq!(object.unsigned_member("over"), None);
    assert_eq!(object.unsigned_member("neg"), None);
    assert_eq!(object.unsigned_member("frac"), None);
    assert_eq!(object.unsigned_member("exp"), None);
    assert_eq!(object.unsigned_member("zero"), Some(0));
}

#[test]
fn set_replaces_in_place_or_appends() {
    let mut object = JsonObject::parse(r#"{"a":1,"b":2}"#).unwrap();
    object.set_unsigned("a", 70);
    object.set_unsigned("c", 0);
    object.set_string("b", "two \"2\"");
    assert_eq!(object.render(), r#"{"a":70,"b":"two \"2\"","c":0}"#);
    assert_eq!(object.len(), 3);
    assert_eq!(object.unsigned_member("a"), Some(70));
    assert_eq!(object.string_member("b"), Some("two \"2\"".to_string()));
}

#[test]
fn keys_are_escaped_when_rendered() {
    let mut object = JsonObject::new();
    object.set_unsigned("a\"b", 1);
    assert_eq!(object.render(), r#"{"a\"b":1}"#);
    let back = JsonObject::parse(object.render().as_str()).unwrap();
    assert_eq!(back.unsigned_member("a\"b"), Some(1));
}

#[test]
fn strings_are_written_as_json_strings() {
    let mut object = JsonObject::new();
    object.set_string("plain", "plain");
    object.set_string("odd", "a\"b\\c\nd");
    object.set_string("empty", "");
    object.set_string("accent", "é");
    assert_eq!(object.get("plain").map(|s| s.as_str()), Some("\"plain\""));
    assert_eq!(object.get("odd").map(|s| s.as_str()), Some("\"a\\\"b\\\\c\\nd\""));
    assert_eq!(object.get("empty").map(|s| s.as_str()), Some("\"\""));
    assert_eq!(object.get("accent").map(|s| s.as_str()), Some("\"é\""));
    assert_eq!(object.string_member("odd"), Some("a\"b\\c\nd".to_string()));
}

#[test]
fn find_takes_the_first_of_equal_keys() {
    let list = fields(&[("a", "1"), ("b", "2"), ("a", "3")]);
    assert_eq!(find(&list, "a").map(|s| s.as_str()), Some("1"));
    assert_eq!(find(&list, "b").map(|s| s.as_str()), Some("2"));
    assert_eq!(find(&list, "c"), None);
}

#[test]
fn status_key_names_the_job() {
    assert_eq!(status_key("J1"), "job:J1");
    assert_eq!(status_key(""), "job:");
}

#[test]
fn stamp_sets_status_progress_and_time() {
    let record = r#"{"status":"queued","progress":0,"url":"https://example/v.mp4","created_at":"2024-01-01T00:00:00Z"}"#;
    let out = stamp_status(Some(record), "downloading", 10, "2024-05-06T07:08:09+00:00").unwrap().unwrap();
    assert_eq!(
        out,
        r#"{"created_at":"2024-01-01T00:00:00Z","progress":10,"status":"downloading","url":"https://example/v.mp4","updated_at":"2024-05-06T07:08:09+00:00"}"#
    );
}

#[test]
fn stamp_adds_what_the_record_lacks() {
    let out = stamp_status(Some("{}"), "failed", 0, "T").unwrap().unwrap();
    assert_eq!(out, r#"{"status":"failed","progress":0,"updated_at":"T"}"#);
    let out = stamp_status(Some(r#"{"progress": 99}"#), "ai_processing", 80, "T").unwrap().unwrap();
    assert_eq!(out, r#"{"progress":80,"status":"ai_processing","updated_at":"T"}"#);
    let out = stamp_status(Some("{}"), "x", 4294967295, "T").unwrap().unwrap();
    assert_eq!(out, r#"{"status":"x","progress":4294967295,"updated_at":"T"}"#);
}

#[test]
fn stamp_keeps_other_members_as_written() {
    let record = r#"{"meta": {"tries": [1, 2.50, 3e2]}, "note": "aé", "status": "x"}"#;
    let out = stamp_status(Some(record), "downloading", 10, "T").unwrap().unwrap();
    let value: serde_json::Value = serde_json::from_str(&out).unwrap();
    let before: serde_json::Value = serde_json::from_str(record).unwrap();
    assert_eq!(value["meta"], before["meta"]);
    assert_eq!(value["note"], before["note"]);
    assert_eq!(value["status"], "downloading");
    assert_eq!(value["progress"], 10);
    assert_eq!(value["updated_at"], "T");
    assert_eq!(value.as_object().unwrap().len(), 5);
    assert!(out.contains(r#""meta":{"tries": [1, 2.50, 3e2]}"#));
}

#[test]
fn missing_record_is_a_silent_success() {
    assert_eq!(update_job_status(None, "downloading", 10), Ok(None));
    assert_eq!(stamp_status(None, "downloading", 10, "T"), Ok(None));
    assert_eq!(fail_job(None, "Download failed: x"), Ok(None));
}

#[test]
fn record_that_is_no_object_is_malformed() {
    for record in ["", "not json", "[]", "3", "null", "{\"a\":"] {
        assert_eq!(update_job_status(Some(record), "downloading", 10), Err(StatusError::Malformed));
        assert_eq!(stamp_status(Some(record), "downloading", 10, "T"), Err(StatusError::Malformed));
        assert_eq!(fail_job(Some(record), "m"), Err(StatusError::Malformed));
    }
}

#[test]
fn update_stamps_the_current_time() {
    let before = chrono::Utc::now();
    let out = update_job_status(Some(r#"{"status":"queued","owner":"u1"}"#), "processing_video", 25)
        .unwrap()
        .unwrap();
    let after = chrono::Utc::now();
    let value: serde_json::Value = serde_json::from_str(&out).unwrap();
    assert_eq!(value["status"], "processing_video");
    assert_eq!(value["progress"], 25);
    assert_eq!(value["owner"], "u1");
    let stamp = chrono::DateTime::parse_from_rfc3339(value["updated_at"].as_str().unwrap()).unwrap();
    assert_eq!(stamp.offset().local_minus_utc(), 0);
    assert!(before <= stamp && stamp <= after);
}

#[test]
fn fail_notes_the_error_message() {
    let updated = stamp_status(Some(r#"{"status":"downloading","progress":10}"#), "failed", 0, "T")
        .unwrap()
        .unwrap();
    let out = fail_job(Some(updated.as_str()), "Download failed: yt-dlp failed: \"404\"").unwrap().unwrap();
    let value: serde_json::Value = serde_json::from_str(&out).unwrap();
    assert_eq!(value["status"], "failed");
    assert_eq!(value["progress"], 0);
    assert_eq!(value["updated_at"], "T");
    assert_eq!(value["error_message"], "Download failed: yt-dlp failed: \"404\"");
    assert_eq!(
        out,
        r#"{"progress":0,"status":"failed","updated_at":"T","error_message":"Download failed: yt-dlp failed: \"404\""}"#
    );
}

#[test]
fn fail_replaces_an_earlier_message() {
    let out = fail_job(Some(r#"{"error_message":"old","status":"failed"}"#), "new").unwrap().unwrap();
    assert_eq!(out, r#"{"error_message":"new","status":"failed"}"#);
}

#[test]
fn envelope_in_data() {
    let envelope = parse_envelope(&fields(&[(
        "data",
        r#"{"job_id":"J1","url":"https://example/v.mp4","priority":3}"#,
    )]))
    .unwrap();
    assert_eq!(envelope.job_id, "J1");
    assert_eq!(envelope.url, "https://example/v.mp4");
}

#[test]
fn envelope_in_plain_fields() {
    let envelope = parse_envelope(&fields(&[
        ("extra", "1"),
        ("url", "https://example/v.mp4"),
        ("job_id", "J1"),
    ]))
    .unwrap();
    assert_eq!(envelope.job_id, "J1");
    assert_eq!(envelope.url, "https://example/v.mp4");
}

#[test]
fn decodable_data_decides_alone() {
    let list = fields(&[("data", r#"{"url":"u"}"#), ("job_id", "J1"), ("url", "u")]);
    assert_eq!(parse_envelope(&list).unwrap_err(), EnvelopeError::MissingJobId);
    let list = fields(&[("data", "5"), ("job_id", "J1"), ("url", "u")]);
    assert_eq!(parse_envelope(&list).unwrap_err(), EnvelopeError::MissingJobId);
    let list = fields(&[("data", r#"{"job_id":7,"url":"u"}"#)]);
    assert_eq!(parse_envelope(&list).unwrap_err(), EnvelopeError::MissingJobId);
    let list = fields(&[("data", r#"{"job_id":"J1"}"#), ("url", "u")]);
    assert_eq!(parse_envelope(&list).unwrap_err(), EnvelopeError::MissingUrl);
    let list = fields(&[("data", r#"{"job_id":"J1","url":null}"#)]);
    assert_eq!(parse_envelope(&list).unwrap_err(), EnvelopeError::MissingUrl);
}

#[test]
fn undecodable_data_falls_back_to_plain_fields() {
    let list = fields(&[("data", "{oops"), ("job_id", "J1"), ("url", "u")]);
    let envelope = parse_envelope(&list).unwrap();
    assert_eq!(envelope.job_id, "J1");
    assert_eq!(envelope.url, "u");
    assert_eq!(parse_envelope(&fields(&[("data", "{oops")])).unwrap_err(), EnvelopeError::Undecodable);
}

#[test]
fn message_without_envelope_is_rejected() {
    assert_eq!(parse_envelope(&fields(&[])).unwrap_err(), EnvelopeError::Undecodable);
    assert_eq!(parse_envelope(&fields(&[("url", "u")])).unwrap_err(), EnvelopeError::Undecodable);
    assert_eq!(parse_envelope(&fields(&[("job_id", "J1")])).unwrap_err(), EnvelopeError::MissingUrl);
}

#[test]
fn envelope_error_texts() {
    assert_eq!(EnvelopeError::Undecodable.message(), "Failed to parse job data");
    assert_eq!(EnvelopeError::MissingJobId.message(), "Job ID not found");
    assert_eq!(EnvelopeError::MissingUrl.message(), "URL not found");
}

#[test]
fn assemble_needs_both_parts() {
    let ok = assemble(Some("J".to_string()), Some("u".to_string()), EnvelopeError::Undecodable).unwrap();
    assert_eq!(ok.job_id, "J");
    assert_eq!(ok.url, "u");
    assert_eq!(
        assemble(None, Some("u".to_string()), EnvelopeError::Undecodable).unwrap_err(),
        EnvelopeError::Undecodable
    );
    assert_eq!(
        assemble(None, None, EnvelopeError::MissingJobId).unwrap_err(),
        EnvelopeError::MissingJobId
    );
    assert_eq!(
        assemble(Some("J".to_string()), None, EnvelopeError::MissingJobId).unwrap_err(),
        EnvelopeError::MissingUrl
    );
}
