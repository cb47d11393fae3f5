use pushel::motion::{MotionStatus, MotionTracker};
use pushel::presence::{presence_push, push_request};

#[test]
fn request_shape() {
    let r = push_request("http://ha.local:8123//", "SECRET-REDACTED", MotionStatus::Active, 1700000000);
    assert_eq!(r.url, "http://ha.local:8123/api/states/sensor.pushel_motion");
    assert_eq!(r.authorization, "Bearer SECRET-REDACTED");
    let body: serde_json::Value = serde_json::from_str(&r.body).unwrap();
    assert_eq!(body["state"], "active");
    assert_eq!(body["attributes"]["friendly_name"], "Pushel Motion Detection");
    assert_eq!(body["attributes"]["last_update"], 1700000000u64);
    assert_eq!(body["attributes"]["device_class"], "motion");
}

#[test]
fn exact_body_text() {
    let r = push_request("http://h", "k", MotionStatus::Inactive, 0);
    assert_eq!(r.url, "http://h/api/states/sensor.pushel_motion");
    assert_eq!(
        r.body,
        "{\"state\":\"inactive\",\"attributes\":{\"friendly_name\":\"Pushel Motion Detection\",\"last_update\":0,\"device_class\":\"motion\"}}"
    );
}

#[test]
fn pushed_only_on_transition_when_configured() {
    let mut m = MotionTracker::new();
    let first = m.update_status(MotionStatus::Active);
    let second = m.update_status(MotionStatus::Active);
    let url = Some("http://h");
    let key = Some("k");
    let pushed = presence_push(first, url, key, 5).unwrap();
    assert!(pushed.body.contains("\"state\":\"active\""));
    assert!(presence_push(second, url, key, 6).is_none());
    assert!(presence_push(first, None, key, 5).is_none());
    assert!(presence_push(first, url, None, 5).is_none());
}
