use pushel::motion::MotionTracker;
use pushel::notify::{notify_send_args, AdhocNotification, NotificationConfig};

fn full_config() -> NotificationConfig {
    NotificationConfig {
        title: Some("Erinnerung".to_string()),
        message: "Trink Wasser!".to_string(),
        interval: "30m".to_string(),
        urgency: Some("low".to_string()),
        expire_time: Some(5000),
        app_name: Some("Pushel".to_string()),
        icon: Some("dialog-information".to_string()),
        category: Some("reminder".to_string()),
        transient: Some(true),
    }
}

#[test]
fn all_options_in_order() {
    let args = notify_send_args(&full_config());
    assert_eq!(
        args,
        vec![
            "Erinnerung",
            "Trink Wasser!",
            "--urgency=low",
            "--expire-time=5000",
            "--app-name=Pushel",
            "--icon=dialog-information",
            "--category=reminder",
            "--transient",
        ]
    );
}

#[test]
fn defaults_when_nothing_set() {
    let config = NotificationConfig {
        title: None,
        message: "Pause".to_string(),
        interval: "2h".to_string(),
        urgency: None,
        expire_time: None,
        app_name: None,
        icon: None,
        category: None,
        transient: Some(false),
    };
    assert_eq!(notify_send_args(&config), vec!["Erinnerung", "Pause"]);
}

#[test]
fn expire_time_extremes() {
    let mut config = full_config();
    config.expire_time = Some(0);
    assert_eq!(notify_send_args(&config)[3], "--expire-time=0");
    config.expire_time = Some(u32::MAX);
    assert_eq!(notify_send_args(&config)[3], "--expire-time=4294967295");
}

#[test]
fn adhoc_request_is_shown_without_activity() {
    let tracker = MotionTracker::new();
    assert!(!tracker.should_notify(1000));
    let request = AdhocNotification {
        title: Some("Hallo".to_string()),
        message: "Jetzt".to_string(),
        urgency: Some("critical".to_string()),
        expire_time: None,
        app_name: None,
        icon: None,
        category: None,
        transient: None,
    };
    let config = request.into_config();
    assert_eq!(config.interval, "");
    assert_eq!(
        notify_send_args(&config),
        vec!["Hallo", "Jetzt", "--urgency=critical"]
    );
}
