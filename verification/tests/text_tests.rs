use camera_app::text::{joined, push_decimal, push_decimal_pad2, recording_time_label, same_text};

#[test]
fn recording_label_under_a_minute() {
    assert_eq!(recording_time_label(0), "00:00");
    assert_eq!(recording_time_label(1), "00:01");
    assert_eq!(recording_time_label(59), "00:59");
}

#[test]
fn recording_label_minutes_and_seconds() {
    assert_eq!(recording_time_label(60), "01:00");
    assert_eq!(recording_time_label(65), "01:05");
    assert_eq!(recording_time_label(754), "12:34");
    assert_eq!(recording_time_label(3599), "59:59");
}

#[test]
fn recording_label_beyond_two_digit_minutes() {
    assert_eq!(recording_time_label(6000), "100:00");
    assert_eq!(recording_time_label(6001), "100:01");
    assert_eq!(recording_time_label(u64::MAX), format!("{:02}:{:02}", u64::MAX / 60, u64::MAX % 60));
}

#[test]
fn recording_label_matches_std_formatting() {
    for s in [0u64, 7, 9, 10, 61, 599, 600, 3600, 86399, 123456] {
        assert_eq!(recording_time_label(s), format!("{:02}:{:02}", s / 60, s % 60));
    }
}

#[test]
fn recording_labels_are_distinct() {
    let labels: Vec<String> = (0u64..4000).map(recording_time_label).collect();
    for i in 0..labels.len() {
        for j in (i + 1)..labels.len() {
            assert_ne!(labels[i], labels[j]);
        }
    }
}

#[test]
fn recording_label_seconds_field_has_two_digits() {
    for s in [0u64, 5, 59, 60, 125, 3605, 100000] {
        let label = recording_time_label(s);
        let seconds_field = &label[label.len() - 2..];
        assert_eq!(seconds_field, format!("{:02}", s % 60));
        assert_eq!(&label[label.len() - 3..label.len() - 2], ":");
    }
}

#[test]
fn decimal_digits_are_appended() {
    let mut out = String::from("n=");
    push_decimal(&mut out, 0);
    assert_eq!(out, "n=0");
    push_decimal(&mut out, 1234567890);
    assert_eq!(out, "n=01234567890");
    let mut padded = String::new();
    push_decimal_pad2(&mut padded, 3);
    push_decimal_pad2(&mut padded, 42);
    push_decimal_pad2(&mut padded, 123);
    assert_eq!(padded, "0342123");
}

#[test]
fn text_helpers() {
    assert!(same_text("720p", "720p"));
    assert!(!same_text("720p", "720P"));
    assert!(!same_text("", "a"));
    assert_eq!(joined("Saved ", "/tmp/x.jpg"), "Saved /tmp/x.jpg");
    assert_eq!(joined("", ""), "");
}
