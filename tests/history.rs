use darksky_r::history::history_fields;

const FULL: &str = r#"{
  "currently": {"time": 1600000000, "summary": "Light Rain", "icon": "rain",
                "windBearing": 225, "precipType": "rain", "uvIndex": 3},
  "daily": {"data": [{"sunriseTime": 1599970000, "sunsetTime": 1600015000}]}
}"#;

#[test]
fn history_fields_from_full_payload() {
    let f = history_fields(FULL);
    assert_eq!(f.timestamp, 1600000000);
    assert_eq!(f.summary, "Light Rain");
    assert_eq!(f.icon, "rain");
    assert_eq!(f.windbearing, 225);
    assert_eq!(f.precip_type, "rain");
    assert_eq!(f.uvindex, 3);
    assert_eq!(f.sunrise, 1599970000);
    assert_eq!(f.sunset, 1600015000);
}

#[test]
fn history_fields_default_when_missing() {
    let f = history_fields(r#"{"currently": {"time": 42, "summary": "Clear"}}"#);
    assert_eq!(f.timestamp, 42);
    assert_eq!(f.summary, "Clear");
    assert_eq!(f.icon, "unknown");
    assert_eq!(f.windbearing, 0);
    assert_eq!(f.precip_type, "none");
    assert_eq!(f.uvindex, 0);
    assert_eq!(f.sunrise, 0);
    assert_eq!(f.sunset, 0);
}

#[test]
fn history_fields_of_two_payloads_are_independent() {
    let a = history_fields(FULL);
    let b = history_fields(r#"{"currently": {"time": 7, "precipType": "snow"}}"#);
    assert_eq!(a.precip_type, "rain");
    assert_eq!(b.precip_type, "snow");
    assert_eq!(b.timestamp, 7);
    assert_eq!(a.timestamp, 1600000000);
}

#[test]
fn history_fields_of_wrong_types_and_bad_text() {
    let f = history_fields(r#"{"currently": {"time": 1.5, "summary": 3, "uvIndex": "high"}}"#);
    assert_eq!(f.timestamp, 0);
    assert_eq!(f.summary, "unknown");
    assert_eq!(f.uvindex, 0);
    let f = history_fields("not json");
    assert_eq!(f.timestamp, 0);
    assert_eq!(f.summary, "unknown");
    assert_eq!(f.precip_type, "none");
}
