use river::status::Status;

fn record(
    time_used: u64,
    cpu_time_used: u64,
    memory_used: u64,
    exit_code: i32,
    status: i32,
    signal: i32,
) -> Status {
    Status { time_used, cpu_time_used, memory_used, exit_code, status, signal }
}

#[test]
fn default_record_is_all_zero() {
    let s = Status::default();
    assert_eq!(s.time_used, 0);
    assert_eq!(s.cpu_time_used, 0);
    assert_eq!(s.memory_used, 0);
    assert_eq!(s.exit_code, 0);
    assert_eq!(s.status, 0);
    assert_eq!(s.signal, 0);
}

#[test]
fn json_of_default_record() {
    let s = Status::default();
    let expected = "{\n  \"time_used\": 0,\n  \"cpu_time_used\": 0,\n  \"memory_used\": 0,\n  \"exit_code\": 0,\n  \"status\": 0,\n  \"signal\": 0\n}\n";
    assert_eq!(s.to_json(), expected);
}

#[test]
fn json_of_mixed_record() {
    let s = record(1500, 750, 2048, -7, 1792, 0);
    let expected = "{\n  \"time_used\": 1500,\n  \"cpu_time_used\": 750,\n  \"memory_used\": 2048,\n  \"exit_code\": -7,\n  \"status\": 1792,\n  \"signal\": 0\n}\n";
    assert_eq!(s.to_json(), expected);
}

#[test]
fn json_is_wellformed_for_other_parsers() {
    let s = record(3, 2, 1, 4, 1024, 9);
    let text = s.to_json();
    let v: serde_json::Value = serde_json::from_str(&text).unwrap();
    assert_eq!(v["time_used"], serde_json::Value::from(3u64));
    assert_eq!(v["cpu_time_used"], serde_json::Value::from(2u64));
    assert_eq!(v["memory_used"], serde_json::Value::from(1u64));
    assert_eq!(v["exit_code"], serde_json::Value::from(4i32));
    assert_eq!(v["status"], serde_json::Value::from(1024i32));
    assert_eq!(v["signal"], serde_json::Value::from(9i32));
    assert_eq!(v.as_object().unwrap().len(), 6);
}

#[test]
fn round_trip_zero() {
    let s = Status::default();
    assert_eq!(Status::from_json(&s.to_json()), Some(s));
}

#[test]
fn round_trip_extremes() {
    let cases = [
        record(u64::MAX, 0, u64::MAX, i32::MIN, i32::MAX, -1),
        record(1, 2, 3, 4, 5, 6),
        record(0, 0, 0, 0, 0, 127),
        record(12345, 9999, 65536, -128, 0x137f, 25),
    ];
    for s in cases {
        let text = s.to_json();
        assert_eq!(Status::from_json(&text), Some(s));
    }
}

#[test]
fn parser_rejects_empty_text() {
    assert_eq!(Status::from_json(""), None);
}

#[test]
fn parser_rejects_trailing_text() {
    let mut text = Status::default().to_json();
    text.push(' ');
    assert_eq!(Status::from_json(&text), None);
}

#[test]
fn parser_rejects_redundant_leading_zero() {
    let text = Status::default().to_json().replacen("\"time_used\": 0", "\"time_used\": 00", 1);
    assert_eq!(Status::from_json(&text), None);
}

#[test]
fn parser_rejects_negative_zero() {
    let text = Status::default().to_json().replacen("\"exit_code\": 0", "\"exit_code\": -0", 1);
    assert_eq!(Status::from_json(&text), None);
}

#[test]
fn parser_rejects_overflowing_counter() {
    let text = Status::default()
        .to_json()
        .replacen("\"time_used\": 0", "\"time_used\": 18446744073709551616", 1);
    assert_eq!(Status::from_json(&text), None);
}

#[test]
fn parser_rejects_reordered_fields() {
    let s = record(1, 2, 3, 4, 5, 6);
    let text = s
        .to_json()
        .replacen("cpu_time_used", "XCPU_TIME_USED", 1);
    assert_eq!(Status::from_json(&text), None);
}
