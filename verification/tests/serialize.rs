//! Serialization and URL building.

use host_agent::config::EndpointConfig;
use host_agent::report::build_record;
use host_agent::report::endpoint_url;
use host_agent::report::serialize_record;
use host_agent::report::status_is_success;
use host_agent::report::ResultRecord;

#[test]
fn record_serializes_to_flat_object() {
    let record = ResultRecord {
        command: "echo hi".to_string(),
        output: "hi\n".to_string(),
        device_id: "abc-123".to_string(),
    };
    let json = serialize_record(&record);
    assert_eq!(
        json,
        "{\"command\":\"echo hi\",\"output\":\"hi\\n\",\"device_id\":\"abc-123\"}"
    );
}

#[test]
fn record_round_trips_through_a_json_parser() {
    let record = build_record("echo hi", &b"hi\n".to_vec(), "abc-123");
    assert_eq!(record.command, "echo hi");
    assert_eq!(record.output, "hi\n");
    assert_eq!(record.device_id, "abc-123");
    let json = serialize_record(&record);
    let value: serde_json::Value = serde_json::from_str(&json).unwrap();
    let object = value.as_object().unwrap();
    assert_eq!(object.len(), 3);
    assert_eq!(object.get("command").unwrap().as_str().unwrap(), "echo hi");
    assert_eq!(object.get("output").unwrap().as_str().unwrap(), "hi\n");
    assert_eq!(object.get("device_id").unwrap().as_str().unwrap(), "abc-123");
}

#[test]
fn escapes_round_trip_through_a_json_parser() {
    let record = ResultRecord {
        command: "say \"hi\"".to_string(),
        output: "a\\b\nc\rd\te\u{08}f\u{0c}g\u{01}h\u{1f}i".to_string(),
        device_id: "unicode \u{3042} stays".to_string(),
    };
    let json = serialize_record(&record);
    let value: serde_json::Value = serde_json::from_str(&json).unwrap();
    assert_eq!(
        value.get("command").unwrap().as_str().unwrap(),
        "say \"hi\""
    );
    assert_eq!(
        value.get("output").unwrap().as_str().unwrap(),
        "a\\b\nc\rd\te\u{08}f\u{0c}g\u{01}h\u{1f}i"
    );
    assert_eq!(
        value.get("device_id").unwrap().as_str().unwrap(),
        "unicode \u{3042} stays"
    );
}

#[test]
fn control_characters_use_unicode_escapes() {
    let record = ResultRecord {
        command: String::new(),
        output: "\u{00}\u{01}\u{1f}".to_string(),
        device_id: String::new(),
    };
    let json = serialize_record(&record);
    assert!(json.contains("\\u0000"));
    assert!(json.contains("\\u0001"));
    assert!(json.contains("\\u001f"));
}

#[test]
fn invalid_output_bytes_are_replaced_not_fatal() {
    let record = build_record("cat data", &vec![0xff, b'h', b'i'], "dev");
    assert_eq!(record.output, "\u{fffd}hi");
    let record = build_record("true", &Vec::new(), "dev");
    assert_eq!(record.output, "");
}

#[test]
fn url_has_host_port_and_path() {
    let endpoint = EndpointConfig {
        host: "127.0.0.1".to_string(),
        port: 9000,
    };
    assert_eq!(endpoint_url(&endpoint), "http://127.0.0.1:9000/api/commands");
}

#[test]
fn url_port_edge_values() {
    let low = EndpointConfig {
        host: "collector.example".to_string(),
        port: 0,
    };
    assert_eq!(endpoint_url(&low), "http://collector.example:0/api/commands");
    let high = EndpointConfig {
        host: "h".to_string(),
        port: 65535,
    };
    assert_eq!(endpoint_url(&high), "http://h:65535/api/commands");
}

#[test]
fn success_statuses_are_the_2xx_class() {
    assert!(status_is_success(200));
    assert!(status_is_success(204));
    assert!(status_is_success(299));
    assert!(!status_is_success(199));
    assert!(!status_is_success(300));
    assert!(!status_is_success(404));
    assert!(!status_is_success(500));
}
