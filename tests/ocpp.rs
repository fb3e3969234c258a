use ocpp_core::json::parse_u32;
use ocpp_core::messages::{BootNotificationRequest, HeartbeatRequest};
use ocpp_core::normalize_input::normalize_json_input_datetimes;
use ocpp_core::ocpp::{
    message_type_of, parse_ocpp_message, Action, CallPayload, CallResultPayload, OcppMessage,
    OcppMessageType, ProtocolError,
};
use ocpp_core::vocabulary::{is_charge_point_error_code, is_charge_point_status, is_timestamp};

// A fixed UUID for unit testing
const UNIQUE_ID: &str = "4b05fb33-6510-445e-b7c4-d3a6c611400e";
// A fixed charge_point_serial_number for unit testing
const SERIAL_NUMBER: &str = "123456";
const BOOT_NOTIFICATION_CALL: &str = r#"[2,"4b05fb33-6510-445e-b7c4-d3a6c611400e","BootNotification",{"chargePointModel":"TRI93-50-01","chargePointSerialNumber":"123456","chargePointVendor":"Tritium","firmwareVersion":"v2.3.2","iccid":"89014103270749598363","imsi":"310410074959836"}]"#;
const STATUS_NOTIFICATION_CALL_WITH_MISSING_FIELDS: &str = r#"[2,"4b05fb33-6510-445e-b7c4-d3a6c611400e","StatusNotification",{"connectorId":1,"errorCode":"NoError","status":"Preparing","timestamp":"2023-03-17T22:42:50.008427"}]"#;

#[test]
fn test_parse_boot_notification() {
    let message = parse_ocpp_message(BOOT_NOTIFICATION_CALL.into()).expect("Could not parse test JSON");

    match message {
        OcppMessage::Call {
            unique_id,
            action,
            payload: CallPayload::BootNotification(BootNotificationRequest { charge_point_serial_number, .. }),
        } => {
            assert_eq!(action, Action::BootNotification);
            assert_eq!(unique_id, UNIQUE_ID);
            assert_eq!(charge_point_serial_number, Some(SERIAL_NUMBER.to_string()));
        }
        _ => panic!("Expected BootNotification Call with BootNotification CallPayload"),
    }
}

#[test]
fn test_serde_boot_notification_call() {
    let message = parse_ocpp_message(BOOT_NOTIFICATION_CALL.into()).expect("Could not parse test JSON");

    let json: String = message.to_json_text();
    assert_eq!(json, BOOT_NOTIFICATION_CALL);
}

#[test]
fn test_serde_status_notification_call() {
    let message = parse_ocpp_message(STATUS_NOTIFICATION_CALL_WITH_MISSING_FIELDS.into())
        .expect("Could not parse test JSON");

    let json: String = message.to_json_text();
    assert_eq!(
        json,
        normalize_json_input_datetimes(STATUS_NOTIFICATION_CALL_WITH_MISSING_FIELDS)
            .expect("Could not normalize JSON")
            .to_string()
    );
}

#[test]
fn test_serde_datetimes() {
    assert!(is_timestamp("2023-03-17T22:42:50.008427Z"));
    assert!(is_timestamp("2023-03-17T22:42:50Z"));
}

#[test]
fn test_bad_serde_datetimes() {
    assert!(!is_timestamp("2023-03-17T22:42"));
    let datetime: Result<chrono::DateTime<chrono::Utc>, serde_json::Error> =
        serde_json::from_str(r#""2023-03-17T22:42""#);
    assert!(datetime.is_err());
    assert!(datetime.as_ref().unwrap_err().is_data());
    assert!(datetime.as_ref().unwrap_err().to_string().contains("premature end of input"));
}

#[test]
fn test_serde_common_constants() {
    assert!(is_charge_point_error_code("NoError"));
    assert!(is_charge_point_error_code("ResetFailure"));
    assert!(is_charge_point_status("Available"));
    assert!(is_charge_point_status("Charging"));
    assert!(!is_charge_point_status("Sleeping"));
    assert!(!is_charge_point_error_code("Available"));
}

#[test]
fn decode_of_encode_gives_the_call_back() {
    let texts = [
        BOOT_NOTIFICATION_CALL,
        STATUS_NOTIFICATION_CALL_WITH_MISSING_FIELDS,
        r#"[2,"h","Heartbeat",{"extra":true}]"#,
        r#"[2,"a","Authorize",{"idTag":"TAG1"}]"#,
        r#"[2,"m","MeterValues",{"connectorId":2,"meterValue":[{"timestamp":"2023-03-17T22:42:50Z","sampledValue":[{"value":"12.5"}]}]}]"#,
    ];
    for text in texts {
        let first = parse_ocpp_message(text.to_string()).unwrap();
        let encoded = first.to_json();
        let second = OcppMessage::from_json(&encoded, None).unwrap();
        assert_eq!(second.to_json(), encoded);
        assert_eq!(second.to_json_text(), first.to_json_text());
    }
}

#[test]
fn boot_notification_with_only_required_fields_decodes() {
    let message = parse_ocpp_message(
        r#"[2,"x","BootNotification",{"chargePointModel":"M","chargePointVendor":"V"}]"#.to_string(),
    )
    .unwrap();
    match message {
        OcppMessage::Call { unique_id, action, payload: CallPayload::BootNotification(b) } => {
            assert_eq!(unique_id, "x");
            assert_eq!(action, Action::BootNotification);
            assert_eq!(b.charge_point_model, "M");
            assert_eq!(b.charge_point_vendor, "V");
            assert_eq!(b.charge_point_serial_number, None);
            assert_eq!(b.firmware_version, None);
            assert_eq!(b.iccid, None);
            assert_eq!(b.imsi, None);
        }
        other => panic!("unexpected {:?}", other),
    }
}

#[test]
fn timestamp_without_zone_fails_without_normalization() {
    let text = r#"[2,"s","StatusNotification",{"connectorId":1,"errorCode":"NoError","status":"Preparing","timestamp":"2023-03-17T22:42:50.008427"}]"#;
    let raw: serde_json::Value = serde_json::from_str(text).unwrap();
    assert_eq!(OcppMessage::from_json(&raw, None).unwrap_err(), ProtocolError::PayloadMismatch);
    assert!(parse_ocpp_message(text.to_string()).is_ok());
    let bare_year = r#"[2,"s","StatusNotification",{"connectorId":1,"errorCode":"NoError","status":"Preparing","timestamp":"2023"}]"#;
    assert_eq!(parse_ocpp_message(bare_year.to_string()).unwrap_err(), ProtocolError::PayloadMismatch);
}

#[test]
fn decode_errors() {
    let cases: [(&str, ProtocolError); 12] = [
        ("not json", ProtocolError::MalformedJson),
        (r#"{"a":1}"#, ProtocolError::MalformedEnvelope),
        ("[]", ProtocolError::UnknownMessageType),
        (r#"[5,"a","Heartbeat",{}]"#, ProtocolError::UnknownMessageType),
        (r#"[2.0,"a","Heartbeat",{}]"#, ProtocolError::UnknownMessageType),
        (r#"[2,"a","Heartbeat"]"#, ProtocolError::MalformedEnvelope),
        (r#"[2,7,"Heartbeat",{}]"#, ProtocolError::MalformedEnvelope),
        (r#"[2,"a","Reset",{}]"#, ProtocolError::UnknownAction),
        (r#"[2,"a","Heartbeat",[]]"#, ProtocolError::PayloadMismatch),
        (r#"[2,"a","BootNotification",{"chargePointModel":"M"}]"#, ProtocolError::PayloadMismatch),
        (r#"[2,"a","StatusNotification",{"connectorId":-1,"errorCode":"NoError","status":"Available"}]"#, ProtocolError::PayloadMismatch),
        (r#"[3,"a",{}]"#, ProtocolError::UnknownAction),
    ];
    for (text, expected) in cases {
        assert_eq!(parse_ocpp_message(text.to_string()).unwrap_err(), expected, "{}", text);
    }
}

#[test]
fn status_notification_rejects_unknown_names() {
    let bad_status = r#"[2,"a","StatusNotification",{"connectorId":1,"errorCode":"NoError","status":"Sleeping"}]"#;
    assert_eq!(parse_ocpp_message(bad_status.to_string()).unwrap_err(), ProtocolError::PayloadMismatch);
    let bad_code = r#"[2,"a","StatusNotification",{"connectorId":1,"errorCode":"Oops","status":"Available"}]"#;
    assert_eq!(parse_ocpp_message(bad_code.to_string()).unwrap_err(), ProtocolError::PayloadMismatch);
    let big_id = r#"[2,"a","StatusNotification",{"connectorId":4294967296,"errorCode":"NoError","status":"Available"}]"#;
    assert_eq!(parse_ocpp_message(big_id.to_string()).unwrap_err(), ProtocolError::PayloadMismatch);
    let max_id = r#"[2,"a","StatusNotification",{"connectorId":4294967295,"errorCode":"NoError","status":"Available"}]"#;
    match parse_ocpp_message(max_id.to_string()).unwrap() {
        OcppMessage::Call { payload: CallPayload::StatusNotification(s), .. } => assert_eq!(s.connector_id, u32::MAX),
        other => panic!("unexpected {:?}", other),
    }
}

#[test]
fn call_error_round_trip() {
    let text = r#"[4,"e","NotImplemented","no such action",{"why":"because"}]"#;
    let message = parse_ocpp_message(text.to_string()).unwrap();
    assert_eq!(message_type_of(&message), OcppMessageType::CallError);
    assert_eq!(message.to_json_text(), text);
    let null_details = parse_ocpp_message(r#"[4,"e","C","D",null]"#.to_string()).unwrap();
    match &null_details {
        OcppMessage::CallError { error_details, .. } => assert!(error_details.is_none()),
        other => panic!("unexpected {:?}", other),
    }
    assert_eq!(null_details.to_json_text(), r#"[4,"e","C","D",null]"#);
}

#[test]
fn call_result_needs_the_answered_action() {
    let value: serde_json::Value =
        serde_json::from_str(r#"[3,"r",{"currentTime":"2023-03-17T22:42:50Z","interval":300,"status":"Accepted"}]"#).unwrap();
    let message = OcppMessage::from_json(&value, Some(Action::BootNotification)).unwrap();
    match &message {
        OcppMessage::CallResult { unique_id, payload: CallResultPayload::BootNotification(b) } => {
            assert_eq!(unique_id, "r");
            assert_eq!(b.interval, 300);
            assert_eq!(b.status, "Accepted");
        }
        other => panic!("unexpected {:?}", other),
    }
    assert_eq!(message_type_of(&message), OcppMessageType::CallResult);
    assert_eq!(message.to_json(), value);
    assert_eq!(OcppMessage::from_json(&value, Some(Action::Authorize)).unwrap_err(), ProtocolError::PayloadMismatch);
    assert_eq!(OcppMessage::from_json(&value, None).unwrap_err(), ProtocolError::UnknownAction);
}

#[test]
fn message_type_codes_and_action_names() {
    assert_eq!(OcppMessageType::Call.code(), 2);
    assert_eq!(OcppMessageType::CallResult.code(), 3);
    assert_eq!(OcppMessageType::CallError.code(), 4);
    for a in [Action::BootNotification, Action::StatusNotification, Action::Heartbeat, Action::MeterValues, Action::Authorize] {
        assert_eq!(Action::from_name(a.name()), Some(a));
    }
    assert_eq!(Action::Heartbeat.name(), "Heartbeat");
    assert_eq!(Action::from_name("heartbeat"), None);
    let call = OcppMessage::Call { unique_id: "h".to_string(), action: Action::Heartbeat, payload: CallPayload::Heartbeat(HeartbeatRequest {}) };
    assert_eq!(message_type_of(&call), OcppMessageType::Call);
    assert_eq!(call.to_json_text(), r#"[2,"h","Heartbeat",{}]"#);
}

#[test]
fn parse_u32_cases() {
    assert_eq!(parse_u32("0"), Some(0));
    assert_eq!(parse_u32("300"), Some(300));
    assert_eq!(parse_u32("4294967295"), Some(u32::MAX));
    assert_eq!(parse_u32("4294967296"), None);
    assert_eq!(parse_u32("99999999999999999999"), None);
    assert_eq!(parse_u32(""), None);
    assert_eq!(parse_u32("-1"), None);
    assert_eq!(parse_u32("1.5"), None);
}

#[test]
fn results_round_trip_for_their_action() {
    let cases = [
        (Action::Heartbeat, r#"[3,"h",{"currentTime":"2023-03-17T22:42:50Z"}]"#),
        (Action::Authorize, r#"[3,"a",{"idTagInfo":{"expiryDate":"2024-01-01T00:00:00Z","parentIdTag":"P","status":"Blocked"}}]"#),
        (Action::StatusNotification, r#"[3,"s",{}]"#),
        (Action::MeterValues, r#"[3,"m",{}]"#),
    ];
    for (action, text) in cases {
        let value: serde_json::Value = serde_json::from_str(text).unwrap();
        let message = OcppMessage::from_json(&value, Some(action)).unwrap();
        assert_eq!(message.to_json_text(), text);
    }
    let bad_status: serde_json::Value =
        serde_json::from_str(r#"[3,"a",{"idTagInfo":{"status":"Maybe"}}]"#).unwrap();
    assert_eq!(OcppMessage::from_json(&bad_status, Some(Action::Authorize)).unwrap_err(), ProtocolError::PayloadMismatch);
    let bad_time: serde_json::Value = serde_json::from_str(r#"[3,"h",{"currentTime":"later"}]"#).unwrap();
    assert_eq!(OcppMessage::from_json(&bad_time, Some(Action::Heartbeat)).unwrap_err(), ProtocolError::PayloadMismatch);
}
