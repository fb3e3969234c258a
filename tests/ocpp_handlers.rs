use ocpp_core::evse_state::{new_session, EvseState};
use ocpp_core::messages::{BootNotificationRequest, StatusNotificationRequest};
use ocpp_core::ocpp::{parse_ocpp_message, Action, CallPayload, CallResultPayload, OcppMessage, ProtocolError};
use ocpp_core::ocpp_handlers::{ocpp_process_and_respond, ocpp_process_and_respond_str, process_call, HEARTBEAT_INTERVAL};
use ocpp_core::vocabulary::is_timestamp;

// A fixed UUID for unit testing
const UNIQUE_ID: &str = "4b05fb33-6510-445e-b7c4-d3a6c611400e";
const BOOT_NOTIFICATION_CALL: &str = r#"[2,"4b05fb33-6510-445e-b7c4-d3a6c611400e","BootNotification",{"chargePointModel":"TRI93-50-01","chargePointSerialNumber":"123456","chargePointVendor":"Tritium","firmwareVersion":"v2.3.2","iccid":"89014103270749598363","imsi":"310410074959836"}]"#;
const STATUS_NOTIFICATION_CALL_WITH_MISSING_FIELDS: &str = r#"[2,"4b05fb33-6510-445e-b7c4-d3a6c611400e","StatusNotification",{"connectorId":1,"errorCode":"NoError","status":"Preparing","timestamp":"2023-03-17T22:42:50.008427"}]"#;
const HEARTBEAT_CALL: &str = r#"[2,"4b05fb33-6510-445e-b7c4-d3a6c611400e","Heartbeat",{}]"#;

#[test]
fn test_handle_boot_notification() {
    let message = parse_ocpp_message(BOOT_NOTIFICATION_CALL.into()).expect("Could not parse test JSON");

    let mut state = EvseState::Empty;
    let response = ocpp_process_and_respond(message, &mut state).expect("Could not process BootNotification");

    match response {
        OcppMessage::CallResult { unique_id, payload: CallResultPayload::BootNotification(_) } => {
            assert_eq!(unique_id, UNIQUE_ID);
        }
        _ => panic!("Expected CallResult with BootNotification CallResultPayload"),
    }
}

#[test]
fn test_handle_status_notification() {
    let message = parse_ocpp_message(STATUS_NOTIFICATION_CALL_WITH_MISSING_FIELDS.into())
        .expect("Could not parse test JSON");

    let mut state = EvseState::Empty;
    let response = ocpp_process_and_respond(message, &mut state).expect("Could not process StatusNotification");

    match response {
        OcppMessage::CallResult { unique_id, payload: CallResultPayload::StatusNotification(_) } => {
            assert_eq!(unique_id, UNIQUE_ID);
        }
        _ => panic!("Expected CallResult with StatusNotification CallResultPayload"),
    }
}

#[test]
fn test_handle_heartbeat() {
    let message = parse_ocpp_message(HEARTBEAT_CALL.into()).expect("Could not parse test JSON");

    let mut state = EvseState::Empty;
    let response = ocpp_process_and_respond(message, &mut state).expect("Could not process Heartbeat");

    match response {
        OcppMessage::CallResult { unique_id, payload: CallResultPayload::Heartbeat(_) } => {
            assert_eq!(unique_id, UNIQUE_ID);
        }
        _ => panic!("Expected CallResult with Heartbeat CallResultPayload"),
    }
}

fn status_call(id: &str, connector: u32, status: &str, vendor_id: Option<&str>) -> String {
    let vendor = match vendor_id {
        Some(v) => format!(r#","vendorId":"{}""#, v),
        None => String::new(),
    };
    format!(
        r#"[2,"{}","StatusNotification",{{"connectorId":{},"errorCode":"NoError","status":"{}"{}}}]"#,
        id, connector, status, vendor
    )
}

fn connected(state: &EvseState) -> &ocpp_core::evse_state::EvseMetadata {
    match state {
        EvseState::WebsocketConnected(md) => md,
        EvseState::Empty => panic!("expected a booted device"),
    }
}

#[test]
fn heartbeat_text_is_answered_with_the_clock() {
    let mut state = new_session();
    let out = ocpp_process_and_respond_str(r#"[2,"id1","Heartbeat",{}]"#.to_string(), &mut state).unwrap();
    let value: serde_json::Value = serde_json::from_str(&out).unwrap();
    let items = value.as_array().unwrap();
    assert_eq!(items.len(), 3);
    assert_eq!(items[0].to_string(), "3");
    assert_eq!(items[1], serde_json::Value::String("id1".to_string()));
    let payload = items[2].as_object().unwrap();
    assert_eq!(payload.len(), 1);
    let time = payload.get("currentTime").unwrap().as_str().unwrap();
    assert!(time.ends_with('Z'));
    assert!(is_timestamp(time));
    assert!(out.starts_with(r#"[3,"id1",{"currentTime":""#));
    assert!(matches!(state, EvseState::Empty));
}

#[test]
fn boot_with_only_required_fields_is_accepted() {
    let mut state = new_session();
    let out = ocpp_process_and_respond_str(
        r#"[2,"x","BootNotification",{"chargePointModel":"M","chargePointVendor":"V"}]"#.to_string(),
        &mut state,
    )
    .unwrap();
    assert!(out.starts_with(r#"[3,"x",{"currentTime":""#));
    assert!(out.ends_with(r#"","interval":300,"status":"Accepted"}]"#));
    let md = connected(&state);
    assert_eq!(md.charge_point_model, "M");
    assert_eq!(md.charge_point_vendor, "V");
    assert_eq!(md.charge_point_serial_number, None);
    assert_eq!(md.imsi, None);
    assert_eq!(md.boot_time, md.last_heartbeat_time);
    assert!(md.connector_info.is_empty());
    assert_eq!(HEARTBEAT_INTERVAL, 300);
}

#[test]
fn boot_discards_earlier_connector_reports() {
    let mut state = new_session();
    ocpp_process_and_respond_str(BOOT_NOTIFICATION_CALL.to_string(), &mut state).unwrap();
    let first_id = connected(&state).id;
    ocpp_process_and_respond_str(status_call("s", 1, "Charging", None), &mut state).unwrap();
    assert_eq!(connected(&state).connector_info.len(), 1);
    ocpp_process_and_respond_str(BOOT_NOTIFICATION_CALL.to_string(), &mut state).unwrap();
    let md = connected(&state);
    assert!(md.connector_info.is_empty());
    assert_ne!(md.id, first_id);
    assert_eq!(md.charge_point_serial_number, Some("123456".to_string()));
}

#[test]
fn boot_with_fixed_clock_and_identity() {
    let mut state = new_session();
    let message = parse_ocpp_message(BOOT_NOTIFICATION_CALL.into()).unwrap();
    let response = process_call(message, &mut state, "2024-01-02T03:04:05Z".to_string(), 42).unwrap();
    assert_eq!(
        response.to_json_text(),
        r#"[3,"4b05fb33-6510-445e-b7c4-d3a6c611400e",{"currentTime":"2024-01-02T03:04:05Z","interval":300,"status":"Accepted"}]"#
    );
    let md = connected(&state);
    assert_eq!(md.id, 42);
    assert_eq!(md.boot_time, "2024-01-02T03:04:05Z");
    assert_eq!(md.charge_point_vendor, "Tritium");
}

#[test]
fn status_on_empty_session_is_acknowledged_and_dropped() {
    let mut state = new_session();
    let out = ocpp_process_and_respond_str(status_call("s1", 3, "Available", None), &mut state).unwrap();
    assert_eq!(out, r#"[3,"s1",{}]"#);
    assert!(matches!(state, EvseState::Empty));
}

#[test]
fn status_twice_for_one_connector_keeps_the_second() {
    let mut state = new_session();
    ocpp_process_and_respond_str(BOOT_NOTIFICATION_CALL.to_string(), &mut state).unwrap();
    ocpp_process_and_respond_str(status_call("a", 2, "Available", Some("first")), &mut state).unwrap();
    ocpp_process_and_respond_str(status_call("b", 5, "Faulted", None), &mut state).unwrap();
    ocpp_process_and_respond_str(status_call("c", 2, "Charging", None), &mut state).unwrap();
    let md = connected(&state);
    assert_eq!(md.connector_info.len(), 2);
    let info = md.connector_info.get(&2).unwrap();
    assert_eq!(info.connector_id, 2);
    assert_eq!(info.status, "Charging");
    assert_eq!(info.error_code, "NoError");
    assert_eq!(info.vendor_id, None);
    assert_eq!(md.connector_info.get(&5).unwrap().status, "Faulted");
}

#[test]
fn heartbeat_on_booted_device_is_noted() {
    let mut state = new_session();
    let boot = parse_ocpp_message(BOOT_NOTIFICATION_CALL.into()).unwrap();
    process_call(boot, &mut state, "2024-01-01T00:00:00Z".to_string(), 7).unwrap();
    let beat = parse_ocpp_message(HEARTBEAT_CALL.into()).unwrap();
    let response = process_call(beat, &mut state, "2024-01-01T00:05:00Z".to_string(), 8).unwrap();
    assert_eq!(response.to_json_text(), r#"[3,"4b05fb33-6510-445e-b7c4-d3a6c611400e",{"currentTime":"2024-01-01T00:05:00Z"}]"#);
    let md = connected(&state);
    assert_eq!(md.id, 7);
    assert_eq!(md.boot_time, "2024-01-01T00:00:00Z");
    assert_eq!(md.last_heartbeat_time, "2024-01-01T00:05:00Z");
}

#[test]
fn meter_values_and_authorize_are_acknowledged() {
    let mut state = new_session();
    let meter = r#"[2,"m","MeterValues",{"connectorId":1,"meterValue":[{"timestamp":"2023-03-17T22:42:50Z","sampledValue":[{"value":"10"}]}]}]"#;
    assert_eq!(ocpp_process_and_respond_str(meter.to_string(), &mut state).unwrap(), r#"[3,"m",{}]"#);
    let authorize = r#"[2,"a","Authorize",{"idTag":"TAG"}]"#;
    assert_eq!(
        ocpp_process_and_respond_str(authorize.to_string(), &mut state).unwrap(),
        r#"[3,"a",{"idTagInfo":{"status":"Accepted"}}]"#
    );
    assert!(matches!(state, EvseState::Empty));
    let bad_meter = r#"[2,"m","MeterValues",{"connectorId":1}]"#;
    assert_eq!(ocpp_process_and_respond_str(bad_meter.to_string(), &mut state).unwrap_err(), ProtocolError::PayloadMismatch);
}

#[test]
fn dispatch_errors_leave_the_session_alone() {
    let mut state = new_session();
    let mismatched = OcppMessage::Call {
        unique_id: "z".to_string(),
        action: Action::Heartbeat,
        payload: CallPayload::BootNotification(BootNotificationRequest {
            charge_box_serial_number: None,
            charge_point_model: "M".to_string(),
            charge_point_serial_number: None,
            charge_point_vendor: "V".to_string(),
            firmware_version: None,
            iccid: None,
            imsi: None,
            meter_serial_number: None,
            meter_type: None,
        }),
    };
    assert_eq!(ocpp_process_and_respond(mismatched, &mut state).unwrap_err(), ProtocolError::ActionPayloadMismatch);
    assert!(matches!(state, EvseState::Empty));
    let error = parse_ocpp_message(r#"[4,"e","C","D",null]"#.to_string()).unwrap();
    assert_eq!(ocpp_process_and_respond(error, &mut state).unwrap_err(), ProtocolError::NotACall);
    assert_eq!(
        ocpp_process_and_respond_str("[2,".to_string(), &mut state).unwrap_err(),
        ProtocolError::MalformedJson
    );
    assert_eq!(
        ocpp_process_and_respond_str(r#"[2,"u","Reset",{}]"#.to_string(), &mut state).unwrap_err(),
        ProtocolError::UnknownAction
    );
    assert!(matches!(state, EvseState::Empty));
}

#[test]
fn status_handler_records_the_report() {
    let mut state = new_session();
    let boot = parse_ocpp_message(BOOT_NOTIFICATION_CALL.into()).unwrap();
    process_call(boot, &mut state, "2024-01-01T00:00:00Z".to_string(), 1).unwrap();
    let report = StatusNotificationRequest {
        connector_id: 9,
        error_code: "GroundFailure".to_string(),
        info: Some("ignored".to_string()),
        status: "Faulted".to_string(),
        timestamp: Some("2024-01-01T00:00:01Z".to_string()),
        vendor_id: Some("acme".to_string()),
        vendor_error_code: Some("E9".to_string()),
    };
    report.handle_message(&mut state);
    let info = connected(&state).connector_info.get(&9).unwrap().clone();
    assert_eq!(info.status, "Faulted");
    assert_eq!(info.error_code, "GroundFailure");
    assert_eq!(info.timestamp, Some("2024-01-01T00:00:01Z".to_string()));
    assert_eq!(info.vendor_id, Some("acme".to_string()));
    assert_eq!(info.vendor_error_code, Some("E9".to_string()));
}
