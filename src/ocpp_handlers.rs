//! What the central system does with each call: the answer it gives and
//! what it records of the connection.
use vstd::prelude::*;
use crate::evse_state::{ConnectorInfo, ConnectorInfoV, EvseMetadata, EvseMetadataV, EvseState, EvseStateV};
use crate::json::{json_parse, json_text};
use crate::messages::{
    AuthorizeRequest, AuthorizeResponse, BootNotificationRequest, BootNotificationRequestV,
    BootNotificationResponse, BootNotificationResponseV, HeartbeatRequest, HeartbeatResponse,
    IdTagInfo, IdTagInfoV, MeterValuesRequest, MeterValuesResponse, StatusNotificationRequest,
    StatusNotificationRequestV, StatusNotificationResponse,
};
use crate::normalize_input::normalized;
use crate::ocpp::{
    call_payload_action, message_json, message_of, parse_ocpp_message, Action, CallPayload,
    CallPayloadV, CallResultPayload, CallResultPayloadV, OcppMessage, OcppMessageV, ProtocolError,
};

verus! {

/// Seconds between heartbeats that a booted charge point is asked for.
pub const HEARTBEAT_INTERVAL: u32 = 300;

/// Relies on `chrono::Utc::now` and `DateTime::to_rfc3339_opts` with
/// `SecondsFormat::AutoSi` and `Z`: the central system's clock as text, as
/// `chrono`'s serde support writes it.
#[verifier::external_body]
fn now_rfc3339() -> (r: String) {
    chrono::Utc::now().to_rfc3339_opts(chrono::SecondsFormat::AutoSi, true)
}

/// Relies on `uuid::Uuid::new_v4`: a random identity for a booted device.
#[verifier::external_body]
fn new_device_id() -> (r: u128) {
    uuid::Uuid::new_v4().as_u128()
}

// ----- what each call does -----

/// The state after a boot: the device as it described itself, under the
/// given identity, with no connector reports.
pub open spec fn booted_state(b: BootNotificationRequestV, id: u128, now: Seq<char>) -> EvseStateV {
    EvseStateV::Connected(
        EvseMetadataV {
            id,
            charge_point_model: b.charge_point_model,
            charge_point_serial_number: b.charge_point_serial_number,
            charge_point_vendor: b.charge_point_vendor,
            firmware_version: b.firmware_version,
            iccid: b.iccid,
            imsi: b.imsi,
            boot_time: now,
            last_heartbeat_time: now,
            connector_info: Map::empty(),
        },
    )
}

/// What is recorded of a connector's report.
pub open spec fn connector_report(s: StatusNotificationRequestV) -> ConnectorInfoV {
    ConnectorInfoV {
        connector_id: s.connector_id as u64,
        status: s.status,
        error_code: s.error_code,
        timestamp: s.timestamp,
        vendor_id: s.vendor_id,
        vendor_error_code: s.vendor_error_code,
    }
}

/// A report replaces that connector's entry; with no device booted it is
/// dropped.
pub open spec fn status_state(before: EvseStateV, s: StatusNotificationRequestV) -> EvseStateV {
    match before {
        EvseStateV::Connected(md) => EvseStateV::Connected(
            EvseMetadataV {
                connector_info: md.connector_info.insert(s.connector_id as u64, connector_report(s)),
                ..md
            },
        ),
        EvseStateV::Empty => EvseStateV::Empty,
    }
}

/// A heartbeat is noted as the device's last sign of life.
pub open spec fn heartbeat_state(before: EvseStateV, now: Seq<char>) -> EvseStateV {
    match before {
        EvseStateV::Connected(md) => EvseStateV::Connected(EvseMetadataV { last_heartbeat_time: now, ..md }),
        EvseStateV::Empty => EvseStateV::Empty,
    }
}

/// The state after a call, `now` being the clock and `id` a fresh identity.
pub open spec fn state_after_call(before: EvseStateV, p: CallPayloadV, now: Seq<char>, id: u128) -> EvseStateV {
    match p {
        CallPayloadV::BootNotification(b) => booted_state(b, id, now),
        CallPayloadV::StatusNotification(s) => status_state(before, s),
        CallPayloadV::Heartbeat => heartbeat_state(before, now),
        CallPayloadV::MeterValues(_) => before,
        CallPayloadV::Authorize(_) => before,
    }
}

/// The answer to a call.
pub open spec fn response_for(p: CallPayloadV, now: Seq<char>) -> CallResultPayloadV {
    match p {
        CallPayloadV::BootNotification(_) => CallResultPayloadV::BootNotification(
            BootNotificationResponseV {
                current_time: now,
                interval: HEARTBEAT_INTERVAL,
                status: "Accepted"@,
            },
        ),
        CallPayloadV::StatusNotification(_) => CallResultPayloadV::StatusNotification,
        CallPayloadV::Heartbeat => CallResultPayloadV::Heartbeat(now),
        CallPayloadV::MeterValues(_) => CallResultPayloadV::MeterValues,
        CallPayloadV::Authorize(_) => CallResultPayloadV::Authorize(
            IdTagInfoV { expiry_date: None, parent_id_tag: None, status: "Accepted"@ },
        ),
    }
}

pub open spec fn result_view(r: Result<OcppMessage, ProtocolError>) -> Result<OcppMessageV, ProtocolError> {
    match r {
        Ok(m) => Ok(m@),
        Err(e) => Err(e),
    }
}

/// The outcome of handling a message: a call whose action and payload agree
/// is answered with a result of the same id and changes the state as its
/// action says; anything else is an error and changes nothing.
pub open spec fn processed(
    m: OcppMessageV,
    before: EvseStateV,
    after: EvseStateV,
    r: Result<OcppMessageV, ProtocolError>,
    now: Seq<char>,
    id: u128,
) -> bool {
    match m {
        OcppMessageV::Call { unique_id, action, payload } => if action == call_payload_action(payload) {
            &&& r == Ok::<OcppMessageV, ProtocolError>(
                OcppMessageV::CallResult { unique_id, payload: response_for(payload, now) },
            )
            &&& after == state_after_call(before, payload, now, id)
        } else {
            &&& r == Err::<OcppMessageV, ProtocolError>(ProtocolError::ActionPayloadMismatch)
            &&& after == before
        },
        _ => {
            &&& r == Err::<OcppMessageV, ProtocolError>(ProtocolError::NotACall)
            &&& after == before
        },
    }
}

/// A boot connects the session from any state: the device gets the fresh
/// identity and starts with no connector reports.
pub proof fn lemma_boot_connects(
    before: EvseStateV,
    unique_id: Seq<char>,
    b: BootNotificationRequestV,
    after: EvseStateV,
    r: Result<OcppMessageV, ProtocolError>,
    now: Seq<char>,
    id: u128,
)
    requires
        processed(
            OcppMessageV::Call { unique_id, action: Action::BootNotification, payload: CallPayloadV::BootNotification(b) },
            before,
            after,
            r,
            now,
            id,
        ),
    ensures
        after matches EvseStateV::Connected(md) && md.id == id && md.connector_info == Map::<u64, ConnectorInfoV>::empty(),
        r is Ok,
{
}

/// A status report on a session where no device has booted is acknowledged
/// and leaves the session as it was.
pub proof fn lemma_status_on_empty_session(
    unique_id: Seq<char>,
    s: StatusNotificationRequestV,
    after: EvseStateV,
    r: Result<OcppMessageV, ProtocolError>,
    now: Seq<char>,
    id: u128,
)
    requires
        processed(
            OcppMessageV::Call { unique_id, action: Action::StatusNotification, payload: CallPayloadV::StatusNotification(s) },
            EvseStateV::Empty,
            after,
            r,
            now,
            id,
        ),
    ensures
        r == Ok::<OcppMessageV, ProtocolError>(
            OcppMessageV::CallResult { unique_id, payload: CallResultPayloadV::StatusNotification },
        ),
        after == EvseStateV::Empty,
{
}

/// Two status reports for the same connector on a booted device leave one
/// entry for that connector, holding the second report; the other entries
/// are as before.
pub proof fn lemma_status_twice(
    before: EvseStateV,
    s1: StatusNotificationRequestV,
    s2: StatusNotificationRequestV,
)
    requires
        before is Connected,
        s1.connector_id == s2.connector_id,
    ensures
        status_state(status_state(before, s1), s2) matches EvseStateV::Connected(md) && {
            let k = s2.connector_id as u64;
            &&& md.connector_info.dom() == before->Connected_0.connector_info.dom().insert(k)
            &&& md.connector_info[k] == connector_report(s2)
            &&& forall|c: u64| c != k && md.connector_info.contains_key(c) ==>
                md.connector_info[c] == before->Connected_0.connector_info[c]
        },
{
    let k = s2.connector_id as u64;
    let md = status_state(status_state(before, s1), s2)->Connected_0;
    assert(md.connector_info.dom() =~= before->Connected_0.connector_info.dom().insert(k));
}

pub open spec fn text_result_view(r: Result<String, ProtocolError>) -> Result<Seq<char>, ProtocolError> {
    match r {
        Ok(t) => Ok(t@),
        Err(e) => Err(e),
    }
}

/// The outcome of handling a text frame: text that is not JSON, or that
/// does not decode, is refused and changes nothing; a decoded message is
/// handled as `processed` says for some clock reading and identity, and an
/// answer goes back as its JSON text.
pub open spec fn text_processed(
    message: Seq<char>,
    before: EvseStateV,
    after: EvseStateV,
    r: Result<Seq<char>, ProtocolError>,
) -> bool {
    match json_parse(message) {
        None => r == Err::<Seq<char>, ProtocolError>(ProtocolError::MalformedJson) && after == before,
        Some(j) => match message_of(normalized(j), None) {
            Err(e) => r == Err::<Seq<char>, ProtocolError>(e) && after == before,
            Ok(m) => exists|now: Seq<char>, id: u128, out: Result<OcppMessageV, ProtocolError>|
                #[trigger] processed(m, before, after, out, now, id) && match out {
                    Ok(answer) => r == Ok::<Seq<char>, ProtocolError>(json_text(message_json(answer))),
                    Err(e) => r == Err::<Seq<char>, ProtocolError>(e),
                },
        },
    }
}

// ----- the handlers -----

impl BootNotificationRequest {
    /// Registers the device, under `device_id`, in place of whatever the
    /// connection held, and accepts it.
    pub fn handle_message(self, evse_state: &mut EvseState, now: &String, device_id: u128) -> (r: BootNotificationResponse)
        ensures
            r@ == (BootNotificationResponseV {
                current_time: now@,
                interval: HEARTBEAT_INTERVAL,
                status: "Accepted"@,
            }),
            final(evse_state)@ == booted_state(self@, device_id, now@),
    {
        let response = BootNotificationResponse {
            current_time: now.clone(),
            interval: HEARTBEAT_INTERVAL,
            status: "Accepted".to_owned(),
        };
        let metadata = EvseMetadata::new(
            device_id,
            self.charge_point_vendor,
            self.charge_point_model,
            self.charge_point_serial_number,
            self.firmware_version,
            self.iccid,
            self.imsi,
            now.clone(),
        );
        *evse_state = EvseState::WebsocketConnected(Box::new(metadata));
        response
    }
}

impl StatusNotificationRequest {
    /// Records the connector's report on a booted device; with none booted
    /// the report is dropped. Either way it is acknowledged.
    pub fn handle_message(self, evse_state: &mut EvseState) -> (r: StatusNotificationResponse)
        ensures
            final(evse_state)@ == status_state(old(evse_state)@, self@),
    {
        match evse_state {
            EvseState::WebsocketConnected(metadata) => {
                let info = ConnectorInfo {
                    connector_id: self.connector_id as u64,
                    status: self.status,
                    error_code: self.error_code,
                    timestamp: self.timestamp,
                    vendor_id: self.vendor_id,
                    vendor_error_code: self.vendor_error_code,
                };
                metadata.update_info(info);
            },
            EvseState::Empty => {},
        }
        StatusNotificationResponse {}
    }
}

impl HeartbeatRequest {
    /// Answers with the clock, which is noted as the device's last sign of
    /// life.
    pub fn handle_message(self, evse_state: &mut EvseState, now: &String) -> (r: HeartbeatResponse)
        ensures
            r.current_time@ == now@,
            final(evse_state)@ == heartbeat_state(old(evse_state)@, now@),
    {
        match evse_state {
            EvseState::WebsocketConnected(metadata) => metadata.record_heartbeat(now.clone()),
            EvseState::Empty => {},
        }
        HeartbeatResponse { current_time: now.clone() }
    }
}

impl MeterValuesRequest {
    /// Acknowledges the readings; nothing is recorded.
    pub fn handle_message(self, evse_state: &mut EvseState) -> (r: MeterValuesResponse)
        ensures
            final(evse_state)@ == old(evse_state)@,
    {
        MeterValuesResponse {}
    }
}

impl AuthorizeRequest {
    /// Accepts the identifier; nothing is recorded.
    pub fn handle_message(self, evse_state: &mut EvseState) -> (r: AuthorizeResponse)
        ensures
            r.id_tag_info@ == (IdTagInfoV { expiry_date: None, parent_id_tag: None, status: "Accepted"@ }),
            final(evse_state)@ == old(evse_state)@,
    {
        AuthorizeResponse {
            id_tag_info: IdTagInfo { expiry_date: None, parent_id_tag: None, status: "Accepted".to_owned() },
        }
    }
}

// ----- dispatch -----

/// Handles a call with the clock reading `now` and, for a boot, the fresh
/// identity `device_id`.
pub fn process_call(
    message: OcppMessage,
    evse_state: &mut EvseState,
    now: String,
    device_id: u128,
) -> (r: Result<OcppMessage, ProtocolError>)
    ensures
        processed(message@, old(evse_state)@, final(evse_state)@, result_view(r), now@, device_id),
{
    match message {
        OcppMessage::Call { unique_id, action, payload } => {
            if action != payload.action() {
                return Err(ProtocolError::ActionPayloadMismatch);
            }
            let result = match payload {
                CallPayload::BootNotification(call) => CallResultPayload::BootNotification(
                    call.handle_message(evse_state, &now, device_id),
                ),
                CallPayload::StatusNotification(call) => CallResultPayload::StatusNotification(
                    call.handle_message(evse_state),
                ),
                CallPayload::Heartbeat(call) => CallResultPayload::Heartbeat(call.handle_message(evse_state, &now)),
                CallPayload::MeterValues(call) => CallResultPayload::MeterValues(call.handle_message(evse_state)),
                CallPayload::Authorize(call) => CallResultPayload::Authorize(call.handle_message(evse_state)),
            };
            Ok(OcppMessage::CallResult { unique_id, payload: result })
        },
        _ => Err(ProtocolError::NotACall),
    }
}

/// Handles a call with the current clock and, for a boot, a random
/// identity: the outcome is the one `process_call` gives for some clock
/// reading and identity.
pub fn ocpp_process_and_respond(message: OcppMessage, evse_state: &mut EvseState) -> (r: Result<OcppMessage, ProtocolError>)
    ensures
        exists|now: Seq<char>, id: u128|
            #[trigger] processed(message@, old(evse_state)@, final(evse_state)@, result_view(r), now, id),
{
    let now = now_rfc3339();
    let device_id = new_device_id();
    let ghost t = now@;
    let ghost m = message@;
    let r = process_call(message, evse_state, now, device_id);
    assert(processed(m, old(evse_state)@, evse_state@, result_view(r), t, device_id));
    r
}

/// Handles one text frame: the text is read as a message, handled, and the
/// answer written as text. A text that cannot be read as a call changes
/// nothing.
pub fn ocpp_process_and_respond_str(message: String, evse_state: &mut EvseState) -> (r: Result<String, ProtocolError>)
    ensures
        text_processed(message@, old(evse_state)@, final(evse_state)@, text_result_view(r)),
{
    let ocpp_message = parse_ocpp_message(message)?;
    let ghost m = ocpp_message@;
    let response = ocpp_process_and_respond(ocpp_message, evse_state);
    let ghost out = result_view(response);
    let ghost (now, id) = choose|now: Seq<char>, id: u128| processed(m, old(evse_state)@, evse_state@, out, now, id);
    assert(processed(m, old(evse_state)@, evse_state@, out, now, id));
    let answer = response?;
    Ok(answer.to_json_text())
}

} // verus!
