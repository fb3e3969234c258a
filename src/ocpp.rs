//! The message envelope: a JSON array whose first item tells a call, a call
//! result or a call error apart, with the payload read according to the
//! action that the envelope names.
use vstd::prelude::*;
use crate::json::{
    json_array, json_as_array, json_as_str, json_is_null, json_null, json_number_text, json_parse,
    json_string, json_text, json_u32, json_view, obj_field, render_json, views, JsonV,
};
use crate::messages::{
    authorize_request_json, authorize_response_json, authorize_response_of, boot_request_json,
    boot_request_of, boot_response_json, boot_response_of, heartbeat_response_json,
    heartbeat_response_of, lemma_authorize_request_round_trip, lemma_boot_request_round_trip,
    lemma_boot_response_round_trip, lemma_id_tag_info_round_trip, lemma_status_request_round_trip,
    req_str, status_request_json, status_request_of,
    AuthorizeRequest, AuthorizeResponse, BootNotificationRequest, BootNotificationRequestV,
    BootNotificationResponse, BootNotificationResponseV, HeartbeatRequest, HeartbeatResponse,
    IdTagInfoV, MeterValuesRequest, MeterValuesResponse, StatusNotificationRequest,
    StatusNotificationRequestV, StatusNotificationResponse,
};

use crate::normalize_input::{normalize_json_input, normalized};
use crate::vocabulary::meter_values_request_accepts;

verus! {

/// Why a message could not be handled.
#[derive(Debug, Clone, Copy, PartialEq, Eq, Structural)]
pub enum ProtocolError {
    /// The text is not JSON.
    MalformedJson,
    /// The first item of the envelope is not 2, 3 or 4.
    UnknownMessageType,
    /// The envelope is not an array of the length its type asks for, or an
    /// item that must be a string is not one.
    MalformedEnvelope,
    /// The action name is not one of the modelled actions, or a call result
    /// arrived without the action that it answers.
    UnknownAction,
    /// The payload lacks a required field or has one of the wrong type.
    PayloadMismatch,
    /// A call's action and payload are of different actions.
    ActionPayloadMismatch,
    /// A call was expected and the message is not one.
    NotACall,
}

/// The three kinds of envelope; on the wire they are 2, 3 and 4.
#[derive(Debug, Clone, Copy, PartialEq, Eq, Structural)]
pub enum OcppMessageType {
    Call,
    CallResult,
    CallError,
}

impl OcppMessageType {
    pub open spec fn spec_code(self) -> u32 {
        match self {
            OcppMessageType::Call => 2,
            OcppMessageType::CallResult => 3,
            OcppMessageType::CallError => 4,
        }
    }

    /// The number that stands first in the envelope.
    pub fn code(&self) -> (r: u32)
        ensures
            r == self.spec_code(),
    {
        match self {
            OcppMessageType::Call => 2,
            OcppMessageType::CallResult => 3,
            OcppMessageType::CallError => 4,
        }
    }
}

/// The type that a first item of an envelope stands for, written as a
/// number or as a string.
pub open spec fn message_type_of_text(t: Seq<char>) -> Option<OcppMessageType> {
    if t == seq!['2'] {
        Some(OcppMessageType::Call)
    } else if t == seq!['3'] {
        Some(OcppMessageType::CallResult)
    } else if t == seq!['4'] {
        Some(OcppMessageType::CallError)
    } else {
        None
    }
}

pub open spec fn message_type_of_json(j: JsonV) -> Option<OcppMessageType> {
    match j {
        JsonV::Number(t) => message_type_of_text(t),
        JsonV::Str(t) => message_type_of_text(t),
        _ => None,
    }
}

fn same_text(s: &str, t: &str) -> (r: bool)
    ensures
        r == (s@ == t@),
{
    s.to_owned() == t.to_owned()
}

fn message_type_of_value(v: &serde_json::Value) -> (r: Option<OcppMessageType>)
    ensures
        r == message_type_of_json(json_view(*v)),
{
    proof {
        reveal_strlit("2");
        reveal_strlit("3");
        reveal_strlit("4");
    }
    let text = match json_number_text(v) {
        Some(t) => t,
        None => match json_as_str(v) {
            Some(s) => s.to_owned(),
            None => return None,
        },
    };
    if same_text(text.as_str(), "2") {
        assert(text@ =~= seq!['2']);
        Some(OcppMessageType::Call)
    } else if same_text(text.as_str(), "3") {
        assert(text@ =~= seq!['3']);
        Some(OcppMessageType::CallResult)
    } else if same_text(text.as_str(), "4") {
        assert(text@ =~= seq!['4']);
        Some(OcppMessageType::CallError)
    } else {
        assert(text@ != seq!['2']) by {
            if text@ == seq!['2'] {
                assert(text@ =~= "2"@);
            }
        }
        assert(text@ != seq!['3']) by {
            if text@ == seq!['3'] {
                assert(text@ =~= "3"@);
            }
        }
        assert(text@ != seq!['4']) by {
            if text@ == seq!['4'] {
                assert(text@ =~= "4"@);
            }
        }
        None
    }
}

/// The actions that a charge point can call.
#[derive(Debug, Clone, Copy, PartialEq, Eq, Structural)]
pub enum Action {
    BootNotification,
    StatusNotification,
    Heartbeat,
    MeterValues,
    Authorize,
}

pub open spec fn action_name(a: Action) -> Seq<char> {
    match a {
        Action::BootNotification => "BootNotification"@,
        Action::StatusNotification => "StatusNotification"@,
        Action::Heartbeat => "Heartbeat"@,
        Action::MeterValues => "MeterValues"@,
        Action::Authorize => "Authorize"@,
    }
}

pub open spec fn action_of_name(s: Seq<char>) -> Option<Action> {
    if s == "BootNotification"@ {
        Some(Action::BootNotification)
    } else if s == "StatusNotification"@ {
        Some(Action::StatusNotification)
    } else if s == "Heartbeat"@ {
        Some(Action::Heartbeat)
    } else if s == "MeterValues"@ {
        Some(Action::MeterValues)
    } else if s == "Authorize"@ {
        Some(Action::Authorize)
    } else {
        None
    }
}

pub proof fn lemma_action_name(a: Action)
    ensures
        action_of_name(action_name(a)) == Some(a),
{
    reveal_strlit("BootNotification");
    reveal_strlit("StatusNotification");
    reveal_strlit("Heartbeat");
    reveal_strlit("MeterValues");
    reveal_strlit("Authorize");
    assert("BootNotification"@.len() == 16 && "StatusNotification"@.len() == 18);
    assert("Heartbeat"@.len() == 9 && "MeterValues"@.len() == 11 && "Authorize"@.len() == 9);
    assert("Heartbeat"@[0] != "Authorize"@[0]);
}

impl Action {
    /// The name of the action on the wire.
    pub fn name(&self) -> (r: &'static str)
        ensures
            r@ == action_name(*self),
    {
        match self {
            Action::BootNotification => "BootNotification",
            Action::StatusNotification => "StatusNotification",
            Action::Heartbeat => "Heartbeat",
            Action::MeterValues => "MeterValues",
            Action::Authorize => "Authorize",
        }
    }

    /// The action that a name on the wire stands for.
    pub fn from_name(s: &str) -> (r: Option<Action>)
        ensures
            r == action_of_name(s@),
    {
        if same_text(s, "BootNotification") {
            Some(Action::BootNotification)
        } else if same_text(s, "StatusNotification") {
            Some(Action::StatusNotification)
        } else if same_text(s, "Heartbeat") {
            Some(Action::Heartbeat)
        } else if same_text(s, "MeterValues") {
            Some(Action::MeterValues)
        } else if same_text(s, "Authorize") {
            Some(Action::Authorize)
        } else {
            None
        }
    }
}

/// The payload of a call, one kind for each action.
#[derive(Debug, Clone)]
pub enum CallPayload {
    BootNotification(BootNotificationRequest),
    StatusNotification(StatusNotificationRequest),
    MeterValues(MeterValuesRequest),
    Authorize(AuthorizeRequest),
    Heartbeat(HeartbeatRequest),
}

pub enum CallPayloadV {
    BootNotification(BootNotificationRequestV),
    StatusNotification(StatusNotificationRequestV),
    MeterValues(JsonV),
    Authorize(Seq<char>),
    Heartbeat,
}

impl View for CallPayload {
    type V = CallPayloadV;

    open spec fn view(&self) -> CallPayloadV {
        match self {
            CallPayload::BootNotification(b) => CallPayloadV::BootNotification(b@),
            CallPayload::StatusNotification(s) => CallPayloadV::StatusNotification(s@),
            CallPayload::MeterValues(m) => CallPayloadV::MeterValues(json_view(m.document)),
            CallPayload::Authorize(a) => CallPayloadV::Authorize(a.id_tag@),
            CallPayload::Heartbeat(_) => CallPayloadV::Heartbeat,
        }
    }
}

/// The payload of a call to the action, read from its JSON object.
pub open spec fn call_payload_of(a: Action, j: JsonV) -> Option<CallPayloadV> {
    match a {
        Action::BootNotification => match boot_request_of(j) {
            Some(b) => Some(CallPayloadV::BootNotification(b)),
            None => None,
        },
        Action::StatusNotification => match status_request_of(j) {
            Some(s) => Some(CallPayloadV::StatusNotification(s)),
            None => None,
        },
        Action::Heartbeat => if j is Object {
            Some(CallPayloadV::Heartbeat)
        } else {
            None
        },
        Action::MeterValues => if meter_values_request_accepts(j) {
            Some(CallPayloadV::MeterValues(j))
        } else {
            None
        },
        Action::Authorize => match req_str(j, "idTag"@) {
            Some(t) => Some(CallPayloadV::Authorize(t)),
            None => None,
        },
    }
}

pub open spec fn call_payload_json(p: CallPayloadV) -> JsonV {
    match p {
        CallPayloadV::BootNotification(b) => boot_request_json(b),
        CallPayloadV::StatusNotification(s) => status_request_json(s),
        CallPayloadV::MeterValues(j) => j,
        CallPayloadV::Authorize(t) => authorize_request_json(t),
        CallPayloadV::Heartbeat => JsonV::Object(Map::empty()),
    }
}

pub open spec fn call_payload_action(p: CallPayloadV) -> Action {
    match p {
        CallPayloadV::BootNotification(_) => Action::BootNotification,
        CallPayloadV::StatusNotification(_) => Action::StatusNotification,
        CallPayloadV::MeterValues(_) => Action::MeterValues,
        CallPayloadV::Authorize(_) => Action::Authorize,
        CallPayloadV::Heartbeat => Action::Heartbeat,
    }
}

impl CallPayload {
    /// Reads the payload of a call to `action`: only that action's payload
    /// is tried.
    pub fn from_json(action: Action, j: &serde_json::Value) -> (r: Result<CallPayload, ProtocolError>)
        ensures
            match r {
                Ok(p) => call_payload_of(action, json_view(*j)) == Some(p@),
                Err(e) => call_payload_of(action, json_view(*j)) is None && e == ProtocolError::PayloadMismatch,
            },
    {
        let payload = match action {
            Action::BootNotification => match BootNotificationRequest::from_json(j) {
                Some(b) => Some(CallPayload::BootNotification(b)),
                None => None,
            },
            Action::StatusNotification => match StatusNotificationRequest::from_json(j) {
                Some(s) => Some(CallPayload::StatusNotification(s)),
                None => None,
            },
            Action::Heartbeat => match HeartbeatRequest::from_json(j) {
                Some(h) => Some(CallPayload::Heartbeat(h)),
                None => None,
            },
            Action::MeterValues => match MeterValuesRequest::from_json(j) {
                Some(m) => Some(CallPayload::MeterValues(m)),
                None => None,
            },
            Action::Authorize => match AuthorizeRequest::from_json(j) {
                Some(a) => Some(CallPayload::Authorize(a)),
                None => None,
            },
        };
        match payload {
            Some(p) => Ok(p),
            None => Err(ProtocolError::PayloadMismatch),
        }
    }

    pub fn to_json(&self) -> (r: serde_json::Value)
        ensures
            json_view(r) == call_payload_json(self@),
    {
        match self {
            CallPayload::BootNotification(b) => b.to_json(),
            CallPayload::StatusNotification(s) => s.to_json(),
            CallPayload::MeterValues(m) => m.to_json(),
            CallPayload::Authorize(a) => a.to_json(),
            CallPayload::Heartbeat(h) => h.to_json(),
        }
    }

    /// The action whose payload this is.
    pub fn action(&self) -> (r: Action)
        ensures
            r == call_payload_action(self@),
    {
        match self {
            CallPayload::BootNotification(_) => Action::BootNotification,
            CallPayload::StatusNotification(_) => Action::StatusNotification,
            CallPayload::MeterValues(_) => Action::MeterValues,
            CallPayload::Authorize(_) => Action::Authorize,
            CallPayload::Heartbeat(_) => Action::Heartbeat,
        }
    }
}

/// The payload of a call result, one kind for each action.
#[derive(Debug, Clone)]
pub enum CallResultPayload {
    BootNotification(BootNotificationResponse),
    StatusNotification(StatusNotificationResponse),
    MeterValues(MeterValuesResponse),
    Authorize(AuthorizeResponse),
    Heartbeat(HeartbeatResponse),
}

pub enum CallResultPayloadV {
    BootNotification(BootNotificationResponseV),
    StatusNotification,
    MeterValues,
    Authorize(IdTagInfoV),
    Heartbeat(Seq<char>),
}

impl View for CallResultPayload {
    type V = CallResultPayloadV;

    open spec fn view(&self) -> CallResultPayloadV {
        match self {
            CallResultPayload::BootNotification(b) => CallResultPayloadV::BootNotification(b@),
            CallResultPayload::StatusNotification(_) => CallResultPayloadV::StatusNotification,
            CallResultPayload::MeterValues(_) => CallResultPayloadV::MeterValues,
            CallResultPayload::Authorize(a) => CallResultPayloadV::Authorize(a.id_tag_info@),
            CallResultPayload::Heartbeat(h) => CallResultPayloadV::Heartbeat(h.current_time@),
        }
    }
}

/// The payload of a result that answers a call to the action.
pub open spec fn result_payload_of(a: Action, j: JsonV) -> Option<CallResultPayloadV> {
    match a {
        Action::BootNotification => match boot_response_of(j) {
            Some(b) => Some(CallResultPayloadV::BootNotification(b)),
            None => None,
        },
        Action::StatusNotification => if j is Object {
            Some(CallResultPayloadV::StatusNotification)
        } else {
            None
        },
        Action::Heartbeat => match heartbeat_response_of(j) {
            Some(t) => Some(CallResultPayloadV::Heartbeat(t)),
            None => None,
        },
        Action::MeterValues => if j is Object {
            Some(CallResultPayloadV::MeterValues)
        } else {
            None
        },
        Action::Authorize => match authorize_response_of(j) {
            Some(i) => Some(CallResultPayloadV::Authorize(i)),
            None => None,
        },
    }
}

pub open spec fn result_payload_json(p: CallResultPayloadV) -> JsonV {
    match p {
        CallResultPayloadV::BootNotification(b) => boot_response_json(b),
        CallResultPayloadV::StatusNotification => JsonV::Object(Map::empty()),
        CallResultPayloadV::MeterValues => JsonV::Object(Map::empty()),
        CallResultPayloadV::Authorize(i) => authorize_response_json(i),
        CallResultPayloadV::Heartbeat(t) => heartbeat_response_json(t),
    }
}

impl CallResultPayload {
    /// Reads the payload of a result that answers a call to `action`.
    pub fn from_json(action: Action, j: &serde_json::Value) -> (r: Result<CallResultPayload, ProtocolError>)
        ensures
            match r {
                Ok(p) => result_payload_of(action, json_view(*j)) == Some(p@),
                Err(e) => result_payload_of(action, json_view(*j)) is None && e == ProtocolError::PayloadMismatch,
            },
    {
        let payload = match action {
            Action::BootNotification => match BootNotificationResponse::from_json(j) {
                Some(b) => Some(CallResultPayload::BootNotification(b)),
                None => None,
            },
            Action::StatusNotification => if crate::json::json_is_object(j) {
                Some(CallResultPayload::StatusNotification(StatusNotificationResponse {}))
            } else {
                None
            },
            Action::Heartbeat => match HeartbeatResponse::from_json(j) {
                Some(h) => Some(CallResultPayload::Heartbeat(h)),
                None => None,
            },
            Action::MeterValues => if crate::json::json_is_object(j) {
                Some(CallResultPayload::MeterValues(MeterValuesResponse {}))
            } else {
                None
            },
            Action::Authorize => match AuthorizeResponse::from_json(j) {
                Some(a) => Some(CallResultPayload::Authorize(a)),
                None => None,
            },
        };
        match payload {
            Some(p) => Ok(p),
            None => Err(ProtocolError::PayloadMismatch),
        }
    }

    pub fn to_json(&self) -> (r: serde_json::Value)
        ensures
            json_view(r) == result_payload_json(self@),
    {
        match self {
            CallResultPayload::BootNotification(b) => b.to_json(),
            CallResultPayload::StatusNotification(_) => crate::json::json_object(),
            CallResultPayload::MeterValues(_) => crate::json::json_object(),
            CallResultPayload::Authorize(a) => a.to_json(),
            CallResultPayload::Heartbeat(h) => h.to_json(),
        }
    }
}

/// A message of the protocol.
#[derive(Debug, Clone)]
pub enum OcppMessage {
    /// A request, answered by a result or an error with the same id.
    Call { unique_id: String, action: Action, payload: CallPayload },
    CallResult { unique_id: String, payload: CallResultPayload },
    CallError {
        unique_id: String,
        error_code: String,
        error_description: String,
        error_details: Option<serde_json::Value>,
    },
}

pub enum OcppMessageV {
    Call { unique_id: Seq<char>, action: Action, payload: CallPayloadV },
    CallResult { unique_id: Seq<char>, payload: CallResultPayloadV },
    CallError {
        unique_id: Seq<char>,
        error_code: Seq<char>,
        error_description: Seq<char>,
        error_details: Option<JsonV>,
    },
}

impl View for OcppMessage {
    type V = OcppMessageV;

    open spec fn view(&self) -> OcppMessageV {
        match self {
            OcppMessage::Call { unique_id, action, payload } => OcppMessageV::Call {
                unique_id: unique_id@,
                action: *action,
                payload: payload@,
            },
            OcppMessage::CallResult { unique_id, payload } => OcppMessageV::CallResult {
                unique_id: unique_id@,
                payload: payload@,
            },
            OcppMessage::CallError { unique_id, error_code, error_description, error_details } =>
                OcppMessageV::CallError {
                unique_id: unique_id@,
                error_code: error_code@,
                error_description: error_description@,
                error_details: match error_details {
                    Some(d) => Some(json_view(*d)),
                    None => None,
                },
            },
        }
    }
}

pub open spec fn message_kind(m: OcppMessageV) -> OcppMessageType {
    match m {
        OcppMessageV::Call { .. } => OcppMessageType::Call,
        OcppMessageV::CallResult { .. } => OcppMessageType::CallResult,
        OcppMessageV::CallError { .. } => OcppMessageType::CallError,
    }
}

/// The message that a JSON document holds. A call result can only be read
/// knowing the action it answers (`answered`).
pub open spec fn message_of(j: JsonV, answered: Option<Action>) -> Result<OcppMessageV, ProtocolError> {
    match j {
        JsonV::Array(items) => if items.len() == 0 {
            Err(ProtocolError::UnknownMessageType)
        } else {
            match message_type_of_json(items[0]) {
                None => Err(ProtocolError::UnknownMessageType),
                Some(OcppMessageType::Call) => if items.len() != 4 {
                    Err(ProtocolError::MalformedEnvelope)
                } else {
                    match (items[1], items[2]) {
                        (JsonV::Str(id), JsonV::Str(name)) => match action_of_name(name) {
                            None => Err(ProtocolError::UnknownAction),
                            Some(a) => match call_payload_of(a, items[3]) {
                                Some(p) => Ok(OcppMessageV::Call { unique_id: id, action: a, payload: p }),
                                None => Err(ProtocolError::PayloadMismatch),
                            },
                        },
                        _ => Err(ProtocolError::MalformedEnvelope),
                    }
                },
                Some(OcppMessageType::CallResult) => if items.len() != 3 {
                    Err(ProtocolError::MalformedEnvelope)
                } else {
                    match items[1] {
                        JsonV::Str(id) => match answered {
                            None => Err(ProtocolError::UnknownAction),
                            Some(a) => match result_payload_of(a, items[2]) {
                                Some(p) => Ok(OcppMessageV::CallResult { unique_id: id, payload: p }),
                                None => Err(ProtocolError::PayloadMismatch),
                            },
                        },
                        _ => Err(ProtocolError::MalformedEnvelope),
                    }
                },
                Some(OcppMessageType::CallError) => if items.len() != 5 {
                    Err(ProtocolError::MalformedEnvelope)
                } else {
                    match (items[1], items[2], items[3]) {
                        (JsonV::Str(id), JsonV::Str(code), JsonV::Str(description)) => Ok(
                            OcppMessageV::CallError {
                                unique_id: id,
                                error_code: code,
                                error_description: description,
                                error_details: if items[4] is Null {
                                    None
                                } else {
                                    Some(items[4])
                                },
                            },
                        ),
                        _ => Err(ProtocolError::MalformedEnvelope),
                    }
                },
            }
        },
        _ => Err(ProtocolError::MalformedEnvelope),
    }
}

/// The JSON array of a message; the type goes first as a number.
pub open spec fn message_json(m: OcppMessageV) -> JsonV {
    match m {
        OcppMessageV::Call { unique_id, action, payload } => JsonV::Array(
            seq![
                JsonV::Number(seq!['2']),
                JsonV::Str(unique_id),
                JsonV::Str(action_name(action)),
                call_payload_json(payload),
            ],
        ),
        OcppMessageV::CallResult { unique_id, payload } => JsonV::Array(
            seq![JsonV::Number(seq!['3']), JsonV::Str(unique_id), result_payload_json(payload)],
        ),
        OcppMessageV::CallError { unique_id, error_code, error_description, error_details } =>
            JsonV::Array(
            seq![
                JsonV::Number(seq!['4']),
                JsonV::Str(unique_id),
                JsonV::Str(error_code),
                JsonV::Str(error_description),
                match error_details {
                    Some(d) => d,
                    None => JsonV::Null,
                },
            ],
        ),
    }
}

fn call_error_json(
    unique_id: &String,
    error_code: &String,
    error_description: &String,
    error_details: &Option<serde_json::Value>,
) -> (r: serde_json::Value)
    ensures
        json_view(r) == JsonV::Array(
            seq![
                JsonV::Number(seq!['4']),
                JsonV::Str(unique_id@),
                JsonV::Str(error_code@),
                JsonV::Str(error_description@),
                match error_details {
                    Some(d) => json_view(*d),
                    None => JsonV::Null,
                },
            ],
        ),
{
    let details = match error_details {
        Some(d) => d.clone(),
        None => json_null(),
    };
    let items = vec![
        json_u32(OcppMessageType::CallError.code()),
        json_string(unique_id.clone()),
        json_string(error_code.clone()),
        json_string(error_description.clone()),
        details,
    ];
    assert(views(items@) =~= seq![
        JsonV::Number(seq!['4']),
        JsonV::Str(unique_id@),
        JsonV::Str(error_code@),
        JsonV::Str(error_description@),
        match error_details {
            Some(d) => json_view(*d),
            None => JsonV::Null,
        },
    ]);
    json_array(items)
}

/// The kind of a message.
pub fn message_type_of(message: &OcppMessage) -> (r: OcppMessageType)
    ensures
        r == message_kind(message@),
{
    match message {
        OcppMessage::Call { .. } => OcppMessageType::Call,
        OcppMessage::CallResult { .. } => OcppMessageType::CallResult,
        OcppMessage::CallError { .. } => OcppMessageType::CallError,
    }
}

impl OcppMessage {
    /// Reads a message from a JSON document. `answered` is the action that a
    /// call result answers, if the caller knows it.
    pub fn from_json(v: &serde_json::Value, answered: Option<Action>) -> (r: Result<OcppMessage, ProtocolError>)
        ensures
            match r {
                Ok(m) => message_of(json_view(*v), answered) == Ok::<OcppMessageV, ProtocolError>(m@),
                Err(e) => message_of(json_view(*v), answered) == Err::<OcppMessageV, ProtocolError>(e),
            },
    {
        let items = match json_as_array(v) {
            Some(items) => items,
            None => return Err(ProtocolError::MalformedEnvelope),
        };
        let ghost js = views(items@);
        if items.len() == 0 {
            return Err(ProtocolError::UnknownMessageType);
        }
        assert(js[0] == json_view(items@[0]));
        let kind = match message_type_of_value(&items[0]) {
            Some(k) => k,
            None => return Err(ProtocolError::UnknownMessageType),
        };
        match kind {
            OcppMessageType::Call => {
                if items.len() != 4 {
                    return Err(ProtocolError::MalformedEnvelope);
                }
                assert(js[1] == json_view(items@[1]) && js[2] == json_view(items@[2]));
                assert(js[3] == json_view(items@[3]));
                let (id, name) = match (json_as_str(&items[1]), json_as_str(&items[2])) {
                    (Some(id), Some(name)) => (id, name),
                    _ => return Err(ProtocolError::MalformedEnvelope),
                };
                let action = match Action::from_name(name) {
                    Some(a) => a,
                    None => return Err(ProtocolError::UnknownAction),
                };
                let payload = CallPayload::from_json(action, &items[3])?;
                Ok(OcppMessage::Call { unique_id: id.to_owned(), action, payload })
            },
            OcppMessageType::CallResult => {
                if items.len() != 3 {
                    return Err(ProtocolError::MalformedEnvelope);
                }
                assert(js[1] == json_view(items@[1]) && js[2] == json_view(items@[2]));
                let id = match json_as_str(&items[1]) {
                    Some(id) => id,
                    None => return Err(ProtocolError::MalformedEnvelope),
                };
                let action = match answered {
                    Some(a) => a,
                    None => return Err(ProtocolError::UnknownAction),
                };
                let payload = CallResultPayload::from_json(action, &items[2])?;
                Ok(OcppMessage::CallResult { unique_id: id.to_owned(), payload })
            },
            OcppMessageType::CallError => {
                if items.len() != 5 {
                    return Err(ProtocolError::MalformedEnvelope);
                }
                assert(js[1] == json_view(items@[1]) && js[2] == json_view(items@[2]));
                assert(js[3] == json_view(items@[3]) && js[4] == json_view(items@[4]));
                let (id, code, description) = match (
                    json_as_str(&items[1]),
                    json_as_str(&items[2]),
                    json_as_str(&items[3]),
                ) {
                    (Some(id), Some(code), Some(description)) => (id, code, description),
                    _ => return Err(ProtocolError::MalformedEnvelope),
                };
                let details = if json_is_null(&items[4]) {
                    None
                } else {
                    Some(items[4].clone())
                };
                Ok(
                    OcppMessage::CallError {
                        unique_id: id.to_owned(),
                        error_code: code.to_owned(),
                        error_description: description.to_owned(),
                        error_details: details,
                    },
                )
            },
        }
    }

    /// Writes the message as a JSON array.
    pub fn to_json(&self) -> (r: serde_json::Value)
        ensures
            json_view(r) == message_json(self@),
    {
        match self {
            OcppMessage::Call { unique_id, action, payload } => {
                let items = vec![
                    json_u32(OcppMessageType::Call.code()),
                    json_string(unique_id.clone()),
                    json_string(action.name().to_owned()),
                    payload.to_json(),
                ];
                assert(views(items@) =~= seq![
                    JsonV::Number(seq!['2']),
                    JsonV::Str(unique_id@),
                    JsonV::Str(action_name(*action)),
                    call_payload_json(payload@),
                ]);
                json_array(items)
            },
            OcppMessage::CallResult { unique_id, payload } => {
                let items = vec![
                    json_u32(OcppMessageType::CallResult.code()),
                    json_string(unique_id.clone()),
                    payload.to_json(),
                ];
                assert(views(items@) =~= seq![
                    JsonV::Number(seq!['3']),
                    JsonV::Str(unique_id@),
                    result_payload_json(payload@),
                ]);
                json_array(items)
            },
            OcppMessage::CallError { unique_id, error_code, error_description, error_details } => {
                let r = call_error_json(unique_id, error_code, error_description, error_details);
                assert(json_view(r)->Array_0 =~= message_json(self@)->Array_0);
                r
            },
        }
    }

    /// Writes the message as compact JSON text.
    pub fn to_json_text(&self) -> (r: String)
        ensures
            r@ == json_text(message_json(self@)),
    {
        let v = self.to_json();
        render_json(&v)
    }
}

/// Reads a message from text: the text is normalized, then decoded. Call
/// results cannot be read this way, as the action they answer is unknown.
pub fn parse_ocpp_message(message: String) -> (r: Result<OcppMessage, ProtocolError>)
    ensures
        match json_parse(message@) {
            None => r == Err::<OcppMessage, ProtocolError>(ProtocolError::MalformedJson),
            Some(j) => match r {
                Ok(m) => message_of(normalized(j), None) == Ok::<OcppMessageV, ProtocolError>(m@),
                Err(e) => message_of(normalized(j), None) == Err::<OcppMessageV, ProtocolError>(e),
            },
        },
{
    let parsed = normalize_json_input(message.as_str())?;
    OcppMessage::from_json(&parsed, None)
}

/// A call payload that was read for an action reads back the same once
/// written.
proof fn lemma_call_payload_round_trip(a: Action, j: JsonV)
    requires
        call_payload_of(a, j) is Some,
    ensures
        call_payload_of(a, call_payload_json(call_payload_of(a, j)->0)) == call_payload_of(a, j),
{
    let p = call_payload_of(a, j)->0;
    match p {
        CallPayloadV::BootNotification(b) => lemma_boot_request_round_trip(b),
        CallPayloadV::StatusNotification(s) => lemma_status_request_round_trip(s),
        CallPayloadV::Authorize(t) => lemma_authorize_request_round_trip(t),
        _ => {},
    }
}

/// A result payload that was read for an action reads back the same once
/// written.
proof fn lemma_result_payload_round_trip(a: Action, j: JsonV)
    requires
        result_payload_of(a, j) is Some,
    ensures
        result_payload_of(a, result_payload_json(result_payload_of(a, j)->0)) == result_payload_of(a, j),
{
    match a {
        Action::BootNotification => lemma_boot_response_round_trip(j),
        Action::Heartbeat => {
            reveal_strlit("currentTime");
        },
        Action::Authorize => {
            let info = obj_field(j, "idTagInfo"@)->0;
            lemma_id_tag_info_round_trip(info);
        },
        _ => {},
    }
}

/// Decoding is undone by encoding: for every document that decodes to a
/// call, decoding the encoding of that call gives the same call again.
pub proof fn lemma_call_round_trip(j: JsonV, answered: Option<Action>)
    requires
        message_of(j, answered) matches Ok(m) && m is Call,
    ensures
        message_of(message_json(message_of(j, answered)->Ok_0), answered) == message_of(j, answered),
{
    lemma_round_trip(j, answered);
}

/// The same for every message that decodes, results and errors included:
/// decoding the encoding of a decoded message gives it back.
pub proof fn lemma_round_trip(j: JsonV, answered: Option<Action>)
    requires
        message_of(j, answered) is Ok,
    ensures
        message_of(message_json(message_of(j, answered)->Ok_0), answered) == message_of(j, answered),
{
    let m = message_of(j, answered)->Ok_0;
    let items = j->Array_0;
    match m {
        OcppMessageV::Call { action, .. } => {
            lemma_action_name(action);
            lemma_call_payload_round_trip(action, items[3]);
        },
        OcppMessageV::CallResult { .. } => {
            lemma_result_payload_round_trip(answered->0, items[2]);
        },
        OcppMessageV::CallError { .. } => {},
    }
}

} // verus!
