//! The payloads of the modelled actions: what each request and response
//! holds, how it is read from a JSON object and how it is written back.
use vstd::prelude::*;
use crate::json::{
    decimal_text, json_as_str, json_get, json_insert, json_is_null, json_number_text, json_object,
    json_is_object, json_string, json_u32, json_view, lemma_u32_of_decimal, obj_field, parse_u32, u32_of_text, JsonV,
};
use crate::vocabulary::{
    authorization_status_accepts, charge_point_error_code_accepts, charge_point_status_accepts,
    is_authorization_status, is_charge_point_error_code, is_charge_point_status,
    is_meter_values_request, is_registration_status, is_timestamp, meter_values_request_accepts,
    registration_status_accepts, timestamp_accepts,
};

verus! {

// ----- reading and writing single fields -----

pub open spec fn opt_view(o: Option<String>) -> Option<Seq<char>> {
    match o {
        Some(s) => Some(s@),
        None => None,
    }
}

/// A required string field.
pub open spec fn req_str(j: JsonV, key: Seq<char>) -> Option<Seq<char>> {
    match obj_field(j, key) {
        Some(JsonV::Str(s)) => Some(s),
        _ => None,
    }
}

/// An optional string field: absent or `null` is `Some(None)`, a string is
/// `Some(Some(..))`, anything else does not fit (`None`).
pub open spec fn opt_str(j: JsonV, key: Seq<char>) -> Option<Option<Seq<char>>> {
    match obj_field(j, key) {
        None => Some(None),
        Some(JsonV::Null) => Some(None),
        Some(JsonV::Str(s)) => Some(Some(s)),
        _ => None,
    }
}

/// A required field holding a `u32` in decimal digits.
pub open spec fn u32_field(j: JsonV, key: Seq<char>) -> Option<u32> {
    match obj_field(j, key) {
        Some(JsonV::Number(t)) => u32_of_text(t),
        _ => None,
    }
}

/// An optional field holding a date-time.
pub open spec fn opt_timestamp(j: JsonV, key: Seq<char>) -> Option<Option<Seq<char>>> {
    match opt_str(j, key) {
        Some(Some(s)) => if timestamp_accepts(s) {
            Some(Some(s))
        } else {
            None
        },
        other => other,
    }
}

/// Adds a key for a value that is there, none for one that is not.
pub open spec fn put_opt(m: Map<Seq<char>, JsonV>, key: Seq<char>, o: Option<Seq<char>>) -> Map<Seq<char>, JsonV> {
    match o {
        Some(s) => m.insert(key, JsonV::Str(s)),
        None => m,
    }
}

fn get_str(obj: &serde_json::Value, key: &str) -> (r: Option<String>)
    ensures
        opt_view(r) == req_str(json_view(*obj), key@),
{
    match json_get(obj, key) {
        Some(v) => match json_as_str(v) {
            Some(s) => Some(s.to_owned()),
            None => None,
        },
        None => None,
    }
}

fn get_opt_str(obj: &serde_json::Value, key: &str) -> (r: Option<Option<String>>)
    ensures
        match r {
            Some(o) => opt_str(json_view(*obj), key@) == Some(opt_view(o)),
            None => opt_str(json_view(*obj), key@) is None,
        },
{
    match json_get(obj, key) {
        Some(v) => if json_is_null(v) {
            Some(None)
        } else {
            match json_as_str(v) {
                Some(s) => Some(Some(s.to_owned())),
                None => None,
            }
        },
        None => Some(None),
    }
}

fn get_u32(obj: &serde_json::Value, key: &str) -> (r: Option<u32>)
    ensures
        r == u32_field(json_view(*obj), key@),
{
    match json_get(obj, key) {
        Some(v) => match json_number_text(v) {
            Some(t) => parse_u32(t.as_str()),
            None => None,
        },
        None => None,
    }
}

fn get_opt_timestamp(obj: &serde_json::Value, key: &str) -> (r: Option<Option<String>>)
    ensures
        match r {
            Some(o) => opt_timestamp(json_view(*obj), key@) == Some(opt_view(o)),
            None => opt_timestamp(json_view(*obj), key@) is None,
        },
{
    match get_opt_str(obj, key) {
        Some(Some(s)) => if is_timestamp(s.as_str()) {
            Some(Some(s))
        } else {
            None
        },
        other => other,
    }
}

fn put_str(obj: &mut serde_json::Value, key: &str, s: &String)
    requires
        json_view(*old(obj)) is Object,
    ensures
        json_view(*final(obj)) == JsonV::Object(
            json_view(*old(obj))->Object_0.insert(key@, JsonV::Str(s@)),
        ),
{
    json_insert(obj, key.to_owned(), json_string(s.clone()));
}

fn put_opt_str(obj: &mut serde_json::Value, key: &str, o: &Option<String>)
    requires
        json_view(*old(obj)) is Object,
    ensures
        json_view(*final(obj)) == JsonV::Object(
            put_opt(json_view(*old(obj))->Object_0, key@, opt_view(*o)),
        ),
{
    match o {
        Some(s) => put_str(obj, key, s),
        None => {},
    }
}

fn put_u32(obj: &mut serde_json::Value, key: &str, x: u32)
    requires
        json_view(*old(obj)) is Object,
    ensures
        json_view(*final(obj)) == JsonV::Object(
            json_view(*old(obj))->Object_0.insert(key@, JsonV::Number(decimal_text(x as nat))),
        ),
{
    json_insert(obj, key.to_owned(), json_u32(x));
}

// ----- BootNotification request -----

/// A charge point announcing itself after it starts.
#[derive(Debug, Clone)]
pub struct BootNotificationRequest {
    pub charge_box_serial_number: Option<String>,
    pub charge_point_model: String,
    pub charge_point_serial_number: Option<String>,
    pub charge_point_vendor: String,
    pub firmware_version: Option<String>,
    pub iccid: Option<String>,
    pub imsi: Option<String>,
    pub meter_serial_number: Option<String>,
    pub meter_type: Option<String>,
}

pub struct BootNotificationRequestV {
    pub charge_box_serial_number: Option<Seq<char>>,
    pub charge_point_model: Seq<char>,
    pub charge_point_serial_number: Option<Seq<char>>,
    pub charge_point_vendor: Seq<char>,
    pub firmware_version: Option<Seq<char>>,
    pub iccid: Option<Seq<char>>,
    pub imsi: Option<Seq<char>>,
    pub meter_serial_number: Option<Seq<char>>,
    pub meter_type: Option<Seq<char>>,
}

impl View for BootNotificationRequest {
    type V = BootNotificationRequestV;

    open spec fn view(&self) -> BootNotificationRequestV {
        BootNotificationRequestV {
            charge_box_serial_number: opt_view(self.charge_box_serial_number),
            charge_point_model: self.charge_point_model@,
            charge_point_serial_number: opt_view(self.charge_point_serial_number),
            charge_point_vendor: self.charge_point_vendor@,
            firmware_version: opt_view(self.firmware_version),
            iccid: opt_view(self.iccid),
            imsi: opt_view(self.imsi),
            meter_serial_number: opt_view(self.meter_serial_number),
            meter_type: opt_view(self.meter_type),
        }
    }
}

/// The request that a JSON object holds, if it has the required fields
/// with the right types; other keys are ignored.
pub open spec fn boot_request_of(j: JsonV) -> Option<BootNotificationRequestV> {
    if req_str(j, "chargePointModel"@) is Some && req_str(j, "chargePointVendor"@) is Some
        && opt_str(j, "chargeBoxSerialNumber"@) is Some && opt_str(j, "chargePointSerialNumber"@) is Some
        && opt_str(j, "firmwareVersion"@) is Some && opt_str(j, "iccid"@) is Some
        && opt_str(j, "imsi"@) is Some && opt_str(j, "meterSerialNumber"@) is Some
        && opt_str(j, "meterType"@) is Some {
        Some(BootNotificationRequestV {
            charge_box_serial_number: opt_str(j, "chargeBoxSerialNumber"@)->0,
            charge_point_model: req_str(j, "chargePointModel"@)->0,
            charge_point_serial_number: opt_str(j, "chargePointSerialNumber"@)->0,
            charge_point_vendor: req_str(j, "chargePointVendor"@)->0,
            firmware_version: opt_str(j, "firmwareVersion"@)->0,
            iccid: opt_str(j, "iccid"@)->0,
            imsi: opt_str(j, "imsi"@)->0,
            meter_serial_number: opt_str(j, "meterSerialNumber"@)->0,
            meter_type: opt_str(j, "meterType"@)->0,
        })
    } else {
        None
    }
}

/// The JSON object of a request: absent optional fields get no key.
pub open spec fn boot_request_json(b: BootNotificationRequestV) -> JsonV {
    let m0 = Map::<Seq<char>, JsonV>::empty();
    let m1 = put_opt(m0, "chargeBoxSerialNumber"@, b.charge_box_serial_number);
    let m2 = m1.insert("chargePointModel"@, JsonV::Str(b.charge_point_model));
    let m3 = put_opt(m2, "chargePointSerialNumber"@, b.charge_point_serial_number);
    let m4 = m3.insert("chargePointVendor"@, JsonV::Str(b.charge_point_vendor));
    let m5 = put_opt(m4, "firmwareVersion"@, b.firmware_version);
    let m6 = put_opt(m5, "iccid"@, b.iccid);
    let m7 = put_opt(m6, "imsi"@, b.imsi);
    let m8 = put_opt(m7, "meterSerialNumber"@, b.meter_serial_number);
    JsonV::Object(put_opt(m8, "meterType"@, b.meter_type))
}

impl BootNotificationRequest {
    /// Reads the request from the payload of a call.
    pub fn from_json(j: &serde_json::Value) -> (r: Option<BootNotificationRequest>)
        ensures
            match r {
                Some(b) => boot_request_of(json_view(*j)) == Some(b@),
                None => boot_request_of(json_view(*j)) is None,
            },
    {
        let charge_point_model = get_str(j, "chargePointModel")?;
        let charge_point_vendor = get_str(j, "chargePointVendor")?;
        let charge_box_serial_number = get_opt_str(j, "chargeBoxSerialNumber")?;
        let charge_point_serial_number = get_opt_str(j, "chargePointSerialNumber")?;
        let firmware_version = get_opt_str(j, "firmwareVersion")?;
        let iccid = get_opt_str(j, "iccid")?;
        let imsi = get_opt_str(j, "imsi")?;
        let meter_serial_number = get_opt_str(j, "meterSerialNumber")?;
        let meter_type = get_opt_str(j, "meterType")?;
        Some(BootNotificationRequest {
            charge_box_serial_number,
            charge_point_model,
            charge_point_serial_number,
            charge_point_vendor,
            firmware_version,
            iccid,
            imsi,
            meter_serial_number,
            meter_type,
        })
    }

    /// Writes the request as the payload of a call.
    pub fn to_json(&self) -> (r: serde_json::Value)
        ensures
            json_view(r) == boot_request_json(self@),
    {
        let mut obj = json_object();
        put_opt_str(&mut obj, "chargeBoxSerialNumber", &self.charge_box_serial_number);
        put_str(&mut obj, "chargePointModel", &self.charge_point_model);
        put_opt_str(&mut obj, "chargePointSerialNumber", &self.charge_point_serial_number);
        put_str(&mut obj, "chargePointVendor", &self.charge_point_vendor);
        put_opt_str(&mut obj, "firmwareVersion", &self.firmware_version);
        put_opt_str(&mut obj, "iccid", &self.iccid);
        put_opt_str(&mut obj, "imsi", &self.imsi);
        put_opt_str(&mut obj, "meterSerialNumber", &self.meter_serial_number);
        put_opt_str(&mut obj, "meterType", &self.meter_type);
        obj
    }
}

// ----- StatusNotification request -----

/// A charge point reporting the state of one of its connectors.
#[derive(Debug, Clone)]
pub struct StatusNotificationRequest {
    pub connector_id: u32,
    /// A `ChargePointErrorCode` name.
    pub error_code: String,
    pub info: Option<String>,
    /// A `ChargePointStatus` name.
    pub status: String,
    /// An RFC 3339 date-time.
    pub timestamp: Option<String>,
    pub vendor_id: Option<String>,
    pub vendor_error_code: Option<String>,
}

pub struct StatusNotificationRequestV {
    pub connector_id: u32,
    pub error_code: Seq<char>,
    pub info: Option<Seq<char>>,
    pub status: Seq<char>,
    pub timestamp: Option<Seq<char>>,
    pub vendor_id: Option<Seq<char>>,
    pub vendor_error_code: Option<Seq<char>>,
}

impl View for StatusNotificationRequest {
    type V = StatusNotificationRequestV;

    open spec fn view(&self) -> StatusNotificationRequestV {
        StatusNotificationRequestV {
            connector_id: self.connector_id,
            error_code: self.error_code@,
            info: opt_view(self.info),
            status: self.status@,
            timestamp: opt_view(self.timestamp),
            vendor_id: opt_view(self.vendor_id),
            vendor_error_code: opt_view(self.vendor_error_code),
        }
    }
}

pub open spec fn status_request_of(j: JsonV) -> Option<StatusNotificationRequestV> {
    if u32_field(j, "connectorId"@) is Some
        && (req_str(j, "errorCode"@) matches Some(e) && charge_point_error_code_accepts(e))
        && opt_str(j, "info"@) is Some
        && (req_str(j, "status"@) matches Some(st) && charge_point_status_accepts(st))
        && opt_timestamp(j, "timestamp"@) is Some && opt_str(j, "vendorId"@) is Some
        && opt_str(j, "vendorErrorCode"@) is Some {
        Some(StatusNotificationRequestV {
            connector_id: u32_field(j, "connectorId"@)->0,
            error_code: req_str(j, "errorCode"@)->0,
            info: opt_str(j, "info"@)->0,
            status: req_str(j, "status"@)->0,
            timestamp: opt_timestamp(j, "timestamp"@)->0,
            vendor_id: opt_str(j, "vendorId"@)->0,
            vendor_error_code: opt_str(j, "vendorErrorCode"@)->0,
        })
    } else {
        None
    }
}

pub open spec fn status_request_json(r: StatusNotificationRequestV) -> JsonV {
    let m0 = Map::<Seq<char>, JsonV>::empty();
    let m1 = m0.insert("connectorId"@, JsonV::Number(decimal_text(r.connector_id as nat)));
    let m2 = m1.insert("errorCode"@, JsonV::Str(r.error_code));
    let m3 = put_opt(m2, "info"@, r.info);
    let m4 = m3.insert("status"@, JsonV::Str(r.status));
    let m5 = put_opt(m4, "timestamp"@, r.timestamp);
    let m6 = put_opt(m5, "vendorId"@, r.vendor_id);
    JsonV::Object(put_opt(m6, "vendorErrorCode"@, r.vendor_error_code))
}

/// The named values in the request are ones the protocol knows.
pub open spec fn status_request_wf(r: StatusNotificationRequestV) -> bool {
    &&& charge_point_error_code_accepts(r.error_code)
    &&& charge_point_status_accepts(r.status)
    &&& (r.timestamp matches Some(t) ==> timestamp_accepts(t))
}

impl StatusNotificationRequest {
    /// Reads the request from the payload of a call.
    pub fn from_json(j: &serde_json::Value) -> (r: Option<StatusNotificationRequest>)
        ensures
            match r {
                Some(x) => status_request_of(json_view(*j)) == Some(x@),
                None => status_request_of(json_view(*j)) is None,
            },
    {
        let connector_id = get_u32(j, "connectorId")?;
        let error_code = get_str(j, "errorCode")?;
        if !is_charge_point_error_code(error_code.as_str()) {
            return None;
        }
        let info = get_opt_str(j, "info")?;
        let status = get_str(j, "status")?;
        if !is_charge_point_status(status.as_str()) {
            return None;
        }
        let timestamp = get_opt_timestamp(j, "timestamp")?;
        let vendor_id = get_opt_str(j, "vendorId")?;
        let vendor_error_code = get_opt_str(j, "vendorErrorCode")?;
        Some(StatusNotificationRequest {
            connector_id,
            error_code,
            info,
            status,
            timestamp,
            vendor_id,
            vendor_error_code,
        })
    }

    /// Writes the request as the payload of a call.
    pub fn to_json(&self) -> (r: serde_json::Value)
        ensures
            json_view(r) == status_request_json(self@),
    {
        let mut obj = json_object();
        put_u32(&mut obj, "connectorId", self.connector_id);
        put_str(&mut obj, "errorCode", &self.error_code);
        put_opt_str(&mut obj, "info", &self.info);
        put_str(&mut obj, "status", &self.status);
        put_opt_str(&mut obj, "timestamp", &self.timestamp);
        put_opt_str(&mut obj, "vendorId", &self.vendor_id);
        put_opt_str(&mut obj, "vendorErrorCode", &self.vendor_error_code);
        obj
    }
}

// ----- Heartbeat, Authorize and MeterValues requests -----

/// A charge point telling that it is alive; it carries nothing.
#[derive(Debug, Clone)]
pub struct HeartbeatRequest {}

/// Any JSON object is a heartbeat request: its keys are ignored.
pub open spec fn heartbeat_request_fits(j: JsonV) -> bool {
    j is Object
}

impl HeartbeatRequest {
    pub fn from_json(j: &serde_json::Value) -> (r: Option<HeartbeatRequest>)
        ensures
            r is Some == heartbeat_request_fits(json_view(*j)),
    {
        if json_is_object(j) {
            Some(HeartbeatRequest {})
        } else {
            None
        }
    }

    pub fn to_json(&self) -> (r: serde_json::Value)
        ensures
            json_view(r) == JsonV::Object(Map::empty()),
    {
        json_object()
    }
}

/// A charge point asking whether an identifier may start charging.
#[derive(Debug, Clone)]
pub struct AuthorizeRequest {
    pub id_tag: String,
}

pub open spec fn authorize_request_json(id_tag: Seq<char>) -> JsonV {
    JsonV::Object(Map::empty().insert("idTag"@, JsonV::Str(id_tag)))
}

impl AuthorizeRequest {
    pub fn from_json(j: &serde_json::Value) -> (r: Option<AuthorizeRequest>)
        ensures
            match r {
                Some(x) => req_str(json_view(*j), "idTag"@) == Some(x.id_tag@),
                None => req_str(json_view(*j), "idTag"@) is None,
            },
    {
        let id_tag = get_str(j, "idTag")?;
        Some(AuthorizeRequest { id_tag })
    }

    pub fn to_json(&self) -> (r: serde_json::Value)
        ensures
            json_view(r) == authorize_request_json(self.id_tag@),
    {
        let mut obj = json_object();
        put_str(&mut obj, "idTag", &self.id_tag);
        obj
    }
}

/// Meter readings from a charge point. The document is kept as it came:
/// nothing here reads inside it, and `rust_ocpp` decides whether it has the
/// fields of a meter-values request.
#[derive(Debug, Clone)]
pub struct MeterValuesRequest {
    pub document: serde_json::Value,
}

impl MeterValuesRequest {
    pub fn from_json(j: &serde_json::Value) -> (r: Option<MeterValuesRequest>)
        ensures
            match r {
                Some(x) => meter_values_request_accepts(json_view(*j)) && json_view(x.document) == json_view(*j),
                None => !meter_values_request_accepts(json_view(*j)),
            },
    {
        if is_meter_values_request(j) {
            Some(MeterValuesRequest { document: j.clone() })
        } else {
            None
        }
    }

    pub fn to_json(&self) -> (r: serde_json::Value)
        ensures
            json_view(r) == json_view(self.document),
    {
        self.document.clone()
    }
}

// ----- responses -----

/// The answer to a boot notification.
#[derive(Debug, Clone)]
pub struct BootNotificationResponse {
    /// An RFC 3339 date-time.
    pub current_time: String,
    /// Seconds between heartbeats.
    pub interval: u32,
    /// A `RegistrationStatus` name.
    pub status: String,
}

pub struct BootNotificationResponseV {
    pub current_time: Seq<char>,
    pub interval: u32,
    pub status: Seq<char>,
}

impl View for BootNotificationResponse {
    type V = BootNotificationResponseV;

    open spec fn view(&self) -> BootNotificationResponseV {
        BootNotificationResponseV {
            current_time: self.current_time@,
            interval: self.interval,
            status: self.status@,
        }
    }
}

pub open spec fn boot_response_of(j: JsonV) -> Option<BootNotificationResponseV> {
    if (req_str(j, "currentTime"@) matches Some(t) && timestamp_accepts(t))
        && u32_field(j, "interval"@) is Some
        && (req_str(j, "status"@) matches Some(st) && registration_status_accepts(st)) {
        Some(BootNotificationResponseV {
            current_time: req_str(j, "currentTime"@)->0,
            interval: u32_field(j, "interval"@)->0,
            status: req_str(j, "status"@)->0,
        })
    } else {
        None
    }
}

pub open spec fn boot_response_json(r: BootNotificationResponseV) -> JsonV {
    JsonV::Object(
        Map::empty().insert("currentTime"@, JsonV::Str(r.current_time)).insert(
            "interval"@,
            JsonV::Number(decimal_text(r.interval as nat)),
        ).insert("status"@, JsonV::Str(r.status)),
    )
}

impl BootNotificationResponse {
    pub fn from_json(j: &serde_json::Value) -> (r: Option<BootNotificationResponse>)
        ensures
            match r {
                Some(x) => boot_response_of(json_view(*j)) == Some(x@),
                None => boot_response_of(json_view(*j)) is None,
            },
    {
        let current_time = get_str(j, "currentTime")?;
        if !is_timestamp(current_time.as_str()) {
            return None;
        }
        let interval = get_u32(j, "interval")?;
        let status = get_str(j, "status")?;
        if !is_registration_status(status.as_str()) {
            return None;
        }
        Some(BootNotificationResponse { current_time, interval, status })
    }

    pub fn to_json(&self) -> (r: serde_json::Value)
        ensures
            json_view(r) == boot_response_json(self@),
    {
        let mut obj = json_object();
        put_str(&mut obj, "currentTime", &self.current_time);
        put_u32(&mut obj, "interval", self.interval);
        put_str(&mut obj, "status", &self.status);
        obj
    }
}

/// The answer to a heartbeat: the central system's clock.
#[derive(Debug, Clone)]
pub struct HeartbeatResponse {
    /// An RFC 3339 date-time.
    pub current_time: String,
}

pub open spec fn heartbeat_response_of(j: JsonV) -> Option<Seq<char>> {
    match req_str(j, "currentTime"@) {
        Some(t) => if timestamp_accepts(t) {
            Some(t)
        } else {
            None
        },
        None => None,
    }
}

pub open spec fn heartbeat_response_json(current_time: Seq<char>) -> JsonV {
    JsonV::Object(Map::empty().insert("currentTime"@, JsonV::Str(current_time)))
}

impl HeartbeatResponse {
    pub fn from_json(j: &serde_json::Value) -> (r: Option<HeartbeatResponse>)
        ensures
            match r {
                Some(x) => heartbeat_response_of(json_view(*j)) == Some(x.current_time@),
                None => heartbeat_response_of(json_view(*j)) is None,
            },
    {
        let current_time = get_str(j, "currentTime")?;
        if is_timestamp(current_time.as_str()) {
            Some(HeartbeatResponse { current_time })
        } else {
            None
        }
    }

    pub fn to_json(&self) -> (r: serde_json::Value)
        ensures
            json_view(r) == heartbeat_response_json(self.current_time@),
    {
        let mut obj = json_object();
        put_str(&mut obj, "currentTime", &self.current_time);
        obj
    }
}

/// The answer to a status notification; it carries nothing.
#[derive(Debug, Clone)]
pub struct StatusNotificationResponse {}

/// The answer to a meter-values request; it carries nothing.
#[derive(Debug, Clone)]
pub struct MeterValuesResponse {}

/// What the central system says of an identifier.
#[derive(Debug, Clone)]
pub struct IdTagInfo {
    /// An RFC 3339 date-time.
    pub expiry_date: Option<String>,
    pub parent_id_tag: Option<String>,
    /// An `AuthorizationStatus` name.
    pub status: String,
}

pub struct IdTagInfoV {
    pub expiry_date: Option<Seq<char>>,
    pub parent_id_tag: Option<Seq<char>>,
    pub status: Seq<char>,
}

impl View for IdTagInfo {
    type V = IdTagInfoV;

    open spec fn view(&self) -> IdTagInfoV {
        IdTagInfoV {
            expiry_date: opt_view(self.expiry_date),
            parent_id_tag: opt_view(self.parent_id_tag),
            status: self.status@,
        }
    }
}

pub open spec fn id_tag_info_of(j: JsonV) -> Option<IdTagInfoV> {
    if opt_timestamp(j, "expiryDate"@) is Some && opt_str(j, "parentIdTag"@) is Some
        && (req_str(j, "status"@) matches Some(st) && authorization_status_accepts(st)) {
        Some(IdTagInfoV {
            expiry_date: opt_timestamp(j, "expiryDate"@)->0,
            parent_id_tag: opt_str(j, "parentIdTag"@)->0,
            status: req_str(j, "status"@)->0,
        })
    } else {
        None
    }
}

pub open spec fn id_tag_info_json(i: IdTagInfoV) -> JsonV {
    JsonV::Object(
        put_opt(
            put_opt(Map::empty(), "expiryDate"@, i.expiry_date),
            "parentIdTag"@,
            i.parent_id_tag,
        ).insert("status"@, JsonV::Str(i.status)),
    )
}

/// The answer to an authorization request.
#[derive(Debug, Clone)]
pub struct AuthorizeResponse {
    pub id_tag_info: IdTagInfo,
}

pub open spec fn authorize_response_of(j: JsonV) -> Option<IdTagInfoV> {
    match obj_field(j, "idTagInfo"@) {
        Some(info) => id_tag_info_of(info),
        None => None,
    }
}

pub open spec fn authorize_response_json(i: IdTagInfoV) -> JsonV {
    JsonV::Object(Map::empty().insert("idTagInfo"@, id_tag_info_json(i)))
}

impl AuthorizeResponse {
    pub fn from_json(j: &serde_json::Value) -> (r: Option<AuthorizeResponse>)
        ensures
            match r {
                Some(x) => authorize_response_of(json_view(*j)) == Some(x.id_tag_info@),
                None => authorize_response_of(json_view(*j)) is None,
            },
    {
        let info = json_get(j, "idTagInfo")?;
        let expiry_date = get_opt_timestamp(info, "expiryDate")?;
        let parent_id_tag = get_opt_str(info, "parentIdTag")?;
        let status = get_str(info, "status")?;
        if !is_authorization_status(status.as_str()) {
            return None;
        }
        Some(AuthorizeResponse { id_tag_info: IdTagInfo { expiry_date, parent_id_tag, status } })
    }

    pub fn to_json(&self) -> (r: serde_json::Value)
        ensures
            json_view(r) == authorize_response_json(self.id_tag_info@),
    {
        let mut info = json_object();
        put_opt_str(&mut info, "expiryDate", &self.id_tag_info.expiry_date);
        put_opt_str(&mut info, "parentIdTag", &self.id_tag_info.parent_id_tag);
        put_str(&mut info, "status", &self.id_tag_info.status);
        let mut obj = json_object();
        json_insert(&mut obj, "idTagInfo".to_owned(), info);
        obj
    }
}

/// What an optional string field reads back as, once written.
pub open spec fn opt_field_json(o: Option<Seq<char>>) -> Option<JsonV> {
    match o {
        Some(s) => Some(JsonV::Str(s)),
        None => None,
    }
}

proof fn lemma_put_opt(m: Map<Seq<char>, JsonV>, key: Seq<char>, o: Option<Seq<char>>, k: Seq<char>)
    ensures
        obj_field(JsonV::Object(put_opt(m, key, o)), k) == if k == key && o is Some {
            opt_field_json(o)
        } else {
            obj_field(JsonV::Object(m), k)
        },
{
}

proof fn lemma_opt_str_back(j: JsonV, key: Seq<char>, o: Option<Seq<char>>)
    requires
        obj_field(j, key) == opt_field_json(o),
    ensures
        opt_str(j, key) == Some(o),
{
}

pub proof fn lemma_boot_request_round_trip(b: BootNotificationRequestV)
    ensures
        boot_request_of(boot_request_json(b)) == Some(b),
{
    reveal_strlit("chargeBoxSerialNumber");
    reveal_strlit("chargePointModel");
    reveal_strlit("chargePointSerialNumber");
    reveal_strlit("chargePointVendor");
    reveal_strlit("firmwareVersion");
    reveal_strlit("iccid");
    reveal_strlit("imsi");
    reveal_strlit("meterSerialNumber");
    reveal_strlit("meterType");
    let k1 = "chargeBoxSerialNumber"@;
    let k2 = "chargePointModel"@;
    let k3 = "chargePointSerialNumber"@;
    let k4 = "chargePointVendor"@;
    let k5 = "firmwareVersion"@;
    let k6 = "iccid"@;
    let k7 = "imsi"@;
    let k8 = "meterSerialNumber"@;
    let k9 = "meterType"@;
    assert(k1.len() == 21 && k2.len() == 16 && k3.len() == 23 && k4.len() == 17 && k5.len() == 15);
    assert(k6.len() == 5 && k7.len() == 4 && k8.len() == 17 && k9.len() == 9);
    assert(k4[0] != k8[0]);
    let m0 = Map::<Seq<char>, JsonV>::empty();
    let m1 = put_opt(m0, k1, b.charge_box_serial_number);
    let m2 = m1.insert(k2, JsonV::Str(b.charge_point_model));
    let m3 = put_opt(m2, k3, b.charge_point_serial_number);
    let m4 = m3.insert(k4, JsonV::Str(b.charge_point_vendor));
    let m5 = put_opt(m4, k5, b.firmware_version);
    let m6 = put_opt(m5, k6, b.iccid);
    let m7 = put_opt(m6, k7, b.imsi);
    let m8 = put_opt(m7, k8, b.meter_serial_number);
    let j = JsonV::Object(put_opt(m8, k9, b.meter_type));
    assert(j == boot_request_json(b));
    let keys = seq![k1, k2, k3, k4, k5, k6, k7, k8, k9];
    assert forall|k: Seq<char>| keys.contains(k) implies obj_field(j, k) == if k == k1 {
        opt_field_json(b.charge_box_serial_number)
    } else if k == k2 {
        Some(JsonV::Str(b.charge_point_model))
    } else if k == k3 {
        opt_field_json(b.charge_point_serial_number)
    } else if k == k4 {
        Some(JsonV::Str(b.charge_point_vendor))
    } else if k == k5 {
        opt_field_json(b.firmware_version)
    } else if k == k6 {
        opt_field_json(b.iccid)
    } else if k == k7 {
        opt_field_json(b.imsi)
    } else if k == k8 {
        opt_field_json(b.meter_serial_number)
    } else {
        opt_field_json(b.meter_type)
    } by {
        lemma_put_opt(m0, k1, b.charge_box_serial_number, k);
        lemma_put_opt(m2, k3, b.charge_point_serial_number, k);
        lemma_put_opt(m4, k5, b.firmware_version, k);
        lemma_put_opt(m5, k6, b.iccid, k);
        lemma_put_opt(m6, k7, b.imsi, k);
        lemma_put_opt(m7, k8, b.meter_serial_number, k);
        lemma_put_opt(m8, k9, b.meter_type, k);
        assert(keys[0] == k1 && keys[1] == k2 && keys[2] == k3 && keys[3] == k4 && keys[4] == k5);
        assert(keys[5] == k6 && keys[6] == k7 && keys[7] == k8 && keys[8] == k9);
    }
    assert(keys[0] == k1 && keys[1] == k2 && keys[2] == k3 && keys[3] == k4 && keys[4] == k5);
    assert(keys[5] == k6 && keys[6] == k7 && keys[7] == k8 && keys[8] == k9);
    lemma_opt_str_back(j, k1, b.charge_box_serial_number);
    lemma_opt_str_back(j, k3, b.charge_point_serial_number);
    lemma_opt_str_back(j, k5, b.firmware_version);
    lemma_opt_str_back(j, k6, b.iccid);
    lemma_opt_str_back(j, k7, b.imsi);
    lemma_opt_str_back(j, k8, b.meter_serial_number);
    lemma_opt_str_back(j, k9, b.meter_type);
}

pub proof fn lemma_status_request_round_trip(r: StatusNotificationRequestV)
    requires
        status_request_wf(r),
    ensures
        status_request_of(status_request_json(r)) == Some(r),
{
    reveal_strlit("connectorId");
    reveal_strlit("errorCode");
    reveal_strlit("info");
    reveal_strlit("status");
    reveal_strlit("timestamp");
    reveal_strlit("vendorId");
    reveal_strlit("vendorErrorCode");
    let k1 = "connectorId"@;
    let k2 = "errorCode"@;
    let k3 = "info"@;
    let k4 = "status"@;
    let k5 = "timestamp"@;
    let k6 = "vendorId"@;
    let k7 = "vendorErrorCode"@;
    assert(k1.len() == 11 && k2.len() == 9 && k3.len() == 4 && k4.len() == 6);
    assert(k5.len() == 9 && k6.len() == 8 && k7.len() == 15);
    assert(k2[0] != k5[0]);
    let m0 = Map::<Seq<char>, JsonV>::empty();
    let m1 = m0.insert(k1, JsonV::Number(decimal_text(r.connector_id as nat)));
    let m2 = m1.insert(k2, JsonV::Str(r.error_code));
    let m3 = put_opt(m2, k3, r.info);
    let m4 = m3.insert(k4, JsonV::Str(r.status));
    let m5 = put_opt(m4, k5, r.timestamp);
    let m6 = put_opt(m5, k6, r.vendor_id);
    let j = JsonV::Object(put_opt(m6, k7, r.vendor_error_code));
    assert(j == status_request_json(r));
    let keys = seq![k1, k2, k3, k4, k5, k6, k7];
    assert forall|k: Seq<char>| keys.contains(k) implies obj_field(j, k) == if k == k1 {
        Some(JsonV::Number(decimal_text(r.connector_id as nat)))
    } else if k == k2 {
        Some(JsonV::Str(r.error_code))
    } else if k == k3 {
        opt_field_json(r.info)
    } else if k == k4 {
        Some(JsonV::Str(r.status))
    } else if k == k5 {
        opt_field_json(r.timestamp)
    } else if k == k6 {
        opt_field_json(r.vendor_id)
    } else {
        opt_field_json(r.vendor_error_code)
    } by {
        lemma_put_opt(m2, k3, r.info, k);
        lemma_put_opt(m4, k5, r.timestamp, k);
        lemma_put_opt(m5, k6, r.vendor_id, k);
        lemma_put_opt(m6, k7, r.vendor_error_code, k);
        assert(keys[0] == k1 && keys[1] == k2 && keys[2] == k3 && keys[3] == k4);
        assert(keys[4] == k5 && keys[5] == k6 && keys[6] == k7);
    }
    assert(keys[0] == k1 && keys[1] == k2 && keys[2] == k3 && keys[3] == k4);
    assert(keys[4] == k5 && keys[5] == k6 && keys[6] == k7);
    lemma_u32_of_decimal(r.connector_id);
    lemma_opt_str_back(j, k3, r.info);
    lemma_opt_str_back(j, k5, r.timestamp);
    lemma_opt_str_back(j, k6, r.vendor_id);
    lemma_opt_str_back(j, k7, r.vendor_error_code);
}

pub proof fn lemma_boot_response_round_trip(j: JsonV)
    requires
        boot_response_of(j) is Some,
    ensures
        boot_response_of(boot_response_json(boot_response_of(j)->0)) == boot_response_of(j),
{
    reveal_strlit("currentTime");
    reveal_strlit("interval");
    reveal_strlit("status");
    assert("currentTime"@.len() == 11 && "interval"@.len() == 8 && "status"@.len() == 6);
    lemma_u32_of_decimal(boot_response_of(j)->0.interval);
}

pub proof fn lemma_id_tag_info_round_trip(j: JsonV)
    requires
        id_tag_info_of(j) is Some,
    ensures
        id_tag_info_of(id_tag_info_json(id_tag_info_of(j)->0)) == id_tag_info_of(j),
{
    reveal_strlit("expiryDate");
    reveal_strlit("parentIdTag");
    reveal_strlit("status");
    let k1 = "expiryDate"@;
    let k2 = "parentIdTag"@;
    let k3 = "status"@;
    assert(k1.len() == 10 && k2.len() == 11 && k3.len() == 6);
    let i = id_tag_info_of(j)->0;
    let m0 = Map::<Seq<char>, JsonV>::empty();
    let m1 = put_opt(m0, k1, i.expiry_date);
    let m2 = put_opt(m1, k2, i.parent_id_tag);
    let out = id_tag_info_json(i);
    assert(out == JsonV::Object(m2.insert(k3, JsonV::Str(i.status))));
    lemma_put_opt(m0, k1, i.expiry_date, k1);
    lemma_put_opt(m1, k2, i.parent_id_tag, k1);
    lemma_put_opt(m0, k1, i.expiry_date, k2);
    lemma_put_opt(m1, k2, i.parent_id_tag, k2);
    assert(obj_field(out, k1) == obj_field(JsonV::Object(m2), k1));
    assert(obj_field(out, k2) == obj_field(JsonV::Object(m2), k2));
    lemma_opt_str_back(out, k1, i.expiry_date);
    lemma_opt_str_back(out, k2, i.parent_id_tag);
}

pub proof fn lemma_authorize_request_round_trip(id_tag: Seq<char>)
    ensures
        req_str(authorize_request_json(id_tag), "idTag"@) == Some(id_tag),
{
}

} // verus!
