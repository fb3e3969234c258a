//! The protocol's named values (statuses, error codes, date-times) and which
//! texts are valid ones. The lists are `rust_ocpp`'s and the date-time format
//! is `chrono`'s; the functions here ask them.
use vstd::prelude::*;
use crate::json::{json_view, JsonV};

verus! {

/// Whether `chrono` reads the text as an RFC 3339 date-time.
pub uninterp spec fn timestamp_accepts(s: Seq<char>) -> bool;

/// Whether the text names a `rust_ocpp` v1.6 `ChargePointStatus`.
pub uninterp spec fn charge_point_status_accepts(s: Seq<char>) -> bool;

/// Whether the text names a `rust_ocpp` v1.6 `ChargePointErrorCode`.
pub uninterp spec fn charge_point_error_code_accepts(s: Seq<char>) -> bool;

/// Whether the text names a `rust_ocpp` v1.6 `RegistrationStatus`.
pub uninterp spec fn registration_status_accepts(s: Seq<char>) -> bool;

/// Whether the text names a `rust_ocpp` v1.6 `AuthorizationStatus`.
pub uninterp spec fn authorization_status_accepts(s: Seq<char>) -> bool;

/// Whether `rust_ocpp` reads the document as a v1.6 `MeterValuesRequest`.
pub uninterp spec fn meter_values_request_accepts(j: JsonV) -> bool;

/// Relies on `FromStr for chrono::DateTime<FixedOffset>`, which is what
/// `chrono`'s serde support uses to read a `DateTime<Utc>`.
#[verifier::external_body]
pub fn is_timestamp(s: &str) -> (r: bool)
    ensures
        r == timestamp_accepts(s@),
{
    s.parse::<chrono::DateTime<chrono::FixedOffset>>().is_ok()
}

/// Relies on `serde_json::from_value::<ChargePointStatus>` of a JSON string.
#[verifier::external_body]
pub fn is_charge_point_status(s: &str) -> (r: bool)
    ensures
        r == charge_point_status_accepts(s@),
{
    let v = serde_json::Value::String(s.to_owned());
    serde_json::from_value::<rust_ocpp::v1_6::types::ChargePointStatus>(v).is_ok()
}

/// Relies on `serde_json::from_value::<ChargePointErrorCode>` of a JSON string.
#[verifier::external_body]
pub fn is_charge_point_error_code(s: &str) -> (r: bool)
    ensures
        r == charge_point_error_code_accepts(s@),
{
    let v = serde_json::Value::String(s.to_owned());
    serde_json::from_value::<rust_ocpp::v1_6::types::ChargePointErrorCode>(v).is_ok()
}

/// Relies on `serde_json::from_value::<RegistrationStatus>` of a JSON string.
#[verifier::external_body]
pub fn is_registration_status(s: &str) -> (r: bool)
    ensures
        r == registration_status_accepts(s@),
{
    let v = serde_json::Value::String(s.to_owned());
    serde_json::from_value::<rust_ocpp::v1_6::types::RegistrationStatus>(v).is_ok()
}

/// Relies on `serde_json::from_value::<AuthorizationStatus>` of a JSON string.
#[verifier::external_body]
pub fn is_authorization_status(s: &str) -> (r: bool)
    ensures
        r == authorization_status_accepts(s@),
{
    let v = serde_json::Value::String(s.to_owned());
    serde_json::from_value::<rust_ocpp::v1_6::types::AuthorizationStatus>(v).is_ok()
}

/// Relies on `serde_json::from_value::<MeterValuesRequest>`: whether the
/// document has the fields of a v1.6 meter-values request.
#[verifier::external_body]
pub fn is_meter_values_request(v: &serde_json::Value) -> (r: bool)
    ensures
        r == meter_values_request_accepts(json_view(*v)),
{
    let doc = v.clone();
    serde_json::from_value::<rust_ocpp::v1_6::messages::meter_values::MeterValuesRequest>(doc).is_ok()
}

} // verus!
