//! Repairs two irregularities of incoming text before the envelope is read:
//! a date-time without a zone gets `Z`, and a numeric message type becomes
//! the string of its digits.
use vstd::prelude::*;
use crate::json::{
    json_array, json_as_str, json_get, json_insert, json_into_array, json_number_text, json_string,
    json_view, obj_field, parse_json, json_parse, views, JsonV,
};
use crate::ocpp::ProtocolError;

verus! {

pub open spec fn ends_in_zone_z(s: Seq<char>) -> bool {
    s.len() > 0 && (s.last() == 'Z' || s.last() == 'z')
}

/// A payload object whose `timestamp` string lacks the `Z` gets it; any
/// other document stays as it is.
pub open spec fn fixed_payload(j: JsonV) -> JsonV {
    match obj_field(j, "timestamp"@) {
        Some(JsonV::Str(s)) => if ends_in_zone_z(s) {
            j
        } else {
            JsonV::Object(j->Object_0.insert("timestamp"@, JsonV::Str(s.push('Z'))))
        },
        _ => j,
    }
}

/// Only the fourth item of an array is looked at.
pub open spec fn fixed_datetimes(j: JsonV) -> JsonV {
    match j {
        JsonV::Array(items) => if items.len() > 3 {
            JsonV::Array(items.update(3, fixed_payload(items[3])))
        } else {
            j
        },
        _ => j,
    }
}

/// A number first in an array becomes the string of its text.
pub open spec fn fixed_message_type(j: JsonV) -> JsonV {
    match j {
        JsonV::Array(items) => if items.len() > 0 && items[0] is Number {
            JsonV::Array(items.update(0, JsonV::Str(items[0]->Number_0)))
        } else {
            j
        },
        _ => j,
    }
}

/// Both repairs, the date-time first.
pub open spec fn normalized(j: JsonV) -> JsonV {
    fixed_message_type(fixed_datetimes(j))
}

/// Appends `Z` to the `timestamp` string of a payload object that does not
/// end in `Z` or `z`.
pub fn fix_payload_timestamps(payload: &mut serde_json::Value)
    ensures
        json_view(*final(payload)) == fixed_payload(json_view(*old(payload))),
{
    let current: Option<String> = match json_get(payload, "timestamp") {
        Some(x) => match json_as_str(x) {
            Some(s) => Some(s.to_owned()),
            None => None,
        },
        None => None,
    };
    if let Some(s) = current {
        let n = s.as_str().unicode_len();
        let zoned = if n > 0 {
            let c = s.as_str().get_char(n - 1);
            c == 'Z' || c == 'z'
        } else {
            false
        };
        if !zoned {
            proof {
                reveal_strlit("Z");
            }
            let fixed = s.concat("Z");
            assert(fixed@ =~= s@.push('Z'));
            json_insert(payload, "timestamp".to_owned(), json_string(fixed));
        }
    }
}

/// Reads the text as JSON and repairs the date-time of the payload.
pub fn normalize_json_input_datetimes(input: &str) -> (r: Result<serde_json::Value, ProtocolError>)
    ensures
        match json_parse(input@) {
            Some(j) => r matches Ok(v) && json_view(v) == fixed_datetimes(j),
            None => r == Err::<serde_json::Value, ProtocolError>(ProtocolError::MalformedJson),
        },
{
    let value = match parse_json(input) {
        Some(v) => v,
        None => return Err(ProtocolError::MalformedJson),
    };
    match json_into_array(value) {
        Ok(items) => {
            let mut items = items;
            if items.len() > 3 {
                let ghost before = views(items@);
                let mut payload = items.remove(3);
                fix_payload_timestamps(&mut payload);
                items.insert(3, payload);
                assert(views(items@) =~= before.update(3, fixed_payload(before[3])));
            }
            Ok(json_array(items))
        },
        Err(value) => Ok(value),
    }
}

/// Reads the text as JSON and applies both repairs.
pub fn normalize_json_input(input: &str) -> (r: Result<serde_json::Value, ProtocolError>)
    ensures
        match json_parse(input@) {
            Some(j) => r matches Ok(v) && json_view(v) == normalized(j),
            None => r == Err::<serde_json::Value, ProtocolError>(ProtocolError::MalformedJson),
        },
{
    let value = normalize_json_input_datetimes(input)?;
    match json_into_array(value) {
        Ok(items) => {
            let mut items = items;
            if items.len() > 0 {
                let ghost before = views(items@);
                assert(before[0] == json_view(items@[0]));
                if let Some(t) = json_number_text(&items[0]) {
                    items.set(0, json_string(t));
                    assert(views(items@) =~= before.update(0, JsonV::Str(before[0]->Number_0)));
                }
            }
            Ok(json_array(items))
        },
        Err(value) => Ok(value),
    }
}

} // verus!
