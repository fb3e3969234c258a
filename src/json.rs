//! JSON documents as the protocol logic sees them.
//!
//! Documents are `serde_json::Value`s; the logic reads and builds them only
//! through the functions below, whose contracts speak of `json_view`, the
//! document as a mathematical value.
use vstd::prelude::*;

verus! {

/// A JSON document as a mathematical value. A number is held as its decimal
/// text; an object maps each key to its value (keys are unique).
pub enum JsonV {
    Null,
    Bool(bool),
    Number(Seq<char>),
    Str(Seq<char>),
    Array(Seq<JsonV>),
    Object(Map<Seq<char>, JsonV>),
}

#[verifier::external_type_specification]
#[verifier::external_body]
pub struct ExValue(serde_json::Value);

/// What a `serde_json::Value` holds.
pub uninterp spec fn json_view(v: serde_json::Value) -> JsonV;

/// The document that `serde_json` reads from a text, if the text is JSON.
pub uninterp spec fn json_parse(text: Seq<char>) -> Option<JsonV>;

/// The compact text that `serde_json` writes for a document.
pub uninterp spec fn json_text(v: JsonV) -> Seq<char>;

/// The documents of a sequence of values, in order.
pub open spec fn views(items: Seq<serde_json::Value>) -> Seq<JsonV> {
    items.map_values(|x: serde_json::Value| json_view(x))
}

/// Relies on `serde_json::from_str::<Value>`: it reads a JSON text into a
/// document; it fails on text that is not JSON or nests deeper than its
/// limit. Either way the outcome depends on the text alone.
#[verifier::external_body]
pub fn parse_json(text: &str) -> (r: Option<serde_json::Value>)
    ensures
        r is Some <==> json_parse(text@) is Some,
        r matches Some(v) ==> json_view(v) == json_parse(text@)->0,
{
    serde_json::from_str::<serde_json::Value>(text).ok()
}

/// Relies on `Display for serde_json::Value`: the compact JSON text of the
/// document.
#[verifier::external_body]
pub fn render_json(v: &serde_json::Value) -> (r: String)
    ensures
        r@ == json_text(json_view(*v)),
{
    v.to_string()
}

/// Relies on `serde_json::Value::as_array`: the items of an array.
#[verifier::external_body]
pub fn json_as_array(v: &serde_json::Value) -> (r: Option<&Vec<serde_json::Value>>)
    ensures
        r is Some <==> json_view(*v) is Array,
        r matches Some(items) ==> json_view(*v) == JsonV::Array(views(items@)),
{
    v.as_array()
}

/// Relies on `serde_json::Value::as_str`: the text of a string.
#[verifier::external_body]
pub fn json_as_str(v: &serde_json::Value) -> (r: Option<&str>)
    ensures
        r is Some <==> json_view(*v) is Str,
        r matches Some(s) ==> json_view(*v) == JsonV::Str(s@),
{
    v.as_str()
}

/// Relies on `serde_json::Value::is_object`.
#[verifier::external_body]
pub fn json_is_object(v: &serde_json::Value) -> (r: bool)
    ensures
        r == (json_view(*v) is Object),
{
    v.is_object()
}

/// Relies on `serde_json::Value::is_null`.
#[verifier::external_body]
pub fn json_is_null(v: &serde_json::Value) -> (r: bool)
    ensures
        r == (json_view(*v) is Null),
{
    v.is_null()
}

/// Relies on `serde_json::Value::as_number` and `Display for Number`: the
/// decimal text of a number.
#[verifier::external_body]
pub fn json_number_text(v: &serde_json::Value) -> (r: Option<String>)
    ensures
        r is Some <==> json_view(*v) is Number,
        r matches Some(t) ==> json_view(*v) == JsonV::Number(t@),
{
    match v.as_number() {
        Some(n) => Some(n.to_string()),
        None => None,
    }
}

/// Relies on `serde_json::Value::get` with a `&str` key: the value of a key
/// of an object; nothing for any other document.
#[verifier::external_body]
pub fn json_get<'a>(v: &'a serde_json::Value, key: &str) -> (r: Option<&'a serde_json::Value>)
    ensures
        r == None::<&serde_json::Value> <==> obj_field(json_view(*v), key@) is None,
        r matches Some(x) ==> obj_field(json_view(*v), key@) == Some(json_view(*x)),
{
    v.get(key)
}

/// Moves the items out of an array; any other document comes back as it was.
#[verifier::external_body]
pub fn json_into_array(v: serde_json::Value) -> (r: Result<Vec<serde_json::Value>, serde_json::Value>)
    ensures
        r is Ok <==> json_view(v) is Array,
        r matches Ok(items) ==> json_view(v) == JsonV::Array(views(items@)),
        r matches Err(w) ==> json_view(w) == json_view(v),
{
    match v {
        serde_json::Value::Array(items) => Ok(items),
        other => Err(other),
    }
}

/// The JSON `null`.
#[verifier::external_body]
pub fn json_null() -> (r: serde_json::Value)
    ensures
        json_view(r) == JsonV::Null,
{
    serde_json::Value::Null
}

/// A JSON string.
#[verifier::external_body]
pub fn json_string(s: String) -> (r: serde_json::Value)
    ensures
        json_view(r) == JsonV::Str(s@),
{
    serde_json::Value::String(s)
}

/// A JSON array of the given items, in order.
#[verifier::external_body]
pub fn json_array(items: Vec<serde_json::Value>) -> (r: serde_json::Value)
    ensures
        json_view(r) == JsonV::Array(views(items@)),
{
    serde_json::Value::Array(items)
}

/// Relies on `From<u32> for serde_json::Value`: the number written in
/// decimal digits.
#[verifier::external_body]
pub fn json_u32(x: u32) -> (r: serde_json::Value)
    ensures
        json_view(r) == JsonV::Number(decimal_text(x as nat)),
{
    serde_json::Value::from(x)
}

/// Relies on `serde_json::Map::new`: an object with no keys.
#[verifier::external_body]
pub fn json_object() -> (r: serde_json::Value)
    ensures
        json_view(r) == JsonV::Object(Map::empty()),
{
    serde_json::Value::Object(serde_json::Map::new())
}

/// Relies on `serde_json::Map::insert`: sets a key of an object, replacing
/// any earlier value of that key.
#[verifier::external_body]
pub fn json_insert(obj: &mut serde_json::Value, key: String, item: serde_json::Value)
    requires
        json_view(*old(obj)) is Object,
    ensures
        json_view(*final(obj)) == JsonV::Object(
            json_view(*old(obj))->Object_0.insert(key@, json_view(item)),
        ),
{
    if let Some(map) = obj.as_object_mut() {
        map.insert(key, item);
    }
}

/// `Clone for serde_json::Value` copies the document.
pub assume_specification[ <serde_json::Value as Clone>::clone ](v: &serde_json::Value) -> (r: serde_json::Value)
    ensures
        json_view(r) == json_view(*v),
;

/// The value of a key of an object; nothing for any other document.
pub open spec fn obj_field(j: JsonV, key: Seq<char>) -> Option<JsonV> {
    match j {
        JsonV::Object(m) => if m.contains_key(key) {
            Some(m[key])
        } else {
            None
        },
        _ => None,
    }
}

pub open spec fn is_digit(c: char) -> bool {
    '0' <= c <= '9'
}

pub open spec fn all_digits(s: Seq<char>) -> bool {
    forall|i: int| 0 <= i < s.len() ==> is_digit(#[trigger] s[i])
}

/// The value of a text of decimal digits.
pub open spec fn digits_value(s: Seq<char>) -> nat
    decreases s.len(),
{
    if s.len() == 0 {
        0
    } else {
        digits_value(s.drop_last()) * 10 + (s.last() as nat - '0' as nat) as nat
    }
}

pub open spec fn digit_char(d: nat) -> char {
    if d == 0 { '0' }
    else if d == 1 { '1' }
    else if d == 2 { '2' }
    else if d == 3 { '3' }
    else if d == 4 { '4' }
    else if d == 5 { '5' }
    else if d == 6 { '6' }
    else if d == 7 { '7' }
    else if d == 8 { '8' }
    else { '9' }
}

/// A natural number written in decimal, without leading zeros.
pub open spec fn decimal_text(n: nat) -> Seq<char>
    decreases n,
{
    if n < 10 {
        seq![digit_char(n)]
    } else {
        decimal_text(n / 10).push(digit_char(n % 10))
    }
}

/// The `u32` that a text of decimal digits names, if it is one.
pub open spec fn u32_of_text(t: Seq<char>) -> Option<u32> {
    if t.len() > 0 && all_digits(t) && digits_value(t) <= u32::MAX {
        Some(digits_value(t) as u32)
    } else {
        None
    }
}

proof fn lemma_digit_char(d: nat)
    requires
        d < 10,
    ensures
        is_digit(digit_char(d)),
        digit_char(d) as nat - '0' as nat == d,
{
}

pub proof fn lemma_decimal_text(n: nat)
    ensures
        decimal_text(n).len() > 0,
        all_digits(decimal_text(n)),
        digits_value(decimal_text(n)) == n,
    decreases n,
{
    if n < 10 {
        lemma_digit_char(n);
        let t = decimal_text(n);
        assert(t.drop_last() =~= Seq::<char>::empty());
        assert(t.last() == digit_char(n));
        assert(digits_value(t) == digits_value(t.drop_last()) * 10 + n);
    } else {
        lemma_decimal_text(n / 10);
        lemma_digit_char(n % 10);
        let t = decimal_text(n);
        assert(t.drop_last() =~= decimal_text(n / 10));
        assert(t.last() == digit_char(n % 10));
        assert(digits_value(t) == digits_value(decimal_text(n / 10)) * 10 + (n % 10));
        assert(n == (n / 10) * 10 + n % 10) by (nonlinear_arith);
    }
}

pub proof fn lemma_u32_of_decimal(x: u32)
    ensures
        u32_of_text(decimal_text(x as nat)) == Some(x),
{
    lemma_decimal_text(x as nat);
}

proof fn lemma_digits_prefix_grows(s: Seq<char>, i: int, j: int)
    requires
        all_digits(s),
        0 <= i <= j <= s.len(),
    ensures
        digits_value(s.take(i)) <= digits_value(s.take(j)),
    decreases j - i,
{
    if i < j {
        lemma_digits_prefix_grows(s, i, j - 1);
        assert(s.take(j).drop_last() =~= s.take(j - 1));
    }
}

/// Reads a `u32` written in decimal digits.
pub fn parse_u32(t: &str) -> (r: Option<u32>)
    ensures
        r == u32_of_text(t@),
{
    let n = t.unicode_len();
    if n == 0 {
        return None;
    }
    let mut acc: u64 = 0;
    let mut i: usize = 0;
    while i < n
        invariant
            n == t@.len(),
            i <= n,
            all_digits(t@.take(i as int)),
            acc == digits_value(t@.take(i as int)),
            acc <= u32::MAX,
        decreases n - i,
    {
        let c = t.get_char(i);
        if !('0' <= c && c <= '9') {
            assert(!all_digits(t@));
            return None;
        }
        assert(t@.take(i + 1).drop_last() =~= t@.take(i as int));
        acc = acc * 10 + (c as u64 - '0' as u64);
        assert(all_digits(t@.take(i + 1)));
        if acc > u32::MAX as u64 {
            proof {
                if all_digits(t@) {
                    lemma_digits_prefix_grows(t@, i + 1, n as int);
                    assert(t@.take(n as int) =~= t@);
                }
            }
            return None;
        }
        i += 1;
    }
    assert(t@.take(n as int) =~= t@);
    Some(acc as u32)
}

} // verus!
