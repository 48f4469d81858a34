use vstd::prelude::*;

verus! {

/// A JSON number as written: `(-1)^(!positive) · mantissa · 10^exponent`.
#[derive(Clone, Copy, Debug, PartialEq, Eq, Structural)]
pub struct JsonNumber {
    pub positive: bool,
    pub mantissa: u64,
    pub exponent: i16,
}

/// A JSON document. Objects keep their entries in document order.
#[derive(Debug)]
pub enum JsonNode {
    Null,
    Bool(bool),
    Number(JsonNumber),
    Str(String),
    Array(Vec<JsonNode>),
    Object(Vec<(String, JsonNode)>),
}

/// The decimal places that numbers are read with: a number is held as its value times 10^20.
pub const FRACTION_DIGITS: u32 = 20;

/// One in units of 10^-20.
pub const UNIT: i128 = 100_000_000_000_000_000_000;

/// The largest magnitude, in units, of a number that this crate computes with (10^15).
pub const MAX_UNITS: i128 = 100_000_000_000_000_000_000_000_000_000_000_000;

/// Ten to the power `n`.
pub open spec fn pow10(n: nat) -> nat
    decreases n,
{
    if n == 0 {
        1
    } else {
        10 * pow10((n - 1) as nat)
    }
}

/// The number's value times 10^20, truncated towards zero and saturating at ±10^35: decimal
/// places past the twentieth are dropped, and magnitudes past 10^15 count as 10^15.
pub open spec fn units_of(n: JsonNumber) -> int {
    let e = n.exponent + FRACTION_DIGITS;
    let magnitude: int = if e >= 0 {
        (n.mantissa as int) * (pow10(e as nat) as int)
    } else {
        (n.mantissa as int) / (pow10((-e) as nat) as int)
    };
    let capped = if magnitude > MAX_UNITS { MAX_UNITS as int } else { magnitude };
    if n.positive { capped } else { -capped }
}

/// The entry value of the first entry named `key`, when `node` is an object that has one.
pub open spec fn field(node: JsonNode, key: Seq<char>) -> Option<JsonNode> {
    match node {
        JsonNode::Object(entries) => first_entry(entries@, key),
        _ => None,
    }
}

/// The value of the first entry named `key`.
pub open spec fn first_entry(entries: Seq<(String, JsonNode)>, key: Seq<char>) -> Option<JsonNode> {
    entry_from(entries, key, 0)
}

/// The value of the first entry named `key` at position `i` or later.
pub open spec fn entry_from(entries: Seq<(String, JsonNode)>, key: Seq<char>, i: int) -> Option<JsonNode>
    decreases entries.len() - i,
{
    if i < 0 || i >= entries.len() {
        None
    } else if entries[i].0@ == key {
        Some(entries[i].1)
    } else {
        entry_from(entries, key, i + 1)
    }
}

/// The string that `node` holds, if it is a string.
pub open spec fn str_of(node: Option<JsonNode>) -> Option<Seq<char>> {
    match node {
        Some(JsonNode::Str(s)) => Some(s@),
        _ => None,
    }
}

/// The number that `node` holds, in units of 10^-20 (see `units_of`), if it is a number.
pub open spec fn num_of(node: Option<JsonNode>) -> Option<int> {
    match node {
        Some(JsonNode::Number(n)) => Some(units_of(n)),
        _ => None,
    }
}

/// The integer that `node` holds, if it is a number with no fractional part (as `units_of`
/// reads it).
pub open spec fn int_of(node: Option<JsonNode>) -> Option<int> {
    match num_of(node) {
        Some(u) => if u % (UNIT as int) == 0 {
            Some(u / (UNIT as int))
        } else {
            None
        },
        None => None,
    }
}

proof fn lemma_pow10_positive(n: nat)
    ensures
        pow10(n) >= 1,
    decreases n,
{
    if n > 0 {
        lemma_pow10_positive((n - 1) as nat);
    }
}

proof fn lemma_pow10_grows(a: nat, b: nat)
    requires
        a <= b,
    ensures
        pow10(a) <= pow10(b),
        a < b ==> 10 * pow10(a) <= pow10(b),
    decreases b,
{
    if a < b {
        lemma_pow10_grows(a, (b - 1) as nat);
        lemma_pow10_positive((b - 1) as nat);
    }
}

proof fn lemma_pow10_split(a: nat, b: nat)
    ensures
        pow10(a + b) == pow10(a) * pow10(b),
    decreases b,
{
    if b > 0 {
        lemma_pow10_split(a, (b - 1) as nat);
        assert(pow10(a + b) == 10 * pow10((a + b - 1) as nat));
        assert(pow10(b) == 10 * pow10((b - 1) as nat));
        assert(10 * (pow10(a) * pow10((b - 1) as nat)) == pow10(a) * (10 * pow10((b - 1) as nat)))
            by (nonlinear_arith);
    } else {
        assert(pow10(b) == 1);
        assert(pow10(a) * 1 == pow10(a));
    }
}

proof fn lemma_pow10_values()
    ensures
        pow10(0) == 1,
        pow10(1) == 10,
        pow10(20) == 100_000_000_000_000_000_000,
        pow10(34) == 10_000_000_000_000_000_000_000_000_000_000_000,
        pow10(35) == MAX_UNITS,
        pow10(38) == 100_000_000_000_000_000_000_000_000_000_000_000_000,
{
    reveal_with_fuel(pow10, 40);
}

/// Reads a number in units of 10^-20; see `units_of`.
pub fn number_units(n: &JsonNumber) -> (r: i128)
    ensures
        r == units_of(*n),
        -MAX_UNITS <= r <= MAX_UNITS,
{
    let e: i32 = n.exponent as i32 + FRACTION_DIGITS as i32;
    let m: u128 = n.mantissa as u128;
    let ghost gm = n.mantissa as int;
    proof {
        lemma_pow10_values();
    }
    let magnitude: u128;
    if e >= 0 {
        let mut acc: u128 = m;
        let mut i: i32 = 0;
        assert(gm * pow10(0) == gm);
        while i < e
            invariant
                0 <= i <= e,
                e == n.exponent + FRACTION_DIGITS,
                gm == n.mantissa,
                acc == gm * pow10(i as nat),
                acc <= 0x1_0000_0000_0000_0000 || acc <= MAX_UNITS,
            decreases e - i,
        {
            if acc > 10_000_000_000_000_000_000_000_000_000_000_000 {
                proof {
                    lemma_pow10_values();
                    lemma_pow10_split(i as nat, (e - i) as nat);
                    lemma_pow10_grows(1, (e - i) as nat);
                    assert(gm * pow10(e as nat) == acc * pow10((e - i) as nat)) by (nonlinear_arith)
                        requires acc == gm * pow10(i as nat), pow10(e as nat) == pow10(i as nat) * pow10((e - i) as nat);
                    assert(acc * pow10((e - i) as nat) >= acc * 10) by (nonlinear_arith)
                        requires pow10((e - i) as nat) >= 10, acc >= 0;
                }
                return if n.positive { MAX_UNITS } else { -MAX_UNITS };
            }
            proof {
                assert(gm * pow10((i + 1) as nat) == (gm * pow10(i as nat)) * 10) by (nonlinear_arith)
                    requires pow10((i + 1) as nat) == 10 * pow10(i as nat);
            }
            acc = acc * 10;
            i = i + 1;
        }
        magnitude = acc;
    } else {
        let d: i32 = -e;
        if d > 38 {
            proof {
                lemma_pow10_grows(20, d as nat);
                vstd::arithmetic::div_mod::lemma_basic_div_specific_divisor(pow10(d as nat) as int);
                assert(gm / (pow10(d as nat) as int) == 0);
            }
            magnitude = 0;
        } else {
            let mut p: u128 = 1;
            let mut i: i32 = 0;
            while i < d
                invariant
                    0 <= i <= d <= 38,
                    p == pow10(i as nat),
                decreases d - i,
            {
                proof {
                    lemma_pow10_values();
                    lemma_pow10_grows((i + 1) as nat, 38);
                    assert(pow10((i + 1) as nat) == 10 * pow10(i as nat));
                }
                p = p * 10;
                i = i + 1;
            }
            proof {
                lemma_pow10_positive(d as nat);
            }
            magnitude = m / p;
        }
    }
    let capped: i128 = if magnitude > MAX_UNITS as u128 { MAX_UNITS } else { magnitude as i128 };
    if n.positive {
        capped
    } else {
        -capped
    }
}

/// The value of the first entry named `key`, when `node` is an object that has one.
pub fn get_field<'a>(node: &'a JsonNode, key: &str) -> (r: Option<&'a JsonNode>)
    ensures
        r is None <==> field(*node, key@) is None,
        r matches Some(v) ==> field(*node, key@) == Some(*v),
{
    match node {
        JsonNode::Object(entries) => {
            let wanted = key.to_owned();
            let mut i: usize = 0;
            while i < entries.len()
                invariant
                    i <= entries@.len(),
                    wanted@ == key@,
                    field(*node, key@) == entry_from(entries@, key@, i as int),
                decreases entries@.len() - i,
            {
                if entries[i].0 == wanted {
                    return Some(&entries[i].1);
                }
                i = i + 1;
            }
            None
        },
        _ => None,
    }
}

/// The string that the entry named `key` holds.
pub fn get_str<'a>(node: &'a JsonNode, key: &str) -> (r: Option<&'a String>)
    ensures
        r is None <==> str_of(field(*node, key@)) is None,
        r matches Some(s) ==> str_of(field(*node, key@)) == Some(s@),
{
    match get_field(node, key) {
        Some(JsonNode::Str(s)) => Some(s),
        _ => None,
    }
}

/// The number, in units of 10^-20, that the entry named `key` holds.
pub fn get_num(node: &JsonNode, key: &str) -> (r: Option<i128>)
    ensures
        r is None <==> num_of(field(*node, key@)) is None,
        r matches Some(u) ==> num_of(field(*node, key@)) == Some(u as int) && -MAX_UNITS <= u <= MAX_UNITS,
{
    match get_field(node, key) {
        Some(JsonNode::Number(n)) => Some(number_units(n)),
        _ => None,
    }
}

/// The number, in units of 10^-20, that `node` holds.
pub fn node_num(node: &JsonNode) -> (r: Option<i128>)
    ensures
        r is None <==> num_of(Some(*node)) is None,
        r matches Some(u) ==> num_of(Some(*node)) == Some(u as int) && -MAX_UNITS <= u <= MAX_UNITS,
{
    match node {
        JsonNode::Number(n) => Some(number_units(n)),
        _ => None,
    }
}

/// Whether an entry is missing or holds `null`.
pub open spec fn is_absent(node: Option<JsonNode>) -> bool {
    match node {
        None => true,
        Some(JsonNode::Null) => true,
        _ => false,
    }
}

/// Whether `node` is missing or `null`; see `is_absent`.
pub fn absent(node: Option<&JsonNode>) -> (r: bool)
    ensures
        r == is_absent(match node { Some(n) => Some(*n), None => None }),
{
    match node {
        None => true,
        Some(JsonNode::Null) => true,
        _ => false,
    }
}

/// The integer that `node` holds; see `int_of`.
pub fn node_int(node: &JsonNode) -> (r: Option<i128>)
    ensures
        r is None <==> int_of(Some(*node)) is None,
        r matches Some(v) ==> int_of(Some(*node)) == Some(v as int),
{
    match node {
        JsonNode::Number(n) => {
            let u = number_units(n);
            if u % UNIT == 0 {
                Some(u / UNIT)
            } else {
                None
            }
        },
        _ => None,
    }
}

/// A parsed document of the json crate, carried opaquely until it is copied into a `JsonNode`.
#[verifier::external_type_specification]
#[verifier::external_body]
pub struct ExJsonValue(json::JsonValue);

/// A number of the json crate, read through `as_parts`.
#[verifier::external_type_specification]
#[verifier::external_body]
pub struct ExJsonNumberValue(json::number::Number);

/// Relies on `json::JsonValue::is_null` to tell `null` apart; nothing is assumed of the result.
pub assume_specification[ json::JsonValue::is_null ](v: &json::JsonValue) -> bool;

/// Relies on `json::JsonValue::as_bool` to read a boolean; nothing is assumed of the result.
pub assume_specification[ json::JsonValue::as_bool ](v: &json::JsonValue) -> Option<bool>;

/// Relies on `json::JsonValue::as_str` to read a string; nothing is assumed of the result.
pub assume_specification<'a>[ json::JsonValue::as_str ](v: &'a json::JsonValue) -> Option<&'a str>;

/// Relies on `json::JsonValue::as_number` to read a number; nothing is assumed of the result.
pub assume_specification[ json::JsonValue::as_number ](v: &json::JsonValue) -> Option<json::number::Number>;

/// Relies on `json::number::Number::as_parts` for a number's sign, mantissa and exponent;
/// nothing is assumed of the result.
pub assume_specification[ json::number::Number::as_parts ](n: &json::number::Number) -> (bool, u64, i16);

/// Relies on `json::JsonValue::is_array` to tell arrays apart; nothing is assumed of the result.
pub assume_specification[ json::JsonValue::is_array ](v: &json::JsonValue) -> bool;

/// Relies on `json::JsonValue::is_object` to tell objects apart; nothing is assumed of the result.
pub assume_specification[ json::JsonValue::is_object ](v: &json::JsonValue) -> bool;

/// Relies on `json::JsonValue::len` for the number of members or entries; nothing is assumed
/// of the result.
pub assume_specification[ json::JsonValue::len ](v: &json::JsonValue) -> usize;

/// Relies on `json::JsonValue::members`: the member at position `i` of an array, if any.
#[verifier::external_body]
fn array_member(v: &json::JsonValue, i: usize) -> Option<&json::JsonValue> {
    v.members().nth(i)
}

/// Relies on `json::JsonValue::entries`: the entry at position `i` of an object, if any, with
/// its key copied.
#[verifier::external_body]
fn object_entry(v: &json::JsonValue, i: usize) -> Option<(String, &json::JsonValue)> {
    v.entries().nth(i).map(|(k, e)| (k.to_owned(), e))
}

/// Relies on `json::parse`: the document that `text` holds, if it is JSON.
#[verifier::external_body]
fn parse_document(text: &str) -> Option<json::JsonValue> {
    json::parse(text).ok()
}

/// How deeply arrays and objects may nest in a document that this crate reads.
pub const MAX_NESTING: usize = 512;

/// Copies a parsed document into a `JsonNode`; `None` where arrays and objects nest more
/// than `depth` deep.
fn node_of(v: &json::JsonValue, depth: usize) -> (r: Option<JsonNode>)
    decreases depth,
{
    if v.is_null() {
        return Some(JsonNode::Null);
    }
    if let Some(b) = v.as_bool() {
        return Some(JsonNode::Bool(b));
    }
    if let Some(s) = v.as_str() {
        return Some(JsonNode::Str(s.to_owned()));
    }
    if let Some(n) = v.as_number() {
        let (positive, mantissa, exponent) = n.as_parts();
        return Some(JsonNode::Number(JsonNumber { positive, mantissa, exponent }));
    }
    if depth == 0 {
        return None;
    }
    let n = v.len();
    if v.is_array() {
        let mut items: Vec<JsonNode> = Vec::new();
        let mut i: usize = 0;
        while i < n
            invariant
                depth > 0,
            decreases n - i,
        {
            match array_member(v, i) {
                Some(m) => match node_of(m, depth - 1) {
                    Some(node) => items.push(node),
                    None => return None,
                },
                None => return None,
            }
            i = i + 1;
        }
        return Some(JsonNode::Array(items));
    }
    if v.is_object() {
        let mut entries: Vec<(String, JsonNode)> = Vec::new();
        let mut i: usize = 0;
        while i < n
            invariant
                depth > 0,
            decreases n - i,
        {
            match object_entry(v, i) {
                Some((k, m)) => match node_of(m, depth - 1) {
                    Some(node) => entries.push((k, node)),
                    None => return None,
                },
                None => return None,
            }
            i = i + 1;
        }
        return Some(JsonNode::Object(entries));
    }
    None
}

/// Parses a JSON document; `None` where `text` is not JSON or nests deeper than
/// `MAX_NESTING`.
pub fn parse_json(text: &str) -> (r: Option<JsonNode>) {
    match parse_document(text) {
        Some(v) => node_of(&v, MAX_NESTING),
        None => None,
    }
}

} // verus!
