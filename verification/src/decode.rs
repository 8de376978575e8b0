//! The snapshot decoder: from one response body to a typed snapshot.
//!
//! The decoder owns every decision: the rejection of blank bodies, which
//! fields the schema requires, which may be absent or null, the wire-name
//! mapping, and the all-or-nothing rule that no partial snapshot ever
//! leaves it. Only two steps are handed to outside code, behind trusted
//! declarations at the top of this module: parsing the body into a
//! document tree, and trimming whitespace for the blank test. The schema
//! itself is stated as spec functions over the document's mathematical
//! value, and [`decode`] is proved to return exactly what they describe.

use vstd::prelude::*;
use vstd::string::StringExecFns;
use vstd::string::StringSliceAdditionalSpecFns;

use crate::DecodeError;
use crate::json::JsonData;
use crate::json::JsonNum;
use crate::json::JsonValue;
use crate::json::spec_get;
use crate::raw_printer::FlagsModel;
use crate::raw_printer::PrinterFlags;
use crate::raw_printer::PrinterSd;
use crate::raw_printer::PrinterState;
use crate::raw_printer::PrinterStorage;
use crate::raw_printer::PrinterStorageInfo;
use crate::raw_printer::PrinterTelemetry;
use crate::raw_printer::PrinterTemperature;
use crate::raw_printer::RawPrinter;
use crate::raw_printer::SnapshotModel;
use crate::raw_printer::StateModel;
use crate::raw_printer::TelemetryModel;
use crate::raw_printer::Temp;

verus! {

/// Whether the bytes alone parse as one well-formed JSON document.
pub uninterp spec fn json_parses(bytes: Seq<u8>) -> bool;

/// The document the bytes parse to; meaningful only where [`json_parses`]
/// holds of the same bytes.
pub uninterp spec fn doc_of(bytes: Seq<u8>) -> JsonData;

#[verifier::external_type_specification]
#[verifier::external_body]
pub struct ExJsonValue(serde_json::Value);

#[verifier::external_type_specification]
#[verifier::external_body]
pub struct ExJsonError(serde_json::Error);

/// Relies on serde_json::from_slice::<Value>: parses the bytes as one
/// JSON document — success and the parsed document depend on the bytes
/// alone. The tree is handed over as the library's own [`JsonValue`].
#[verifier::external_body]
fn parse_json(bytes: &[u8]) -> (r: Result<JsonValue, serde_json::Error>)
    ensures
        r is Ok <==> json_parses(bytes@),
        r matches Ok(t) ==> t.model() == doc_of(bytes@),
{
    serde_json::from_slice::<serde_json::Value>(bytes).map(to_tree)
}

/// Relies on serde_json::Value's six variants: each node is moved over,
/// one arm per variant. A number node is taken as the bits of its
/// double-precision value and, where it is one, the exact unsigned
/// integer; with this crate's default features every number has a
/// double-precision value, so the fallback arm is never taken.
#[verifier::external_body]
fn to_tree(v: serde_json::Value) -> JsonValue {
    match v {
        serde_json::Value::Null => JsonValue::Null,
        serde_json::Value::Bool(b) => JsonValue::Bool(b),
        serde_json::Value::Number(n) => JsonValue::Num(JsonNum {
            bits: n.as_f64().map(|f| f.to_bits()).unwrap_or(0),
            uint: n.as_u64(),
        }),
        serde_json::Value::String(s) => JsonValue::Text(s),
        serde_json::Value::Array(a) => JsonValue::Array(a.into_iter().map(to_tree).collect()),
        serde_json::Value::Object(o) => JsonValue::Object(
            o.into_iter().map(|(k, w)| (k, to_tree(w))).collect(),
        ),
    }
}

/// Relies on the Display impl of serde_json::Error for a readable message.
#[verifier::external_body]
fn json_error_detail(e: &serde_json::Error) -> (r: String)
{
    e.to_string()
}

/// A character with the Unicode White_Space property.
pub open spec fn is_ws_char(c: char) -> bool {
    ||| c == '\u{0009}'
    ||| c == '\u{000A}'
    ||| c == '\u{000B}'
    ||| c == '\u{000C}'
    ||| c == '\u{000D}'
    ||| c == '\u{0020}'
    ||| c == '\u{0085}'
    ||| c == '\u{00A0}'
    ||| c == '\u{1680}'
    ||| (0x2000 <= c as u32 && c as u32 <= 0x200A)
    ||| c == '\u{2028}'
    ||| c == '\u{2029}'
    ||| c == '\u{202F}'
    ||| c == '\u{205F}'
    ||| c == '\u{3000}'
}

/// A body is blank when every character is whitespace — in particular
/// when it is empty.
pub open spec fn blank(text: Seq<char>) -> bool {
    forall|i: int| 0 <= i < text.len() ==> is_ws_char(text[i])
}

/// Relies on str::trim: strips the characters with the Unicode
/// White_Space property from both ends, so its result is empty exactly
/// when every character of the input has that property.
#[verifier::external_body]
fn trim_ends(body: &str) -> (r: &str)
    ensures
        (r@.len() == 0) == blank(body@),
{
    body.trim()
}

fn is_blank(body: &str) -> (r: bool)
    ensures
        r == blank(body@),
{
    trim_ends(body).is_empty()
}

/// A field that was looked up but that the schema lets the wire omit:
/// either it was not there, it was an explicit null, it carried a usable
/// value, or it was there with a value of the wrong kind.
pub enum OptionalField<T> {
    Missing,
    Null,
    Present(T),
    Mistyped,
}

/// A malformation report naming the offending field.
fn malformed(key: &str) -> (r: DecodeError)
    ensures
        r matches DecodeError::Malformed(_),
{
    DecodeError::Malformed(String::from_str("missing or mistyped field: ").concat(key))
}

/// The rule for a required field: a looked-up value is taken as it is; a
/// missing or mistyped one fails the whole decode.
pub fn require_field<T>(f: Option<T>, key: &str) -> (r: Result<T, DecodeError>)
    ensures
        match f {
            Some(v) => r matches Ok(w) && w == v,
            None => r matches Err(e) && e matches DecodeError::Malformed(_),
        },
{
    match f {
        Some(v) => Ok(v),
        None => Err(malformed(key)),
    }
}

/// The rule for an optional field: absent and null both decode to "no
/// value", a usable value is taken as it is, and only a value of the
/// wrong kind fails the whole decode.
pub fn optional_field<T>(f: OptionalField<T>, key: &str) -> (r: Result<Option<T>, DecodeError>)
    ensures
        match f {
            OptionalField::Missing => r matches Ok(v) && v is None,
            OptionalField::Null => r matches Ok(v) && v is None,
            OptionalField::Present(x) => r matches Ok(v) && v == Some(x),
            OptionalField::Mistyped => r matches Err(e) && e matches DecodeError::Malformed(_),
        },
{
    match f {
        OptionalField::Missing => Ok(None),
        OptionalField::Null => Ok(None),
        OptionalField::Present(x) => Ok(Some(x)),
        OptionalField::Mistyped => Err(malformed(key)),
    }
}

/// The boolean under this key of an object node.
pub open spec fn spec_bool_at(doc: JsonData, key: Seq<u8>) -> Option<bool> {
    match spec_get(doc, key) {
        Some(JsonData::Bool(b)) => Some(b),
        _ => None,
    }
}

/// The number under this key, as double-precision bits.
pub open spec fn spec_num_at(doc: JsonData, key: Seq<u8>) -> Option<u64> {
    match spec_get(doc, key) {
        Some(JsonData::Num(n)) => Some(n.bits),
        _ => None,
    }
}

/// The exact unsigned integer under this key.
pub open spec fn spec_uint_at(doc: JsonData, key: Seq<u8>) -> Option<u64> {
    match spec_get(doc, key) {
        Some(JsonData::Num(n)) => n.uint,
        _ => None,
    }
}

/// The text under this key.
pub open spec fn spec_text_at(doc: JsonData, key: Seq<u8>) -> Option<Seq<char>> {
    match spec_get(doc, key) {
        Some(JsonData::Text(t)) => Some(t),
        _ => None,
    }
}

/// The shape of an optional number under this key.
pub open spec fn spec_opt_num_at(doc: JsonData, key: Seq<u8>) -> OptionalField<u64> {
    match spec_get(doc, key) {
        None => OptionalField::Missing,
        Some(JsonData::Null) => OptionalField::Null,
        Some(JsonData::Num(n)) => OptionalField::Present(n.bits),
        Some(_) => OptionalField::Mistyped,
    }
}

/// The shape of an optional storage slot under this key: a node that,
/// when present and not null, must carry both space figures as unsigned
/// integers.
pub open spec fn spec_opt_storage_at(doc: JsonData, key: Seq<u8>) -> OptionalField<
    PrinterStorageInfo,
> {
    match spec_get(doc, key) {
        None => OptionalField::Missing,
        Some(JsonData::Null) => OptionalField::Null,
        Some(slot) => match (
            spec_uint_at(slot, "free_space".spec_bytes()),
            spec_uint_at(slot, "total_space".spec_bytes()),
        ) {
            (Some(free_space), Some(total_space)) => OptionalField::Present(
                PrinterStorageInfo { free_space, total_space },
            ),
            _ => OptionalField::Mistyped,
        },
    }
}

/// What an optional field decodes to: absent and null become "no value",
/// a wrong kind fails.
pub open spec fn spec_opt_value<T>(f: OptionalField<T>) -> Option<Option<T>> {
    match f {
        OptionalField::Missing => Some(None),
        OptionalField::Null => Some(None),
        OptionalField::Present(x) => Some(Some(x)),
        OptionalField::Mistyped => None,
    }
}

/// One temperature pair under `key`: an object with the measured and the
/// requested value.
pub open spec fn spec_temp(parent: JsonData, key: Seq<u8>) -> Option<Temp> {
    match spec_get(parent, key) {
        Some(entry) => match (
            spec_num_at(entry, "actual".spec_bytes()),
            spec_num_at(entry, "target".spec_bytes()),
        ) {
            (Some(actual), Some(target)) => Some(Temp { actual, target }),
            _ => None,
        },
        None => None,
    }
}

/// The temperature section: the nozzle (wire name `tool0`) and the bed.
pub open spec fn spec_temperature(doc: JsonData) -> Option<PrinterTemperature> {
    match spec_get(doc, "temperature".spec_bytes()) {
        Some(section) => match (
            spec_temp(section, "tool0".spec_bytes()),
            spec_temp(section, "bed".spec_bytes()),
        ) {
            (Some(nozzle), Some(bed)) => Some(PrinterTemperature { nozzle, bed }),
            _ => None,
        },
        None => None,
    }
}

/// The SD section: whether a card is ready.
pub open spec fn spec_sd(doc: JsonData) -> Option<PrinterSd> {
    match spec_get(doc, "sd".spec_bytes()) {
        Some(section) => match spec_bool_at(section, "ready".spec_bytes()) {
            Some(ready) => Some(PrinterSd { ready }),
            None => None,
        },
        None => None,
    }
}

/// The flags of the state section; every flag is required, and the wire
/// names `sdReady` and `closedOrError` map to their snake-case fields.
pub open spec fn spec_flags(state: JsonData) -> Option<FlagsModel> {
    match spec_get(state, "flags".spec_bytes()) {
        Some(flags) => {
            if spec_bool_at(flags, "operational".spec_bytes()) is Some && spec_bool_at(
                flags,
                "paused".spec_bytes(),
            ) is Some && spec_bool_at(flags, "printing".spec_bytes()) is Some && spec_bool_at(
                flags,
                "cancelling".spec_bytes(),
            ) is Some && spec_bool_at(flags, "pausing".spec_bytes()) is Some && spec_bool_at(
                flags,
                "sdReady".spec_bytes(),
            ) is Some && spec_bool_at(flags, "error".spec_bytes()) is Some && spec_bool_at(
                flags,
                "ready".spec_bytes(),
            ) is Some && spec_bool_at(flags, "closedOrError".spec_bytes()) is Some && spec_bool_at(
                flags,
                "finished".spec_bytes(),
            ) is Some && spec_bool_at(flags, "prepared".spec_bytes()) is Some && spec_text_at(
                flags,
                "link_state".spec_bytes(),
            ) is Some {
                Some(
                    FlagsModel {
                        operational: spec_bool_at(flags, "operational".spec_bytes()).unwrap(),
                        paused: spec_bool_at(flags, "paused".spec_bytes()).unwrap(),
                        printing: spec_bool_at(flags, "printing".spec_bytes()).unwrap(),
                        cancelling: spec_bool_at(flags, "cancelling".spec_bytes()).unwrap(),
                        pausing: spec_bool_at(flags, "pausing".spec_bytes()).unwrap(),
                        sd_ready: spec_bool_at(flags, "sdReady".spec_bytes()).unwrap(),
                        error: spec_bool_at(flags, "error".spec_bytes()).unwrap(),
                        ready: spec_bool_at(flags, "ready".spec_bytes()).unwrap(),
                        closed_or_error: spec_bool_at(
                            flags,
                            "closedOrError".spec_bytes(),
                        ).unwrap(),
                        finished: spec_bool_at(flags, "finished".spec_bytes()).unwrap(),
                        prepared: spec_bool_at(flags, "prepared".spec_bytes()).unwrap(),
                        link_state: spec_text_at(flags, "link_state".spec_bytes()).unwrap(),
                    },
                )
            } else {
                None
            }
        },
        None => None,
    }
}

/// The state section: the status text and the flags.
pub open spec fn spec_state(doc: JsonData) -> Option<StateModel> {
    match spec_get(doc, "state".spec_bytes()) {
        Some(section) => match (spec_text_at(section, "text".spec_bytes()), spec_flags(section)) {
            (Some(text), Some(flags)) => Some(StateModel { text, flags }),
            _ => None,
        },
        None => None,
    }
}

/// The telemetry section; only the axis coordinates are optional.
pub open spec fn spec_telemetry(doc: JsonData) -> Option<TelemetryModel> {
    match spec_get(doc, "telemetry".spec_bytes()) {
        Some(s) => {
            if spec_num_at(s, "bed_temp".spec_bytes()) is Some && spec_num_at(
                s,
                "nozzle_temp".spec_bytes(),
            ) is Some && spec_text_at(s, "material".spec_bytes()) is Some && spec_num_at(
                s,
                "z_height".spec_bytes(),
            ) is Some && spec_num_at(s, "print_speed".spec_bytes()) is Some && spec_opt_value(
                spec_opt_num_at(s, "axis_x".spec_bytes()),
            ) is Some && spec_opt_value(spec_opt_num_at(s, "axis_y".spec_bytes())) is Some
                && spec_opt_value(spec_opt_num_at(s, "axis_z".spec_bytes())) is Some {
                Some(
                    TelemetryModel {
                        bed_temp: spec_num_at(s, "bed_temp".spec_bytes()).unwrap(),
                        nozzle_temp: spec_num_at(s, "nozzle_temp".spec_bytes()).unwrap(),
                        material: spec_text_at(s, "material".spec_bytes()).unwrap(),
                        z_height: spec_num_at(s, "z_height".spec_bytes()).unwrap(),
                        print_speed: spec_num_at(s, "print_speed".spec_bytes()).unwrap(),
                        axis_x: spec_opt_value(spec_opt_num_at(s, "axis_x".spec_bytes())).unwrap(),
                        axis_y: spec_opt_value(spec_opt_num_at(s, "axis_y".spec_bytes())).unwrap(),
                        axis_z: spec_opt_value(spec_opt_num_at(s, "axis_z".spec_bytes())).unwrap(),
                    },
                )
            } else {
                None
            }
        },
        None => None,
    }
}

/// The storage section; either slot may be absent or null.
pub open spec fn spec_storage(doc: JsonData) -> Option<PrinterStorage> {
    match spec_get(doc, "storage".spec_bytes()) {
        Some(section) => match (
            spec_opt_value(spec_opt_storage_at(section, "local".spec_bytes())),
            spec_opt_value(spec_opt_storage_at(section, "sd_card".spec_bytes())),
        ) {
            (Some(local), Some(sd_card)) => Some(PrinterStorage { local, sd_card }),
            _ => None,
        },
        None => None,
    }
}

/// What a whole document decodes to: the snapshot's mathematical value
/// when every required field is present and well typed, nothing
/// otherwise. Fields outside the schema are ignored.
pub open spec fn spec_snapshot(doc: JsonData) -> Option<SnapshotModel> {
    match (
        spec_temperature(doc),
        spec_sd(doc),
        spec_state(doc),
        spec_telemetry(doc),
        spec_storage(doc),
    ) {
        (Some(temperature), Some(sd), Some(state), Some(telemetry), Some(storage)) => Some(
            SnapshotModel { temperature, sd, state, telemetry, storage },
        ),
        _ => None,
    }
}

/// The boolean under this key.
fn bool_field(obj: &JsonValue, key: &str) -> (r: Option<bool>)
    ensures
        r == spec_bool_at(obj.model(), key.spec_bytes()),
{
    match obj.get_key(key) {
        Some(v) => v.as_bool(),
        None => None,
    }
}

/// The number under this key, as double-precision bits.
fn num_field(obj: &JsonValue, key: &str) -> (r: Option<u64>)
    ensures
        r == spec_num_at(obj.model(), key.spec_bytes()),
{
    match obj.get_key(key) {
        Some(v) => v.as_num_bits(),
        None => None,
    }
}

/// The exact unsigned integer under this key.
fn uint_field(obj: &JsonValue, key: &str) -> (r: Option<u64>)
    ensures
        r == spec_uint_at(obj.model(), key.spec_bytes()),
{
    match obj.get_key(key) {
        Some(v) => v.as_uint(),
        None => None,
    }
}

/// The text under this key.
fn str_field(obj: &JsonValue, key: &str) -> (r: Option<String>)
    ensures
        match spec_text_at(obj.model(), key.spec_bytes()) {
            Some(t) => r matches Some(s) && s@ == t,
            None => r is None,
        },
{
    match obj.get_key(key) {
        Some(v) => v.as_text(),
        None => None,
    }
}

/// The shape of an optional number under this key.
fn optional_num_field(obj: &JsonValue, key: &str) -> (r: OptionalField<u64>)
    ensures
        r == spec_opt_num_at(obj.model(), key.spec_bytes()),
{
    match obj.get_key(key) {
        None => OptionalField::Missing,
        Some(v) => {
            if v.is_null() {
                OptionalField::Null
            } else {
                match v.as_num_bits() {
                    Some(bits) => OptionalField::Present(bits),
                    None => OptionalField::Mistyped,
                }
            }
        },
    }
}

/// The shape of an optional storage slot under this key.
fn optional_storage_field(obj: &JsonValue, key: &str) -> (r: OptionalField<PrinterStorageInfo>)
    ensures
        r == spec_opt_storage_at(obj.model(), key.spec_bytes()),
{
    match obj.get_key(key) {
        None => OptionalField::Missing,
        Some(v) => {
            if v.is_null() {
                OptionalField::Null
            } else {
                match (uint_field(v, "free_space"), uint_field(v, "total_space")) {
                    (Some(free_space), Some(total_space)) => OptionalField::Present(
                        PrinterStorageInfo { free_space, total_space },
                    ),
                    _ => OptionalField::Mistyped,
                }
            }
        },
    }
}

/// One temperature pair: an object under `key` with the measured and the
/// requested value.
fn decode_temp(parent: &JsonValue, key: &str) -> (r: Result<Temp, DecodeError>)
    ensures
        match spec_temp(parent.model(), key.spec_bytes()) {
            Some(t) => r matches Ok(out) && out == t,
            None => r matches Err(e) && e matches DecodeError::Malformed(_),
        },
{
    let entry = require_field(parent.get_key(key), key)?;
    let actual = require_field(num_field(entry, "actual"), "actual")?;
    let target = require_field(num_field(entry, "target"), "target")?;
    Ok(Temp { actual, target })
}

/// The temperature section: the nozzle (wire name `tool0`) and the bed.
fn decode_temperature(root: &JsonValue) -> (r: Result<PrinterTemperature, DecodeError>)
    ensures
        match spec_temperature(root.model()) {
            Some(t) => r matches Ok(out) && out == t,
            None => r matches Err(e) && e matches DecodeError::Malformed(_),
        },
{
    let section = require_field(root.get_key("temperature"), "temperature")?;
    let nozzle = decode_temp(section, "tool0")?;
    let bed = decode_temp(section, "bed")?;
    Ok(PrinterTemperature { nozzle, bed })
}

/// The SD section: whether a card is ready.
fn decode_sd(root: &JsonValue) -> (r: Result<PrinterSd, DecodeError>)
    ensures
        match spec_sd(root.model()) {
            Some(t) => r matches Ok(out) && out == t,
            None => r matches Err(e) && e matches DecodeError::Malformed(_),
        },
{
    let section = require_field(root.get_key("sd"), "sd")?;
    let ready = require_field(bool_field(section, "ready"), "ready")?;
    Ok(PrinterSd { ready })
}

/// The flags of the state section.
fn decode_flags(state: &JsonValue) -> (r: Result<PrinterFlags, DecodeError>)
    ensures
        match spec_flags(state.model()) {
            Some(m) => r matches Ok(out) && out.model() == m,
            None => r matches Err(e) && e matches DecodeError::Malformed(_),
        },
{
    let flags = require_field(state.get_key("flags"), "flags")?;
    let operational = require_field(bool_field(flags, "operational"), "operational")?;
    let paused = require_field(bool_field(flags, "paused"), "paused")?;
    let printing = require_field(bool_field(flags, "printing"), "printing")?;
    let cancelling = require_field(bool_field(flags, "cancelling"), "cancelling")?;
    let pausing = require_field(bool_field(flags, "pausing"), "pausing")?;
    let sd_ready = require_field(bool_field(flags, "sdReady"), "sdReady")?;
    let error = require_field(bool_field(flags, "error"), "error")?;
    let ready = require_field(bool_field(flags, "ready"), "ready")?;
    let closed_or_error = require_field(bool_field(flags, "closedOrError"), "closedOrError")?;
    let finished = require_field(bool_field(flags, "finished"), "finished")?;
    let prepared = require_field(bool_field(flags, "prepared"), "prepared")?;
    let link_state = require_field(str_field(flags, "link_state"), "link_state")?;
    Ok(PrinterFlags {
        operational,
        paused,
        printing,
        cancelling,
        pausing,
        sd_ready,
        error,
        ready,
        closed_or_error,
        finished,
        prepared,
        link_state,
    })
}

/// The state section: the status text and the flags.
fn decode_state(root: &JsonValue) -> (r: Result<PrinterState, DecodeError>)
    ensures
        match spec_state(root.model()) {
            Some(m) => r matches Ok(out) && out.model() == m,
            None => r matches Err(e) && e matches DecodeError::Malformed(_),
        },
{
    let section = require_field(root.get_key("state"), "state")?;
    let text = require_field(str_field(section, "text"), "text")?;
    let flags = decode_flags(section)?;
    Ok(PrinterState { text, flags })
}

/// The telemetry section; only the axis coordinates are optional.
fn decode_telemetry(root: &JsonValue) -> (r: Result<PrinterTelemetry, DecodeError>)
    ensures
        match spec_telemetry(root.model()) {
            Some(m) => r matches Ok(out) && out.model() == m,
            None => r matches Err(e) && e matches DecodeError::Malformed(_),
        },
{
    let section = require_field(root.get_key("telemetry"), "telemetry")?;
    let bed_temp = require_field(num_field(section, "bed_temp"), "bed_temp")?;
    let nozzle_temp = require_field(num_field(section, "nozzle_temp"), "nozzle_temp")?;
    let material = require_field(str_field(section, "material"), "material")?;
    let z_height = require_field(num_field(section, "z_height"), "z_height")?;
    let print_speed = require_field(num_field(section, "print_speed"), "print_speed")?;
    let axis_x = optional_field(optional_num_field(section, "axis_x"), "axis_x")?;
    let axis_y = optional_field(optional_num_field(section, "axis_y"), "axis_y")?;
    let axis_z = optional_field(optional_num_field(section, "axis_z"), "axis_z")?;
    Ok(PrinterTelemetry {
        bed_temp,
        nozzle_temp,
        material,
        z_height,
        print_speed,
        axis_x,
        axis_y,
        axis_z,
    })
}

/// The storage section; either slot may be absent or null.
fn decode_storage(root: &JsonValue) -> (r: Result<PrinterStorage, DecodeError>)
    ensures
        match spec_storage(root.model()) {
            Some(t) => r matches Ok(out) && out == t,
            None => r matches Err(e) && e matches DecodeError::Malformed(_),
        },
{
    let section = require_field(root.get_key("storage"), "storage")?;
    let local = optional_field(optional_storage_field(section, "local"), "local")?;
    let sd_card = optional_field(optional_storage_field(section, "sd_card"), "sd_card")?;
    Ok(PrinterStorage { local, sd_card })
}

/// Assembles the snapshot from a parsed document; fails as a whole on
/// the first missing or mistyped required field.
fn extract_snapshot(root: &JsonValue) -> (r: Result<RawPrinter, DecodeError>)
    ensures
        match spec_snapshot(root.model()) {
            Some(m) => r matches Ok(snap) && snap.model() == m,
            None => r matches Err(e) && e matches DecodeError::Malformed(_),
        },
{
    let temperature = decode_temperature(root)?;
    let sd = decode_sd(root)?;
    let state = decode_state(root)?;
    let telemetry = decode_telemetry(root)?;
    let storage = decode_storage(root)?;
    Ok(RawPrinter { temperature, sd, state, telemetry, storage })
}

/// Decodes one response body into a snapshot.
///
/// A blank body — empty, or whitespace only — is rejected as
/// [`DecodeError::EmptyResponse`] before any parse is attempted. A body
/// that does not parse is rejected as [`DecodeError::Malformed`]. A body
/// that parses yields exactly what [`spec_snapshot`] says of its
/// document: the snapshot when every required field is present and well
/// typed, and [`DecodeError::Malformed`] otherwise. The outcome is a
/// function of the body alone, no partial snapshot is ever produced, and
/// nothing but the given text is read.
pub fn decode(body: &str) -> (r: Result<RawPrinter, DecodeError>)
    ensures
        (r matches Err(e) && e matches DecodeError::EmptyResponse) <==> blank(body@),
        !blank(body@) && !json_parses(body.spec_bytes()) ==> (r matches Err(e)
            && e matches DecodeError::Malformed(_)),
        !blank(body@) && json_parses(body.spec_bytes()) ==> (match spec_snapshot(
            doc_of(body.spec_bytes()),
        ) {
            Some(m) => r matches Ok(snap) && snap.model() == m,
            None => r matches Err(e) && e matches DecodeError::Malformed(_),
        }),
        r is Ok ==> json_parses(body.spec_bytes()),
{
    if is_blank(body) {
        return Err(DecodeError::EmptyResponse);
    }
    match parse_json(body.as_bytes()) {
        Ok(root) => extract_snapshot(&root),
        Err(e) => Err(DecodeError::Malformed(json_error_detail(&e))),
    }
}

} // verus!
