//! The trusted boundary to the host's untyped value representation.
//!
//! A host call settles with an untyped handle. The items here carry such a
//! handle into typed land: a rejection becomes [`Error::Command`] with the
//! rejection's text, and a resolution is read back through the serialization
//! library into a plain value or [`Error::Serde`]. The handle is opaque, so
//! nothing can be promised about which value it parses to — only the shape of
//! what comes out; the verified logic that decides what a parsed value means
//! lives in the plugin modules and takes the parsed value as an argument.

use crate::plugin::os;
use crate::plugin::os::Arch;
use crate::plugin::os::OsKind;
use crate::plugin::os::Platform;
use vstd::prelude::*;

verus! {

/// The host's untyped value handle.
#[verifier::external_type_specification]
#[verifier::external_body]
pub struct ExJsValue(wasm_bindgen::JsValue);

/// Relies on the `Debug` rendering of `wasm_bindgen::JsValue` to describe a
/// host rejection as text. What the text is depends on the host's heap, so
/// nothing is stated about it.
#[verifier::external_body]
fn js_value_debug(v: &wasm_bindgen::JsValue) -> String {
    format!("{:?}", v)
}

/// Relies on `serde_wasm_bindgen::from_value` to read a host boolean, and on
/// the parser error's `Display` rendering for the failure text. Which value,
/// if any, the opaque handle parses to cannot be stated.
#[verifier::external_body]
fn js_to_bool(v: wasm_bindgen::JsValue) -> Result<bool, String> {
    serde_wasm_bindgen::from_value(v).map_err(|e| e.to_string())
}

/// Relies on `serde_wasm_bindgen::from_value` to read a host string, and on
/// the parser error's `Display` rendering for the failure text. Which value,
/// if any, the opaque handle parses to cannot be stated.
#[verifier::external_body]
fn js_to_string(v: wasm_bindgen::JsValue) -> Result<String, String> {
    serde_wasm_bindgen::from_value(v).map_err(|e| e.to_string())
}

/// Relies on `serde_wasm_bindgen::from_value` to read a host byte array, and
/// on the parser error's `Display` rendering for the failure text. Which
/// value, if any, the opaque handle parses to cannot be stated.
#[verifier::external_body]
fn js_to_bytes(v: wasm_bindgen::JsValue) -> Result<Vec<u8>, String> {
    serde_wasm_bindgen::from_value(v).map_err(|e| e.to_string())
}

/// Relies on `serde_wasm_bindgen::from_value` to read a host unit value, and
/// on the parser error's `Display` rendering for the failure text. Whether
/// the opaque handle parses to one cannot be stated.
#[verifier::external_body]
fn js_to_unit(v: wasm_bindgen::JsValue) -> Result<(), String> {
    serde_wasm_bindgen::from_value(v).map_err(|e| e.to_string())
}

/// The error under which a host rejection reaches the caller: the rejection's
/// text in the command-failure variant.
pub fn command_error(v: wasm_bindgen::JsValue) -> (e: crate::Error)
    ensures
        e matches crate::Error::Command(_),
{
    crate::Error::Command(js_value_debug(&v))
}

/// The error under which a parse failure reaches the caller: the parser's
/// message in the deserialization-failure variant.
pub fn serde_error(m: String) -> (r: crate::Error)
    ensures
        r matches crate::Error::Serde(s) && s@ == m@,
{
    crate::Error::Serde(m)
}

/// Interpret the resolution of a host call that answers with a boolean. A
/// handle that does not parse surfaces as a deserialization failure.
pub fn bool_response(v: wasm_bindgen::JsValue) -> (r: Result<bool, crate::Error>)
    ensures
        r matches Err(e) ==> e matches crate::Error::Serde(_),
{
    match js_to_bool(v) {
        Ok(b) => Ok(b),
        Err(e) => Err(serde_error(e)),
    }
}

/// Interpret the resolution of a host call that answers with a string. A
/// handle that does not parse surfaces as a deserialization failure.
pub fn string_response(v: wasm_bindgen::JsValue) -> (r: Result<String, crate::Error>)
    ensures
        r matches Err(e) ==> e matches crate::Error::Serde(_),
{
    match js_to_string(v) {
        Ok(s) => Ok(s),
        Err(e) => Err(serde_error(e)),
    }
}

/// Interpret the resolution of a host call that answers with a byte array. A
/// handle that does not parse surfaces as a deserialization failure.
pub fn bytes_response(v: wasm_bindgen::JsValue) -> (r: Result<Vec<u8>, crate::Error>)
    ensures
        r matches Err(e) ==> e matches crate::Error::Serde(_),
{
    match js_to_bytes(v) {
        Ok(b) => Ok(b),
        Err(e) => Err(serde_error(e)),
    }
}

/// Interpret the resolution of a host call that answers with nothing. A
/// handle that does not parse as the unit value surfaces as a
/// deserialization failure.
pub fn unit_response(v: wasm_bindgen::JsValue) -> (r: Result<(), crate::Error>)
    ensures
        r matches Err(e) ==> e matches crate::Error::Serde(_),
{
    match js_to_unit(v) {
        Ok(u) => Ok(u),
        Err(e) => Err(serde_error(e)),
    }
}

/// Interpret the resolution of the architecture call: a string handle read
/// back through the wire names of [`Arch`].
pub fn arch_response(v: wasm_bindgen::JsValue) -> (r: Result<Arch, crate::Error>)
    ensures
        r matches Err(e) ==> e matches crate::Error::Serde(_),
{
    match js_to_string(v) {
        Ok(s) => os::arch_from_name(s.as_str()),
        Err(e) => Err(serde_error(e)),
    }
}

/// Interpret the resolution of the platform call: a string handle read back
/// through the wire names of [`Platform`].
pub fn platform_response(v: wasm_bindgen::JsValue) -> (r: Result<Platform, crate::Error>)
    ensures
        r matches Err(e) ==> e matches crate::Error::Serde(_),
{
    match js_to_string(v) {
        Ok(s) => os::platform_from_name(s.as_str()),
        Err(e) => Err(serde_error(e)),
    }
}

/// Interpret the resolution of the operating-system-kind call: a string
/// handle read back through the wire names of [`OsKind`].
pub fn os_kind_response(v: wasm_bindgen::JsValue) -> (r: Result<OsKind, crate::Error>)
    ensures
        r matches Err(e) ==> e matches crate::Error::Serde(_),
{
    match js_to_string(v) {
        Ok(s) => os::os_kind_from_name(s.as_str()),
        Err(e) => Err(serde_error(e)),
    }
}

} // verus!
