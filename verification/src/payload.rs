//! Typed payloads: a serialized value paired with a content-independent type
//! tag, decodable only under the tag it was built with. String payloads are
//! serialized through serde_json; terminal events through the bus's own
//! codec.

use vstd::prelude::*;
use crate::errors::BusError;
use crate::events::EventModel;
use crate::events::TerminalEvent;
use crate::events::decode_event;
use crate::events::encode_event;
use crate::events::spec_encode_event;

verus! {

/// The type tag of string payloads.
pub const TAG_STRING: u64 = 1;

/// The type tag of terminal-event payloads.
pub const TAG_TERMINAL_EVENT: u64 = 2;

/// The least tag free for callers' own payload types.
pub const TAG_USER_BASE: u64 = 16;

/// The result of serde_json's `to_string` on a Rust string: it depends on the
/// characters alone.
pub uninterp spec fn json_of_string(s: Seq<char>) -> Seq<char>;

/// Relies on serde_json::to_string: serializing a `String` cannot fail (it is
/// valid UTF-8 and contains no map keys), and its output is a function of the
/// characters alone, named `json_of_string`.
#[verifier::external_body]
fn json_encode_string(s: &String) -> (r: Result<String, BusError>)
    ensures
        r is Ok,
        r->Ok_0@ == json_of_string(s@),
{
    match serde_json::to_string(s) {
        Ok(t) => Ok(t),
        Err(_) => Err(BusError::SerializationError),
    }
}

/// Whether `r` is what decoding the serialized text `t` must give: whenever
/// `t` is the serialization of some string, that very string, successfully.
pub open spec fn json_decode_inverts(t: Seq<char>, r: Result<String, BusError>) -> bool {
    forall|s: Seq<char>| t == json_of_string(s) ==> (r matches Ok(v) && v@ == s)
}

/// Relies on serde_json::from_str: deserializing the output of
/// serde_json::to_string for a `String` yields that string back, and the
/// result depends on the input characters alone.
#[verifier::external_body]
fn json_decode_string(t: &str) -> (r: Result<String, BusError>)
    ensures
        json_decode_inverts(t@, r),
        r is Err ==> r->Err_0 == BusError::SerializationError,
{
    match serde_json::from_str::<String>(t) {
        Ok(v) => Ok(v),
        Err(_) => Err(BusError::SerializationError),
    }
}

/// The mathematical model of a payload: its tag and its serialized form.
pub struct PayloadModel {
    pub tag: u64,
    pub data: Seq<char>,
}

/// A self-describing payload: a serialized value plus the type tag captured
/// when it was built. Both are set together at construction and never
/// mutated afterwards.
#[derive(Debug)]
pub struct TypedValue {
    tag: u64,
    data: String,
}

impl View for TypedValue {
    type V = PayloadModel;

    closed spec fn view(&self) -> PayloadModel {
        PayloadModel { tag: self.tag, data: self.data@ }
    }
}

impl TypedValue {
    /// Wraps an already-serialized value under the given tag.
    pub fn new(tag: u64, data: String) -> (r: TypedValue)
        ensures
            r@ == (PayloadModel { tag, data: data@ }),
    {
        TypedValue { tag, data }
    }

    /// The type tag captured at construction.
    pub fn tag(&self) -> (r: u64)
        ensures
            r == self@.tag,
    {
        self.tag
    }

    /// The serialized form captured at construction.
    pub fn data(&self) -> (r: &str)
        ensures
            r@ == self@.data,
    {
        self.data.as_str()
    }

    /// An equal payload: same tag, same serialized form.
    pub fn duplicate(&self) -> (r: TypedValue)
        ensures
            r@ == self@,
    {
        TypedValue { tag: self.tag, data: self.data.clone() }
    }

    /// Serializes a string into a payload tagged `TAG_STRING`.
    pub fn of_string(s: &String) -> (r: TypedValue)
        ensures
            r@.tag == TAG_STRING,
            r@.data == json_of_string(s@),
    {
        match json_encode_string(s) {
            Ok(t) => TypedValue { tag: TAG_STRING, data: t },
            Err(_) => unreached(),
        }
    }

    /// Decodes a string payload. Fails with `TypeMismatch` unless the stored
    /// tag is `TAG_STRING`; decoding the output of `of_string` yields the
    /// original string.
    pub fn as_string(&self) -> (r: Result<String, BusError>)
        ensures
            self@.tag != TAG_STRING ==> r == Err::<String, BusError>(BusError::TypeMismatch),
            self@.tag == TAG_STRING ==> forall|s: Seq<char>|
                self@.data == json_of_string(s) ==> (r matches Ok(v) && v@ == s),
            r is Err ==> (r == Err::<String, BusError>(BusError::TypeMismatch) || r == Err::<
                String,
                BusError,
            >(BusError::SerializationError)),
    {
        if self.tag != TAG_STRING {
            return Err(BusError::TypeMismatch);
        }
        json_decode_string(self.data.as_str())
    }

    /// Serializes a terminal event into a payload tagged `TAG_TERMINAL_EVENT`.
    pub fn of_event(e: &TerminalEvent) -> (r: TypedValue)
        ensures
            r@.tag == TAG_TERMINAL_EVENT,
            r@.data == spec_encode_event(e@),
    {
        TypedValue { tag: TAG_TERMINAL_EVENT, data: encode_event(e) }
    }

    /// Decodes a terminal-event payload. Fails with `TypeMismatch` unless the
    /// stored tag is `TAG_TERMINAL_EVENT`, and with `SerializationError` when
    /// the stored form is the encoding of no event.
    pub fn as_event(&self) -> (r: Result<TerminalEvent, BusError>)
        ensures
            self@.tag != TAG_TERMINAL_EVENT ==> r == Err::<TerminalEvent, BusError>(
                BusError::TypeMismatch,
            ),
            self@.tag == TAG_TERMINAL_EVENT ==> match r {
                Ok(e) => self@.data == spec_encode_event(e@),
                Err(e) => e == BusError::SerializationError && forall|m: EventModel|
                    self@.data != spec_encode_event(m),
            },
    {
        if self.tag != TAG_TERMINAL_EVENT {
            return Err(BusError::TypeMismatch);
        }
        match decode_event(self.data.as_str()) {
            Some(e) => Ok(e),
            None => Err(BusError::SerializationError),
        }
    }
}

/// Whether a payload is the string `s` as serialized by `of_string`.
pub open spec fn payload_is_string(p: PayloadModel, s: Seq<char>) -> bool {
    p.tag == TAG_STRING && p.data == json_of_string(s)
}

/// Whether a payload is the terminal event `m` as serialized by `of_event`.
pub open spec fn payload_is_event(p: PayloadModel, m: EventModel) -> bool {
    p.tag == TAG_TERMINAL_EVENT && p.data == spec_encode_event(m)
}

} // verus!
