//! The decisions of the key-value store client that do not touch the
//! network: reading a stored key-value pair as text and JSON, what to answer
//! for a missing entry, and how a watch reacts to each event.
use vstd::prelude::*;
use vstd::utf8::{decode_utf8, valid_utf8};

verus! {

/// A JSON value (`serde_json::Value`), carried through as an opaque value.
#[verifier::external_type_specification]
#[verifier::external_body]
pub struct ExJsonValue(serde_json::Value);

/// A JSON parse error (`serde_json::Error`), carried through as an opaque
/// value.
#[verifier::external_type_specification]
#[verifier::external_body]
pub struct ExJsonError(serde_json::Error);

/// The JSON value that a text parses to (`serde_json::from_str`), if any.
pub uninterp spec fn json_value_of_text(text: Seq<char>) -> Option<serde_json::Value>;

/// The JSON value that a byte string parses to (`serde_json::from_slice`),
/// if any.
pub uninterp spec fn json_value_of_bytes(bytes: Seq<u8>) -> Option<serde_json::Value>;

/// Parses JSON text into a value (`serde_json::from_str::<Value>`): the
/// parse succeeds exactly when the text has a value, and gives that value.
#[verifier::external_body]
fn json_from_str(text: &str) -> (r: Result<serde_json::Value, serde_json::Error>)
    ensures
        r is Ok <==> json_value_of_text(text@) is Some,
        r matches Ok(v) ==> json_value_of_text(text@) == Some(v),
{
    serde_json::from_str(text)
}

/// Parses JSON bytes into a value (`serde_json::from_slice::<Value>`): the
/// parse succeeds exactly when the bytes have a value, and gives that value.
#[verifier::external_body]
fn json_from_slice(bytes: &[u8]) -> (r: Result<serde_json::Value, serde_json::Error>)
    ensures
        r is Ok <==> json_value_of_bytes(bytes@) is Some,
        r matches Ok(v) ==> json_value_of_bytes(bytes@) == Some(v),
{
    serde_json::from_slice(bytes)
}

/// Reads bytes as UTF-8 text (`std::str::from_utf8`): text exactly when the
/// bytes are valid UTF-8, holding the characters they encode.
#[verifier::external_body]
fn utf8_text(bytes: &[u8]) -> (r: Option<&str>)
    ensures
        r is Some <==> valid_utf8(bytes@),
        r matches Some(s) ==> s@ == decode_utf8(bytes@),
{
    match std::str::from_utf8(bytes) {
        Ok(s) => Some(s),
        Err(_) => None,
    }
}

/// Errors of the persistent store.
#[derive(Debug)]
pub enum StoreError {
    /// Failed to connect to the store.
    Connect {},
    /// Failed to 'put' an entry.
    Put { key: String, value: String },
    /// Failed to 'get' an entry.
    Get { key: String },
    /// Failed to 'delete' an entry.
    Delete { key: String },
    /// Failed to watch an entry.
    Watch { key: String },
    /// No entry is stored under the key.
    MissingEntry { key: String },
    /// A stored key is not valid UTF-8.
    KeyString {},
    /// A stored value is not valid UTF-8.
    ValueString {},
    /// A value could not be serialised.
    SerialiseValue {},
    /// A stored value is not valid JSON.
    DeserialiseValue { value: String, source: serde_json::Error },
}

/// A change seen by a watch.
#[derive(Debug)]
pub enum WatchEvent {
    /// An entry was put: its key and value.
    Put(String, serde_json::Value),
    /// The entry was deleted.
    Delete,
}

/// What reading a key-value pair gives: the key and the JSON value when the
/// key and value are valid UTF-8 and the value is valid JSON; otherwise the
/// first of these checks that fails names the error.
pub open spec fn deserialised(key: Seq<u8>, value: Seq<u8>, r: Result<(String, serde_json::Value), StoreError>) -> bool {
    if !valid_utf8(key) {
        r matches Err(StoreError::KeyString {  })
    } else if !valid_utf8(value) {
        r matches Err(StoreError::ValueString {  })
    } else {
        match json_value_of_text(decode_utf8(value)) {
            Some(v) => r matches Ok((k, w)) && k@ == decode_utf8(key) && w == v,
            None => r matches Err(StoreError::DeserialiseValue { value: t, .. }) && t@ == decode_utf8(
                value,
            ),
        }
    }
}

/// Deserialise a key-value pair into its key text and JSON value.
pub fn deserialise_kv(key: &[u8], value: &[u8]) -> (r: Result<(String, serde_json::Value), StoreError>)
    ensures
        deserialised(key@, value@, r),
{
    let key_str = match utf8_text(key) {
        Some(k) => k,
        None => return Err(StoreError::KeyString {  }),
    };
    let value_str = match utf8_text(value) {
        Some(v) => v,
        None => return Err(StoreError::ValueString {  }),
    };
    pair_from_parse(key_str, value_str, json_from_str(value_str))
}

/// The key-value pair, or the error, for a key and value text and the
/// outcome of parsing the value text as JSON.
pub fn pair_from_parse(key: &str, value: &str, parsed: Result<serde_json::Value, serde_json::Error>) -> (r: Result<(String, serde_json::Value), StoreError>)
    ensures
        match parsed {
            Ok(v) => r matches Ok((k, w)) && k@ == key@ && w == v,
            Err(_) => r matches Err(StoreError::DeserialiseValue { value: t, .. }) && t@ == value@,
        },
{
    match parsed {
        Ok(v) => Ok((key.to_owned(), v)),
        Err(e) => Err(StoreError::DeserialiseValue { value: value.to_owned(), source: e }),
    }
}

/// What reading the first entry found under `key` gives: a missing-entry
/// error when nothing was found; the JSON value of its bytes when they hold
/// one; else the bytes as text in a deserialisation error, or a value-string
/// error when they are not valid UTF-8.
pub open spec fn opaque_entry(key: Seq<char>, first: Option<Seq<u8>>, r: Result<serde_json::Value, StoreError>) -> bool {
    match first {
        None => r matches Err(StoreError::MissingEntry { key: k }) && k@ == key,
        Some(bytes) => match json_value_of_bytes(bytes) {
            Some(v) => r == Ok::<serde_json::Value, StoreError>(v),
            None => if valid_utf8(bytes) {
                r matches Err(StoreError::DeserialiseValue { value: t, .. }) && t@ == decode_utf8(bytes)
            } else {
                r matches Err(StoreError::ValueString {  })
            },
        },
    }
}

/// Read the value of the first entry that a 'get' of `key` returned, as
/// JSON.
pub fn get_opaque_entry(key: String, first: Option<&[u8]>) -> (r: Result<serde_json::Value, StoreError>)
    ensures
        opaque_entry(
            key@,
            match first {
                Some(b) => Some(b@),
                None => None,
            },
            r,
        ),
{
    match first {
        None => Err(StoreError::MissingEntry { key }),
        Some(bytes) => entry_from_parse(bytes, json_from_slice(bytes)),
    }
}

/// The value, or the error, for stored bytes and the outcome of parsing
/// them as JSON: the parsed value; else the bytes as text in a
/// deserialisation error, or a value-string error when they are not valid
/// UTF-8.
pub fn entry_from_parse(bytes: &[u8], parsed: Result<serde_json::Value, serde_json::Error>) -> (r: Result<serde_json::Value, StoreError>)
    ensures
        match parsed {
            Ok(v) => r == Ok::<serde_json::Value, StoreError>(v),
            Err(_) => if valid_utf8(bytes@) {
                r matches Err(StoreError::DeserialiseValue { value: t, .. }) && t@ == decode_utf8(bytes@)
            } else {
                r matches Err(StoreError::ValueString {  })
            },
        },
{
    match parsed {
        Ok(v) => Ok(v),
        Err(e) => match utf8_text(bytes) {
            Some(text) => Err(StoreError::DeserialiseValue { value: text.to_owned(), source: e }),
            None => Err(StoreError::ValueString {  }),
        },
    }
}

/// A key-value pair as the store returns it.
pub struct KeyValue {
    /// The key's bytes.
    pub key: Vec<u8>,
    /// The value's bytes.
    pub value: Vec<u8>,
}

/// An event that a watch stream delivers.
pub enum KvEvent {
    /// An entry was put; the pair is absent when the store did not send it.
    Put(Option<KeyValue>),
    /// The entry was deleted.
    Delete,
}

/// What a watch does with an event: the message to tell the watcher, if
/// any, and whether the event is the last the watch handles.
#[derive(Debug)]
pub struct WatchStep {
    /// The message for the watcher.
    pub message: Option<Result<WatchEvent, StoreError>>,
    /// Whether the watch ends after this event, whether or not the watcher
    /// received the message.
    pub last: bool,
}

/// How a watch reacts to one event: a put with its pair is forwarded as the
/// deserialised pair (or the error in reading it), a put without a pair is
/// ignored, and a delete is forwarded and ends the watch.
pub fn watch_step(event: &KvEvent) -> (s: WatchStep)
    ensures
        match event {
            KvEvent::Put(None) => s.message is None && !s.last,
            KvEvent::Put(Some(kv)) => !s.last && match s.message {
                Some(Ok(WatchEvent::Put(k, v))) => deserialised(kv.key@, kv.value@, Ok((k, v))),
                Some(Ok(WatchEvent::Delete)) => false,
                Some(Err(e)) => deserialised(kv.key@, kv.value@, Err(e)),
                None => false,
            },
            KvEvent::Delete => s.last && s.message matches Some(Ok(WatchEvent::Delete)),
        },
{
    match event {
        KvEvent::Put(None) => WatchStep { message: None, last: false },
        KvEvent::Put(Some(kv)) => {
            let message = match deserialise_kv(kv.key.as_slice(), kv.value.as_slice()) {
                Ok((key, value)) => Ok(WatchEvent::Put(key, value)),
                Err(e) => Err(e),
            };
            WatchStep { message: Some(message), last: false }
        },
        KvEvent::Delete => WatchStep { message: Some(Ok(WatchEvent::Delete)), last: true },
    }
}

/// Whether a watch keeps watching after a step: not after its last event,
/// and not when the watcher did not receive a message meant for it (the
/// watcher is gone).
pub fn watch_continues(had_message: bool, last: bool, delivered: bool) -> (b: bool)
    ensures
        b == (!last && (!had_message || delivered)),
{
    !last && (!had_message || delivered)
}

} // verus!
