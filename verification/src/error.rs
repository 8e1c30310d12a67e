use vstd::prelude::*;

verus! {

/// `core::str::Utf8Error`: why a byte string is not UTF-8.  Carried through
/// unread.
#[verifier::external_type_specification]
#[verifier::external_body]
pub struct ExUtf8Error(core::str::Utf8Error);

/// What can go wrong in one operation of this layer.
///
/// Status codes of a whole iteration are not in here: their meaning belongs to
/// the engine, and they are handed on as plain integers.
#[derive(Debug)]
pub enum Error {
    /// The engine could not open the capture file.
    Open,
    /// The session has no event-format database.
    Handle,
    /// The record's event has no entry in the format database.
    FindEvent,
    /// The field is unknown to the event, or could not be decoded.  Holds the
    /// diagnostic text that the engine wrote, if it wrote any.
    FindField(Option<String>),
    /// A process id that cannot be one.
    InvalidPid(String),
    /// A timestamp that cannot be one.
    InvalidTimestamp(String),
    /// Text from the engine that is not UTF-8.
    InvalidString(core::str::Utf8Error),
    /// The engine could not decode a number at the field's place.
    ReadField,
}

} // verus!
