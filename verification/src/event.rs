use vstd::prelude::*;
use vstd::utf8::{decode_utf8, valid_utf8};

use crate::error::Error;
use crate::native::Call;
use crate::record::Record;
use crate::text::{c_string, c_string_spec, cptr_to_string};

verus! {

/// The format of one kind of event, resolved from a record.
pub struct Event {
    ptr: usize,
    /// The event's name.
    pub name: String,
}

/// Whether `r` is what a field lookup gives when the engine answered with
/// `status`, the decoded `val`, and `diagnostic` in its scratch buffer.
pub open spec fn is_lookup_result(
    status: i32,
    val: u64,
    diagnostic: Seq<u8>,
    r: Result<u64, Error>,
) -> bool {
    if status == 0 {
        r == Ok::<u64, Error>(val)
    } else if !valid_utf8(diagnostic) {
        r is Err && r->Err_0 is InvalidString
    } else if diagnostic.len() == 0 {
        r is Err && r->Err_0 == Error::FindField(None)
    } else {
        r is Err && (r->Err_0 matches Error::FindField(Some(text)) && text@ == decode_utf8(
            diagnostic,
        ))
    }
}

/// Reads the engine's answer to either of the two lookups by name.
fn lookup_result(status: i32, val: u64, diagnostic: &[u8]) -> (r: Result<u64, Error>)
    ensures
        is_lookup_result(status, val, diagnostic@, r),
{
    if status == 0 {
        return Ok(val);
    }
    match cptr_to_string(diagnostic) {
        Err(e) => Err(e),
        Ok(text) => {
            if diagnostic.len() == 0 {
                Err(Error::FindField(None))
            } else {
                Err(Error::FindField(Some(text)))
            }
        },
    }
}

impl Event {
    /// The address of the engine's event descriptor.
    pub closed spec fn addr(&self) -> usize {
        self.ptr
    }

    /// The event's name, as contracts see the field `name`.
    pub closed spec fn label(&self) -> Seq<char> {
        self.name@
    }

    /// The event at `ptr`, with its decoded name.
    pub(crate) fn resolved(ptr: usize, name: String) -> (event: Event)
        ensures
            event.addr() == ptr,
            event.label() == name@,
    {
        Event { ptr, name }
    }

    /// The address of the engine's event descriptor.
    pub fn raw(&self) -> (addr: usize)
        ensures
            addr == self.addr(),
    {
        self.ptr
    }

    /// The event's name.
    pub fn name(&self) -> (name: &str)
        ensures
            name@ == self.label(),
    {
        self.name.as_str()
    }

    /// The call that formats all fields of `rec` as text.
    pub fn print_field_call(&self, rec: &Record) -> (call: Call)
        ensures
            call matches Call::PrintFields { record: r, event: e } && r == rec.raw && e
                == self.addr(),
    {
        Call::PrintFields { record: rec.raw, event: self.ptr }
    }

    /// Reads the engine's answer to [`Event::print_field_call`]: the text that
    /// it wrote, decoded.
    pub fn print_field(&self, text: &[u8]) -> (r: Result<String, Error>)
        ensures
            valid_utf8(text@) ==> r is Ok && r->Ok_0@ == decode_utf8(text@),
            !valid_utf8(text@) ==> r is Err && r->Err_0 is InvalidString,
    {
        cptr_to_string(text)
    }

    /// The call that looks `name` up among the fields that every event has,
    /// and decodes it from `rec`.
    pub fn get_common_field_val_call(&self, rec: &Record, name: &str) -> (call: Call)
        ensures
            call matches Call::CommonFieldValue { event: e, name: n, record: r, report: p } && e
                == self.addr() && n@ == c_string_spec(name@) && r == rec.raw && p == 1,
    {
        Call::CommonFieldValue { event: self.ptr, name: c_string(name), record: rec.raw, report: 1 }
    }

    /// Reads the engine's answer to [`Event::get_common_field_val_call`]: a
    /// zero `status` with the decoded `val`, or a failure with the
    /// `diagnostic` text that the engine wrote.
    pub fn get_common_field_val(&self, status: i32, val: u64, diagnostic: &[u8]) -> (r: Result<
        u64,
        Error,
    >)
        ensures
            is_lookup_result(status, val, diagnostic@, r),
    {
        lookup_result(status, val, diagnostic)
    }

    /// The call that looks `name` up among this event's own fields, and
    /// decodes it from `rec`.
    pub fn find_field_call(&self, rec: &Record, name: &str) -> (call: Call)
        ensures
            call matches Call::FieldValue { event: e, name: n, record: r, report: p } && e
                == self.addr() && n@ == c_string_spec(name@) && r == rec.raw && p == 1,
    {
        Call::FieldValue { event: self.ptr, name: c_string(name), record: rec.raw, report: 1 }
    }

    /// Reads the engine's answer to [`Event::find_field_call`]: a zero
    /// `status` with the decoded `val`, or a failure with the `diagnostic`
    /// text that the engine wrote.
    pub fn find_field(&self, status: i32, val: u64, diagnostic: &[u8]) -> (r: Result<u64, Error>)
        ensures
            is_lookup_result(status, val, diagnostic@, r),
    {
        lookup_result(status, val, diagnostic)
    }
}

} // verus!
