use vstd::prelude::*;

use crate::error::Error;
use crate::native::Call;

verus! {

/// One raw trace sample, as plain values read from the engine's record.
///
/// It describes memory that the engine owns and keeps only while its callback
/// runs.
#[derive(Clone, Copy, Debug)]
pub struct Record {
    /// Address of the engine's record.
    pub raw: usize,
    /// When the sample was taken.
    pub ts: u64,
    /// Address of the sample's data.
    pub data: usize,
}

/// How one named field lies in the data of a record.
#[derive(Clone, Copy, Debug)]
pub struct Field {
    /// Address of the engine's field descriptor.
    pub raw: usize,
}

impl Record {
    /// The timestamp of the sample.
    pub fn ts(&self) -> (ts: u64)
        ensures
            ts == self.ts,
    {
        self.ts
    }

    /// The call that decodes `field` from this record's data.
    pub fn read_field_call(&self, field: &Field) -> (call: Call)
        ensures
            call matches Call::ReadNumberField { field: f, data: d } && f == field.raw && d
                == self.data,
    {
        Call::ReadNumberField { field: field.raw, data: self.data }
    }

    /// Reads the engine's answer to [`Record::read_field_call`]: `decoded` is
    /// zero when the engine could not decode the field, and `val` is the number
    /// otherwise.
    pub fn read_field(&self, decoded: i32, val: u64) -> (r: Result<u64, Error>)
        ensures
            decoded != 0 ==> r == Ok::<u64, Error>(val),
            decoded == 0 ==> r is Err && r->Err_0 is ReadField,
    {
        if decoded == 0 {
            return Err(Error::ReadField);
        }
        Ok(val)
    }
}

} // verus!
