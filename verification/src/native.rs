use vstd::prelude::*;

use crate::record::Record;

verus! {

/// One call into the capture engine, with the arguments it is made with.
///
/// Handles are the addresses that the engine gave out; a zero address is its
/// null.  Byte strings are zero-terminated.
#[derive(Debug)]
pub enum Call {
    /// Open the capture file at `path`.
    Open { path: Vec<u8>, flags: i32 },
    /// Release a session.
    Close { session: usize },
    /// Ask a session for its event-format database.
    FormatHandle { session: usize },
    /// Resolve the event that a record is an instance of.
    FindEvent { format: usize, record: usize },
    /// Decode the process id of a record.
    DataPid { format: usize, record: usize },
    /// Decode the number at a field's place in a record's data.
    ReadNumberField { field: usize, data: usize },
    /// Format all fields of a record.
    PrintFields { record: usize, event: usize },
    /// Look a field of the event up by name and decode it.  A nonzero
    /// `report` asks for a diagnostic text on failure.
    FieldValue { event: usize, name: Vec<u8>, record: usize, report: i32 },
    /// The same, among the fields that every event has.
    CommonFieldValue { event: usize, name: Vec<u8>, record: usize, report: i32 },
    /// Walk the records of one session, on all of its CPUs.
    Iterate { session: usize },
    /// Walk the records of several sessions, merged by the engine.
    IterateMulti { sessions: Vec<usize>, count: i32 },
}

/// One record as the engine hands it to its callback during an iteration.
#[derive(Clone, Copy, Debug)]
pub struct Delivery {
    /// Which session of the iterated set the record comes from, by position.
    pub source: usize,
    /// The record.
    pub record: Record,
    /// The CPU that the record was captured on.
    pub cpu: i32,
}

} // verus!
