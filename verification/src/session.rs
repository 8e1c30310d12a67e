use vstd::prelude::*;
use vstd::utf8::{decode_utf8, valid_utf8};

use crate::error::Error;
use crate::event::Event;
use crate::native::Call;
use crate::record::Record;
use crate::text::{c_string, c_string_spec, cptr_to_string};

verus! {

/// An open capture session.
///
/// A value that [`Input::new`] returned stands for a session that the engine
/// opened, and [`Input::close`] consumes it: a session cannot be released
/// twice.
pub struct Input {
    raw: usize,
}

/// The event-format database of a session.  It lives as long as the session.
pub struct Handle {
    raw: usize,
}

impl Input {
    /// The address of the engine's session.
    pub closed spec fn addr(&self) -> usize {
        self.raw
    }

    /// The session at `addr`, as a value in contracts.
    pub closed spec fn at(addr: usize) -> Input {
        Input { raw: addr }
    }

    /// [`Input::at`] and [`Input::addr`] are inverse to each other.
    pub broadcast proof fn at_addr(addr: usize)
        ensures
            (#[trigger] Input::at(addr)).addr() == addr,
    {
    }

    /// A session is determined by its address.
    pub proof fn addr_at(self)
        ensures
            Input::at(self.addr()) == self,
    {
    }

    /// The call that opens the capture file at `path`.  The flags are fixed.
    pub fn open_call(path: &str) -> (call: Call)
        ensures
            call matches Call::Open { path: p, flags: f } && p@ == c_string_spec(path@) && f == 0,
    {
        Call::Open { path: c_string(path), flags: 0 }
    }

    /// Reads the engine's answer to [`Input::open_call`]: a session at
    /// `opened`, or a null where the file could not be opened.
    pub fn new(opened: usize) -> (r: Result<Input, Error>)
        ensures
            opened != 0 ==> r is Ok && r->Ok_0.addr() == opened,
            opened == 0 ==> r is Err && r->Err_0 is Open,
    {
        if opened == 0 {
            return Err(Error::Open);
        }
        Ok(Input { raw: opened })
    }

    /// A view of the session at `addr` that the engine hands to its callback.
    /// It is dropped without a release.
    pub(crate) fn view_of(addr: usize) -> (input: Input)
        ensures
            input == Input::at(addr),
    {
        Input { raw: addr }
    }

    /// The address of the engine's session.
    pub fn raw(&self) -> (addr: usize)
        ensures
            addr == self.addr(),
    {
        self.raw
    }

    /// The call that asks this session for its format database.
    pub fn handle_call(&self) -> (call: Call)
        ensures
            call matches Call::FormatHandle { session: s } && s == self.addr(),
    {
        Call::FormatHandle { session: self.raw }
    }

    /// Reads the engine's answer to [`Input::handle_call`]: the database at
    /// `format`, or a null where the session has none.
    pub fn handle(&self, format: usize) -> (r: Result<Handle, Error>)
        ensures
            format != 0 ==> r is Ok && r->Ok_0.addr() == format,
            format == 0 ==> r is Err && r->Err_0 is Handle,
    {
        if format == 0 {
            Err(Error::Handle)
        } else {
            Ok(Handle { raw: format })
        }
    }

    /// The call that resolves the event of `rec` in this session's database.
    pub fn find_event_call(&self, handle: &Handle, rec: &Record) -> (call: Call)
        ensures
            call matches Call::FindEvent { format: f, record: r } && f == handle.addr() && r
                == rec.raw,
    {
        Call::FindEvent { format: handle.raw, record: rec.raw }
    }

    /// Reads the engine's answers on the way to an event: `format` answers
    /// [`Input::handle_call`], `event` answers [`Input::find_event_call`], and
    /// `name` is the event's name as the engine holds it, without its
    /// terminator.  The first answer that fails decides the error.
    pub fn find_event(&self, format: usize, event: usize, name: &[u8]) -> (r: Result<Event, Error>)
        ensures
            format == 0 ==> r is Err && r->Err_0 is Handle,
            format != 0 && event == 0 ==> r is Err && r->Err_0 is FindEvent,
            format != 0 && event != 0 && !valid_utf8(name@) ==> r is Err && r->Err_0
                is InvalidString,
            format != 0 && event != 0 && valid_utf8(name@) ==> r is Ok && r->Ok_0.addr() == event
                && r->Ok_0.label() == decode_utf8(name@),
    {
        match self.handle(format) {
            Err(e) => {
                return Err(e);
            },
            Ok(_) => {},
        }
        if event == 0 {
            return Err(Error::FindEvent);
        }
        match cptr_to_string(name) {
            Ok(name) => Ok(Event::resolved(event, name)),
            Err(e) => Err(e),
        }
    }

    /// Ends the session: the call that releases it.
    pub fn close(self) -> (call: Call)
        ensures
            call matches Call::Close { session: s } && s == self.addr(),
    {
        Call::Close { session: self.raw }
    }
}

impl Handle {
    /// The address of the engine's database.
    pub closed spec fn addr(&self) -> usize {
        self.raw
    }

    /// The address of the engine's database.
    pub fn raw(&self) -> (addr: usize)
        ensures
            addr == self.addr(),
    {
        self.raw
    }

    /// The call that decodes the process id of `rec`.
    pub fn pid_call(&self, rec: &Record) -> (call: Call)
        ensures
            call matches Call::DataPid { format: f, record: r } && f == self.addr() && r == rec.raw,
    {
        Call::DataPid { format: self.raw, record: rec.raw }
    }

    /// Reads the engine's answer to [`Handle::pid_call`].  The engine has no
    /// way to report a failure here, so whatever it decoded is the process
    /// id.
    pub fn pid(&self, decoded: i32) -> (pid: i32)
        ensures
            pid == decoded,
    {
        decoded
    }
}

} // verus!
