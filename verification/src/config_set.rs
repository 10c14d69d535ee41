//! The configuration set: the owner's half of the conversation with the
//! foreign library. A [`ConfigSet`] stands beside one foreign handle. Its
//! methods marshal what goes out, decode what comes back, and hand out the
//! foreign calls to make, so that every buffer the foreign side allocates is
//! copied and released once, and the handle itself is given back once.

use vstd::prelude::*;
use vstd::string::StringSliceAdditionalSpecFns;
use crate::c_string::{has_nul, is_parse_of, CString, FromVecWithNulError};
use crate::protocol::{calls, enabled, next, CallView, Event, State};
use crate::sentinel::{int_result, lookup_result, succeeded};

verus! {

/// A call into the foreign library that the owner of the handle is to make,
/// with its string argument marshalled.
#[derive(Debug, PartialEq, Eq)]
pub enum Call {
    /// Add the file at this path to the set; hand the status to
    /// [`ConfigSet::file_status`].
    AddFile(CString),
    /// Look this key up as an integer; hand status and slot to
    /// [`ConfigSet::int_reply`].
    GetInt(CString),
    /// Look this key up as a string; hand the status to
    /// [`ConfigSet::string_status`].
    GetString(CString),
    /// Copy the buffer that the string lookup handed out, up to and with
    /// its terminator; hand the copy to [`ConfigSet::buffer_copied`].
    CopyBuffer,
    /// Release that buffer with the foreign deallocation primitive, then
    /// call [`ConfigSet::buffer_freed`].
    Free,
    /// Clear the set and release its handle.
    ClearAndFree,
}

impl View for Call {
    type V = CallView;

    open spec fn view(&self) -> CallView {
        match self {
            Call::AddFile(path) => CallView::AddFile(path@),
            Call::GetInt(key) => CallView::GetInt(key@),
            Call::GetString(key) => CallView::GetString(key@),
            Call::CopyBuffer => CallView::CopyBuffer,
            Call::Free => CallView::Free,
            Call::ClearAndFree => CallView::ClearAndFree,
        }
    }
}

/// The stage of a configuration set, without what it holds.
#[derive(Clone, Copy, Debug, PartialEq, Eq, Structural)]
pub enum Phase {
    Ready,
    Loading,
    IntLookup,
    StringLookup,
    BufferOwned,
    BufferCopied,
    Released,
}

/// The stage that a state is in.
pub open spec fn phase_of(state: State) -> Phase {
    match state {
        State::Ready => Phase::Ready,
        State::Loading { .. } => Phase::Loading,
        State::IntLookup => Phase::IntLookup,
        State::StringLookup => Phase::StringLookup,
        State::BufferOwned => Phase::BufferOwned,
        State::BufferCopied { .. } => Phase::BufferCopied,
        State::Released => Phase::Released,
    }
}

/// The byte contents of native strings, one for one.
pub open spec fn bytes_of(strings: Seq<&str>) -> Seq<Seq<u8>> {
    Seq::new(strings.len(), |i: int| strings[i].spec_bytes())
}

/// The views of a list of calls, one for one.
pub open spec fn views_of(issued: Seq<Call>) -> Seq<CallView> {
    Seq::new(issued.len(), |i: int| issued[i]@)
}

/// The owner's record of one foreign configuration set.
#[derive(Debug)]
pub struct ConfigSet {
    phase: Phase,
    due: usize,
    copied: Vec<u8>,
}

impl View for ConfigSet {
    type V = State;

    closed spec fn view(&self) -> State {
        match self.phase {
            Phase::Ready => State::Ready,
            Phase::Loading => State::Loading { due: self.due as nat },
            Phase::IntLookup => State::IntLookup,
            Phase::StringLookup => State::StringLookup,
            Phase::BufferOwned => State::BufferOwned,
            Phase::BufferCopied => State::BufferCopied { bytes: self.copied@ },
            Phase::Released => State::Released,
        }
    }
}

/// Marshals a string that holds no nul byte.
fn marshal(s: &str) -> (c: CString)
    requires
        !has_nul(s.spec_bytes()),
    ensures
        c@ == s.spec_bytes(),
{
    CString::new(s).unwrap()
}

impl ConfigSet {
    /// The record of a set whose handle was just allocated and initialised:
    /// ready, with nothing under way.
    pub fn new() -> (set: ConfigSet)
        ensures
            set@ == State::Ready,
    {
        ConfigSet { phase: Phase::Ready, due: 0, copied: Vec::new() }
    }

    /// The stage that the set is in.
    pub fn phase(&self) -> (phase: Phase)
        ensures
            phase == phase_of(self@),
    {
        self.phase
    }

    /// Starts loading `files`: marshals each path and hands out one
    /// add-file call for each, in the order given. The status of each call
    /// goes to [`ConfigSet::file_status`].
    pub fn add_files(&mut self, files: &[&str]) -> (issued: Vec<Call>)
        requires
            enabled(old(self)@, Event::AddFiles { paths: bytes_of(files@) }),
            forall|i: int| 0 <= i < files@.len() ==> !has_nul(#[trigger] files@[i].spec_bytes()),
        ensures
            final(self)@ == next(old(self)@, Event::AddFiles { paths: bytes_of(files@) }),
            views_of(issued@) == calls(Event::AddFiles { paths: bytes_of(files@) }),
    {
        let mut issued: Vec<Call> = Vec::new();
        let mut i: usize = 0;
        while i < files.len()
            invariant
                i <= files.len(),
                issued.len() == i,
                forall|j: int| 0 <= j < files@.len() ==> !has_nul(#[trigger] files@[j].spec_bytes()),
                forall|j: int| 0 <= j < i ==> (#[trigger] issued@[j])@ == CallView::AddFile(files@[j].spec_bytes()),
            decreases files.len() - i,
        {
            issued.push(Call::AddFile(marshal(files[i])));
            i += 1;
        }
        if files.len() > 0 {
            self.phase = Phase::Loading;
            self.due = files.len();
        }
        assert(views_of(issued@) =~= calls(Event::AddFiles { paths: bytes_of(files@) }));
        issued
    }

    /// Takes the status of one add-file call. A file that could not be read
    /// or parsed is tolerated: whatever the status, loading goes on with the
    /// files that remain.
    pub fn file_status(&mut self, status: i32)
        requires
            enabled(old(self)@, Event::FileStatus { status }),
        ensures
            final(self)@ == next(old(self)@, Event::FileStatus { status }),
    {
        if self.due > 1 {
            self.due = self.due - 1;
        } else {
            self.phase = Phase::Ready;
        }
    }

    /// Starts an integer lookup: marshals `key` and hands out the call.
    pub fn get_int(&mut self, key: &str) -> (call: Call)
        requires
            enabled(old(self)@, Event::GetInt { key: key.spec_bytes() }),
            !has_nul(key.spec_bytes()),
        ensures
            final(self)@ == next(old(self)@, Event::GetInt { key: key.spec_bytes() }),
            seq![call@] == calls(Event::GetInt { key: key.spec_bytes() }),
    {
        self.phase = Phase::IntLookup;
        Call::GetInt(marshal(key))
    }

    /// Finishes an integer lookup: the slot's value where the call signalled
    /// success, nothing where it signalled failure.
    pub fn int_reply(&mut self, status: i32, slot: i32) -> (value: Option<i32>)
        requires
            enabled(old(self)@, Event::IntReply { status, slot }),
        ensures
            final(self)@ == next(old(self)@, Event::IntReply { status, slot }),
            value == lookup_result(status, slot),
    {
        self.phase = Phase::Ready;
        int_result(status, slot)
    }

    /// Starts a string lookup: marshals `key` and hands out the call.
    pub fn get_str(&mut self, key: &str) -> (call: Call)
        requires
            enabled(old(self)@, Event::GetStr { key: key.spec_bytes() }),
            !has_nul(key.spec_bytes()),
        ensures
            final(self)@ == next(old(self)@, Event::GetStr { key: key.spec_bytes() }),
            seq![call@] == calls(Event::GetStr { key: key.spec_bytes() }),
    {
        self.phase = Phase::StringLookup;
        Call::GetString(marshal(key))
    }

    /// Takes the status of a string lookup. On failure the value is absent,
    /// the lookup is over and no foreign memory is to be touched: nothing is
    /// handed out. On success the foreign side has allocated a buffer, and
    /// the call that copies it is handed out.
    pub fn string_status(&mut self, status: i32) -> (call: Option<Call>)
        requires
            enabled(old(self)@, Event::StringStatus { status }),
        ensures
            final(self)@ == next(old(self)@, Event::StringStatus { status }),
            match call {
                Some(call) => seq![call@] == calls(Event::StringStatus { status }),
                None => calls(Event::StringStatus { status }) == Seq::<CallView>::empty(),
            },
    {
        if succeeded(status) {
            self.phase = Phase::BufferOwned;
            Some(Call::CopyBuffer)
        } else {
            self.phase = Phase::Ready;
            None
        }
    }

    /// Takes the copy of the foreign buffer and hands out the call that
    /// releases the buffer. The copy is not looked at yet: the release is
    /// due whatever the buffer held.
    pub fn buffer_copied(&mut self, bytes: Vec<u8>) -> (call: Call)
        requires
            enabled(old(self)@, Event::Copied { bytes: bytes@ }),
        ensures
            final(self)@ == next(old(self)@, Event::Copied { bytes: bytes@ }),
            seq![call@] == calls(Event::Copied { bytes: bytes@ }),
    {
        self.phase = Phase::BufferCopied;
        self.copied = bytes;
        Call::Free
    }

    /// Finishes a string lookup once the foreign buffer is released: the
    /// copy as an owned string, or the reason why the copied bytes are no
    /// well-formed string.
    pub fn buffer_freed(&mut self) -> (value: Result<CString, FromVecWithNulError>)
        requires
            enabled(old(self)@, Event::Freed),
        ensures
            final(self)@ == next(old(self)@, Event::Freed),
            old(self)@ matches State::BufferCopied { bytes } && is_parse_of(bytes, value),
    {
        let mut bytes: Vec<u8> = Vec::new();
        core::mem::swap(&mut self.copied, &mut bytes);
        self.phase = Phase::Ready;
        CString::from_vec_with_nul(bytes)
    }

    /// Ends the life of the set: hands out the call that clears it and
    /// releases its handle. Nothing is accepted afterwards.
    pub fn release(&mut self) -> (call: Call)
        requires
            enabled(old(self)@, Event::Release),
        ensures
            final(self)@ == next(old(self)@, Event::Release),
            seq![call@] == calls(Event::Release),
    {
        self.phase = Phase::Released;
        Call::ClearAndFree
    }
}

impl Default for ConfigSet {
    fn default() -> (set: ConfigSet)
        ensures
            set@ == State::Ready,
    {
        ConfigSet::new()
    }
}

} // verus!
