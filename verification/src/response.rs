//! The response model.
//!
//! [`ResponseState`] is the plain value: a status code (default 200) and an
//! optional body, with exact contracts for every transition. A
//! [`TachyonResponse`] is a shared handle to one such value behind a
//! reference-counted reader/writer lock, so a handler running on another
//! execution context can write while the dispatcher later reads; every
//! handle observes the same state, and the lock serializes access. The
//! transition semantics are proved on `ResponseState`; the handle only adds
//! sharing.

use std::sync::Arc;
use vstd::prelude::*;
use vstd::rwlock::RwLock;
use vstd::rwlock::RwLockPredicate;

verus! {


/// The mathematical value of a response: its status code and, when one has
/// been written, its body text.
pub struct ResponseView {
    pub status: u16,
    pub data: Option<Seq<char>>,
}

/// A response after a body write: same status, body present.
pub open spec fn spec_send(v: ResponseView, body: Seq<char>) -> ResponseView {
    ResponseView { status: v.status, data: Some(body) }
}

/// A response after a status write: same body, new status.
pub open spec fn spec_set_status(v: ResponseView, code: u16) -> ResponseView {
    ResponseView { status: code, data: v.data }
}

/// What taking the body returns and leaves behind: the stored body comes
/// out, and the stored body is gone.
pub open spec fn spec_take(v: ResponseView) -> (Option<Seq<char>>, ResponseView) {
    (v.data, ResponseView { status: v.status, data: None })
}

/// A response value: status code and optional body. The status defaults to
/// 200; the body is absent until the first write and each write replaces
/// the previous one.
pub struct ResponseState {
    status: u16,
    data: Option<String>,
}

impl View for ResponseState {
    type V = ResponseView;

    closed spec fn view(&self) -> ResponseView {
        ResponseView {
            status: self.status,
            data: match self.data {
                Some(s) => Some(s@),
                None => None,
            },
        }
    }
}

impl ResponseState {
    /// A fresh response: status 200, no body.
    pub fn new() -> (r: ResponseState)
        ensures
            r@.status == 200,
            r@.data is None,
    {
        ResponseState { status: 200, data: None }
    }

    /// Stores `code` unconditionally; range checking is a render-time
    /// concern, not a storage-time one.
    pub fn set_status(&mut self, code: u16)
        ensures
            final(self)@ == spec_set_status(old(self)@, code),
    {
        self.status = code;
    }

    /// Stores `body`, replacing any earlier body: the last write wins and
    /// overwriting raises no error.
    pub fn send(&mut self, body: String)
        ensures
            final(self)@ == spec_send(old(self)@, body@),
    {
        self.data = Some(body);
    }

    /// Reads and clears the stored body in one step. Taking from an empty
    /// response is a harmless no-op that returns `None`.
    pub fn take_data(&mut self) -> (r: Option<String>)
        ensures
            final(self)@ == spec_take(old(self)@).1,
            (match r {
                Some(s) => Some(s@),
                None => None::<Seq<char>>,
            }) == spec_take(old(self)@).0,
    {
        let mut taken: Option<String> = None;
        std::mem::swap(&mut self.data, &mut taken);
        taken
    }

    /// Reads the stored body without clearing it.
    pub fn get_data(&self) -> (r: Option<String>)
        ensures
            (match r {
                Some(s) => Some(s@),
                None => None::<Seq<char>>,
            }) == self@.data,
    {
        match &self.data {
            Some(s) => Some(s.clone()),
            None => None,
        }
    }

    /// The current status code.
    pub fn get_status(&self) -> (r: u16)
        ensures
            r == self@.status,
    {
        self.status
    }
}

/// Writing a body twice leaves only the second payload: taking the body
/// after two writes returns the later one, whatever was stored before.
pub proof fn lemma_send_overwrites(v: ResponseView, first: Seq<char>, second: Seq<char>)
    ensures
        spec_take(spec_send(spec_send(v, first), second)).0 == Some(second),
{
}

/// Taking is one-shot: after a take, a second take before any new write
/// returns nothing.
pub proof fn lemma_take_once(v: ResponseView)
    ensures
        spec_take(spec_take(v).1).0 is None,
{
}

/// A late write lands on a drained response without resurrecting the taken
/// body: the drained response still takes to the late payload only, never
/// to the one taken earlier.
pub proof fn lemma_late_write_isolated(v: ResponseView, late: Seq<char>)
    ensures
        spec_take(spec_send(spec_take(v).1, late)).0 == Some(late),
        spec_take(spec_take(v).1).0 is None,
{
}

/// Every handle to a response sees one state, protected by this trivially
/// satisfiable lock predicate: any response value may be stored.
pub struct AnyResponse {}

impl RwLockPredicate<ResponseState> for AnyResponse {
    open spec fn inv(self, v: ResponseState) -> bool {
        true
    }
}

/// Relies on `std::sync::Arc::clone`: the clone is a handle to the same
/// allocation, so as a value it is the same object.
#[verifier::external_body]
fn clone_cell(a: &Arc<RwLock<ResponseState, AnyResponse>>) -> (r: Arc<
    RwLock<ResponseState, AnyResponse>,
>)
    ensures
        r == *a,
{
    Arc::clone(a)
}

/// A shared handle to one response. Clones hand the same underlying state
/// to a handler that may run on another execution context; the dispatcher
/// keeps its own handle and reads the state when the handler is done or
/// the wait times out.
pub struct TachyonResponse {
    cell: Arc<RwLock<ResponseState, AnyResponse>>,
}

impl TachyonResponse {
    /// A fresh shared response: status 200, no body.
    pub fn new() -> (r: TachyonResponse)
    {
        let state = ResponseState::new();
        TachyonResponse { cell: Arc::new(RwLock::new(state, Ghost(AnyResponse {}))) }
    }

    /// Another handle to the same underlying response.
    pub fn handle(&self) -> (r: TachyonResponse)
        ensures
            r == *self,
    {
        TachyonResponse { cell: clone_cell(&self.cell) }
    }

    /// Stores `code` and returns another handle to the same response, so
    /// that writes chain.
    pub fn status(&self, code: u16) -> (r: TachyonResponse)
        ensures
            r == *self,
    {
        let (mut state, lock_handle) = self.cell.acquire_write();
        state.set_status(code);
        lock_handle.release_write(state);
        self.handle()
    }

    /// Serializes `msg` and stores it as the body, replacing any earlier
    /// body; the last write wins.
    pub fn send(&self, msg: Option<serde_json::Value>)
    {
        let text = crate::json::encode_value_opt(&msg);
        let (mut state, lock_handle) = self.cell.acquire_write();
        state.send(text);
        lock_handle.release_write(state);
    }

    /// Serializes `value` and stores it as the body, replacing any earlier
    /// body.
    pub fn send_json(&self, value: serde_json::Value)
    {
        self.send(Some(value));
    }

    /// Reads and clears the stored body in one step; after this, the
    /// response is drained until a handler writes again.
    pub fn take_data(&self) -> (r: Option<String>)
    {
        let (mut state, lock_handle) = self.cell.acquire_write();
        let taken = state.take_data();
        lock_handle.release_write(state);
        taken
    }

    /// Reads the stored body without clearing it; completion polling uses
    /// this, the final render never does.
    pub fn get_data(&self) -> (r: Option<String>)
    {
        let read_handle = self.cell.acquire_read();
        let data = read_handle.borrow().get_data();
        read_handle.release_read();
        data
    }

    /// The current status code.
    pub fn get_status(&self) -> (r: u16)
    {
        let read_handle = self.cell.acquire_read();
        let status = read_handle.borrow().get_status();
        read_handle.release_read();
        status
    }
}

impl Clone for TachyonResponse {
    /// Clones are additional handles to the same response.
    fn clone(&self) -> (r: TachyonResponse)
        ensures
            r == *self,
    {
        self.handle()
    }
}

} // verus!
