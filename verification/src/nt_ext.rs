//! The retry protocol for information queries whose answer may not fit
//! the buffer offered. The caller performs the query; the functions here
//! decide, from the status it returned, whether the buffer is filled,
//! must grow, or the query has failed.

use crate::errors::CoreError;
use crate::win32::status_is_err;
use vstd::prelude::*;

verus! {

/// The status of a query whose buffer was too small.
pub const STATUS_INFO_LENGTH_MISMATCH: i32 = -1073741820;

/// The status of an object query that could write only part of its
/// answer.
pub const STATUS_BUFFER_OVERFLOW: i32 = -2147483643;

/// The buffer length that a system-wide query starts with.
pub const SYSTEM_BUFFER_LEN: usize = 1048576;

/// The buffer length that a query on one object starts with.
pub const OBJECT_BUFFER_LEN: usize = 260;

/// How often one query may grow its buffer before it is given up as
/// unstable.
pub const MAX_RETRIES: u32 = 16;

/// The two kinds of growable query.
#[derive(Debug, Clone, Copy, PartialEq, Eq, Structural)]
pub enum QueryKind {
    /// A system-wide table: the handle table or the process table.
    System,
    /// The type or the name of one object.
    Object,
}

/// What to do after one attempt of a query.
#[derive(Debug, Clone, Copy, PartialEq, Eq, Structural)]
pub enum QueryStep {
    /// The buffer holds the answer.
    Filled,
    /// The buffer was resized: query again.
    Retry,
    /// The query failed: stop.
    Failed(CoreError),
}

/// The buffer of a query in progress, and how often it has grown.
#[derive(Debug)]
pub struct GrowableQuery {
    pub buffer: Vec<u8>,
    pub retries: u32,
}

/// The status says that the buffer was too small for this kind of query.
pub open spec fn asks_for_more(kind: QueryKind, nt_status: i32) -> bool {
    nt_status == STATUS_INFO_LENGTH_MISMATCH || (kind == QueryKind::Object && nt_status
        == STATUS_BUFFER_OVERFLOW)
}

/// The error that a failing status means for this kind of query.
pub open spec fn failure_of(kind: QueryKind, nt_status: i32) -> CoreError {
    match kind {
        QueryKind::System => CoreError::QueryUnavailable(nt_status),
        QueryKind::Object => CoreError::QueryFailed(nt_status),
    }
}

/// The step that follows an attempt which returned `nt_status`, after
/// `retries` earlier resizes. A size status asks for a retry while the
/// limit allows one; any other negative status is a failure; everything
/// else is success.
pub open spec fn step_of(kind: QueryKind, retries: u32, nt_status: i32) -> QueryStep {
    if asks_for_more(kind, nt_status) {
        if retries < MAX_RETRIES {
            QueryStep::Retry
        } else {
            QueryStep::Failed(CoreError::QueryUnstable)
        }
    } else if nt_status < 0 {
        QueryStep::Failed(failure_of(kind, nt_status))
    } else {
        QueryStep::Filled
    }
}

/// A buffer resized to `len` bytes: cut off there, or filled up with
/// zeros.
pub open spec fn resized(buffer: Seq<u8>, len: nat) -> Seq<u8> {
    Seq::new(len, |i: int| if i < buffer.len() { buffer[i] } else { 0u8 })
}

impl GrowableQuery {
    /// A query that has not been attempted, with a zeroed buffer of
    /// `initial_len` bytes.
    pub fn new(initial_len: usize) -> (query: Self)
        ensures
            query.buffer@ == resized(Seq::empty(), initial_len as nat),
            query.retries == 0,
    {
        let mut buffer: Vec<u8> = Vec::new();
        buffer.resize(initial_len, 0u8);
        assert(buffer@ =~= resized(Seq::empty(), initial_len as nat));
        GrowableQuery { buffer, retries: 0 }
    }

    /// Takes the outcome of one attempt: the status and the length that
    /// the query reported. On a size status the buffer is resized to the
    /// reported length, which holds for that moment only, so the next
    /// attempt may ask again; the retry limit bounds how often.
    pub fn advance(&mut self, kind: QueryKind, nt_status: i32, return_len: u32) -> (step: QueryStep)
        ensures
            step == step_of(kind, old(self).retries, nt_status),
            step == QueryStep::Retry ==> final(self).retries == old(self).retries + 1,
            step == QueryStep::Retry ==> final(self).retries <= MAX_RETRIES,
            step == QueryStep::Retry ==> final(self).buffer@ == resized(old(self).buffer@, return_len as nat),
            step != QueryStep::Retry ==> *final(self) == *old(self),
    {
        let too_small: bool = nt_status == STATUS_INFO_LENGTH_MISMATCH || (match kind {
            QueryKind::Object => nt_status == STATUS_BUFFER_OVERFLOW,
            QueryKind::System => false,
        });
        if too_small {
            if self.retries < MAX_RETRIES {
                let ghost before = self.buffer@;
                self.buffer.resize(return_len as usize, 0u8);
                self.retries = self.retries + 1;
                assert(self.buffer@ =~= resized(before, return_len as nat));
                QueryStep::Retry
            } else {
                QueryStep::Failed(CoreError::QueryUnstable)
            }
        } else if status_is_err(nt_status) {
            match kind {
                QueryKind::System => QueryStep::Failed(CoreError::QueryUnavailable(nt_status)),
                QueryKind::Object => QueryStep::Failed(CoreError::QueryFailed(nt_status)),
            }
        } else {
            QueryStep::Filled
        }
    }
}

/// One turn of a system-wide query (handle table, process table): only a
/// length mismatch asks for a larger buffer, any other negative status
/// ends the scan with `QueryUnavailable`.
pub fn nt_query_information_loop(query: &mut GrowableQuery, nt_status: i32, return_len: u32) -> (step:
    QueryStep)
    ensures
        step == step_of(QueryKind::System, old(query).retries, nt_status),
        step == QueryStep::Retry ==> final(query).retries == old(query).retries + 1,
        step == QueryStep::Retry ==> final(query).retries <= MAX_RETRIES,
        step == QueryStep::Retry ==> final(query).buffer@ == resized(old(query).buffer@, return_len as nat),
        step != QueryStep::Retry ==> *final(query) == *old(query),
{
    query.advance(QueryKind::System, nt_status, return_len)
}

/// One turn of a query on a single object (its type or its name): a
/// length mismatch and a buffer overflow both ask for a larger buffer,
/// any other negative status fails with `QueryFailed`.
pub fn nt_query_object_loop(query: &mut GrowableQuery, nt_status: i32, return_len: u32) -> (step:
    QueryStep)
    ensures
        step == step_of(QueryKind::Object, old(query).retries, nt_status),
        step == QueryStep::Retry ==> final(query).retries == old(query).retries + 1,
        step == QueryStep::Retry ==> final(query).retries <= MAX_RETRIES,
        step == QueryStep::Retry ==> final(query).buffer@ == resized(old(query).buffer@, return_len as nat),
        step != QueryStep::Retry ==> *final(query) == *old(query),
{
    query.advance(QueryKind::Object, nt_status, return_len)
}

/// A query that is told once that its buffer is too small, and then
/// succeeds, ends filled, with a buffer of exactly the length that was
/// reported as required.
pub proof fn lemma_grow_once_then_filled(
    kind: QueryKind,
    buffer: Seq<u8>,
    too_small: i32,
    required: u32,
    success: i32,
)
    requires
        asks_for_more(kind, too_small),
        success >= 0,
    ensures
        step_of(kind, 0, too_small) == QueryStep::Retry,
        resized(buffer, required as nat).len() == required,
        step_of(kind, 1, success) == QueryStep::Filled,
{
}

/// A negative status that is no size status fails at once, however
/// often the buffer has grown before, and never asks for a retry.
pub proof fn lemma_failure_is_immediate(kind: QueryKind, retries: u32, nt_status: i32)
    requires
        nt_status < 0,
        !asks_for_more(kind, nt_status),
    ensures
        step_of(kind, retries, nt_status) == QueryStep::Failed(failure_of(kind, nt_status)),
{
}

/// No query is retried more often than the limit allows: a retry is
/// only asked for while fewer resizes than the limit have been made.
pub proof fn lemma_retries_are_bounded(kind: QueryKind, retries: u32, nt_status: i32)
    requires
        step_of(kind, retries, nt_status) == QueryStep::Retry,
    ensures
        retries < MAX_RETRIES,
{
}

} // verus!
