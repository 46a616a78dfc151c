//! The result envelope a boundary call returns: success with an opaque
//! payload handle, or failure with an error record.
//!
//! An envelope is a two-field record of pointer-sized handles. Exactly one of
//! `ok` and `err` is non-null in a meaningful result, except the explicit
//! "success with no value" state where both are null. Every constructor
//! allocates on the caller's behalf and transfers ownership of everything it
//! allocated; the caller releases the parts innermost first: the error
//! record's message, then the error record, the payload through its
//! type-specific release, and finally the envelope itself.

use vstd::prelude::*;
use vstd::utf8::encode_utf8;

use crate::memory::{heap_frame, heap_frame2, heap_frame3, released, Allocation, Heap};
use crate::string::{foreign_text_value, string_to_c_char, CharBuffer};

verus! {

/// Error codes communicating the category of a failure across the boundary.
/// The order of the variants is stable and append-only, because a variant's
/// position is its integer tag on the other side of the boundary.
#[derive(Clone, Copy, Debug, PartialEq, Eq, Structural)]
pub enum ErrorCode {
    /// Generic error for cases that fit no other category.
    Other,
    /// Authentication or authorization failed.
    AuthenticationError,
    /// Input validation failed.
    ValidationError,
    /// A requested resource or item was not found.
    NotFoundError,
    /// The operation is not permitted with the caller's permissions.
    PermissionError,
    /// The operation timed out.
    TimeoutError,
    /// A network operation failed.
    NetworkError,
    /// An invalid argument was passed.
    InvalidArgumentError,
    /// An input or output operation failed.
    IoError,
}

/// An error record: an error code and the handle of an owned, nullable
/// message buffer. A non-null message is a null-terminated text buffer owned
/// by this record alone.
#[derive(Clone, Copy, Debug)]
pub struct ExternError {
    pub code: ErrorCode,
    pub message: usize,
}

/// A result envelope: an opaque payload handle (or null) and an error record
/// handle (or null). A non-null `err` implies a null `ok`.
#[derive(Clone, Copy, Debug)]
pub struct ExternResult {
    pub ok: usize,
    pub err: usize,
}

/// The payload handle of the envelope at `h`.
pub open spec fn payload_handle<T>(heap: Heap<T>, h: usize) -> usize {
    match heap.alloc_at(h) {
        Allocation::Envelope(env) => env.ok,
        _ => 0,
    }
}

/// The error record handle of the envelope at `h`.
pub open spec fn error_handle<T>(heap: Heap<T>, h: usize) -> usize {
    match heap.alloc_at(h) {
        Allocation::Envelope(env) => env.err,
        _ => 0,
    }
}

/// The message buffer handle of the error record at `h`.
pub open spec fn message_handle<T>(heap: Heap<T>, h: usize) -> usize {
    match heap.alloc_at(h) {
        Allocation::ErrorRecord(rec) => rec.message,
        _ => 0,
    }
}

/// What constructing a success envelope with a payload value does: two fresh
/// allocations, the payload and the envelope; the envelope's `ok` addresses
/// the payload, its `err` is null, and nothing else changed.
pub open spec fn ok_post<T>(pre: Heap<T>, post: Heap<T>, h: usize, value: T) -> bool {
    &&& h != 0
    &&& !pre.live(h)
    &&& post.live(h)
    &&& post.alloc_at(h) matches Allocation::Envelope(env)
    &&& env.err == 0
    &&& env.ok != 0
    &&& env.ok != h
    &&& !pre.live(env.ok)
    &&& post.live(env.ok)
    &&& post.alloc_at(env.ok) == Allocation::Value(value)
    &&& post.n_live() == pre.n_live() + 2
    &&& heap_frame2(pre, post, env.ok, h)
}

/// What adopting an existing payload handle does: one fresh allocation, the
/// envelope, whose `ok` is exactly the adopted handle and whose `err` is
/// null; nothing else changed.
pub open spec fn ok_ptr_post<T>(pre: Heap<T>, post: Heap<T>, h: usize, payload: usize) -> bool {
    &&& h != 0
    &&& !pre.live(h)
    &&& post.live(h)
    &&& post.alloc_at(h) == Allocation::<T>::Envelope(ExternResult { ok: payload, err: 0 })
    &&& post.n_live() == pre.n_live() + 1
    &&& heap_frame(pre, post, h)
}

/// What constructing a success envelope without a value does: one fresh
/// allocation, an envelope with both fields null.
pub open spec fn ok_null_post<T>(pre: Heap<T>, post: Heap<T>, h: usize) -> bool {
    ok_ptr_post(pre, post, h, 0)
}

/// What constructing a failure envelope does: three fresh allocations — the
/// message buffer, holding the marshalled message, the error record, holding
/// the code and the message handle, and the envelope, whose `ok` is null and
/// whose `err` addresses the record; nothing else changed.
pub open spec fn err_post<T>(
    pre: Heap<T>,
    post: Heap<T>,
    h: usize,
    code: ErrorCode,
    msg: Seq<char>,
) -> bool {
    &&& h != 0
    &&& !pre.live(h)
    &&& post.live(h)
    &&& post.alloc_at(h) matches Allocation::Envelope(env)
    &&& env.ok == 0
    &&& env.err != 0
    &&& env.err != h
    &&& !pre.live(env.err)
    &&& post.live(env.err)
    &&& post.alloc_at(env.err) matches Allocation::ErrorRecord(rec)
    &&& rec.code == code
    &&& rec.message != 0
    &&& rec.message != h
    &&& rec.message != env.err
    &&& !pre.live(rec.message)
    &&& post.live(rec.message)
    &&& post.alloc_at(rec.message) matches Allocation::Text(buf)
    &&& buf.text() == encode_utf8(msg)
    &&& foreign_text_value(buf.text()) == msg
    &&& post.n_live() == pre.n_live() + 3
    &&& heap_frame3(pre, post, rec.message, env.err, h)
}

/// What adapting a native result does. A success allocates the payload and
/// returns an envelope value with `err` null; a failure allocates the message
/// buffer and an error record with code [`ErrorCode::Other`] and returns an
/// envelope value with `ok` null. The envelope itself is returned by value,
/// not allocated.
pub open spec fn from_result_post<T>(
    pre: Heap<T>,
    post: Heap<T>,
    r: ExternResult,
    result: Result<T, String>,
) -> bool {
    match result {
        Ok(value) => {
            &&& r.err == 0
            &&& r.ok != 0
            &&& !pre.live(r.ok)
            &&& post.live(r.ok)
            &&& post.alloc_at(r.ok) == Allocation::Value(value)
            &&& post.n_live() == pre.n_live() + 1
            &&& heap_frame(pre, post, r.ok)
        },
        Err(e) => {
            &&& r.ok == 0
            &&& r.err != 0
            &&& !pre.live(r.err)
            &&& post.live(r.err)
            &&& post.alloc_at(r.err) matches Allocation::ErrorRecord(rec)
            &&& rec.code == ErrorCode::Other
            &&& rec.message != 0
            &&& rec.message != r.err
            &&& !pre.live(rec.message)
            &&& post.live(rec.message)
            &&& post.alloc_at(rec.message) matches Allocation::Text(buf)
            &&& buf.text() == encode_utf8(e@)
            &&& foreign_text_value(buf.text()) == e@
            &&& post.n_live() == pre.n_live() + 2
            &&& heap_frame2(pre, post, rec.message, r.err)
        },
    }
}

impl ExternResult {
    /// Success: allocates storage for the value and wraps its handle in a
    /// fresh envelope.
    pub fn ok<T>(heap: &mut Heap<T>, result: T) -> (h: usize)
        ensures
            ok_post(*old(heap), *final(heap), h, result),
    {
        let payload = heap.alloc_value(result);
        Self::ok_ptr(heap, payload)
    }

    /// Success with an already-allocated payload: adopts the handle as-is,
    /// without re-allocation.
    pub fn ok_ptr<T>(heap: &mut Heap<T>, result: usize) -> (h: usize)
        ensures
            ok_ptr_post(*old(heap), *final(heap), h, result),
    {
        heap.allocate(Allocation::Envelope(ExternResult { ok: result, err: 0 }))
    }

    /// Success with no value: both fields null.
    pub fn ok_null<T>(heap: &mut Heap<T>) -> (h: usize)
        ensures
            ok_null_post(*old(heap), *final(heap), h),
    {
        heap.allocate(Allocation::Envelope(ExternResult { ok: 0, err: 0 }))
    }

    /// Success with an optional value: a held value is wrapped exactly as
    /// [`ExternResult::ok`] wraps it, an absent one exactly as
    /// [`ExternResult::ok_null`] represents it.
    pub fn ok_optional<T>(heap: &mut Heap<T>, result: Option<T>) -> (h: usize)
        ensures
            match result {
                Some(value) => ok_post(*old(heap), *final(heap), h, value),
                None => ok_null_post(*old(heap), *final(heap), h),
            },
    {
        match result {
            Some(value) => Self::ok(heap, value),
            None => Self::ok_null(heap),
        }
    }

    /// Failure: allocates the marshalled message, an error record carrying
    /// `code` and the message handle, and the envelope addressing the record.
    pub fn err<T>(heap: &mut Heap<T>, code: ErrorCode, msg: &str) -> (h: usize)
        requires
            !msg@.contains('\0'),
        ensures
            err_post(*old(heap), *final(heap), h, code, msg@),
    {
        proof {
            crate::string::lemma_marshalling_round_trip(msg@);
        }
        let buf = string_to_c_char(msg);
        let message = heap.alloc_text(buf);
        let error = heap.allocate(Allocation::ErrorRecord(ExternError { code, message }));
        heap.allocate(Allocation::Envelope(ExternResult { ok: 0, err: error }))
    }

    /// Adapts a native result into an envelope value: a success becomes a
    /// wrapped payload, a failure becomes an error record with code
    /// [`ErrorCode::Other`] and the failure's display text as its message.
    pub fn from_result<T>(heap: &mut Heap<T>, result: Result<T, String>) -> (r: ExternResult)
        requires
            result matches Err(e) ==> !e@.contains('\0'),
        ensures
            from_result_post(*old(heap), *final(heap), r, result),
    {
        match result {
            Ok(value) => {
                let payload = heap.alloc_value(value);
                ExternResult { ok: payload, err: 0 }
            },
            Err(e) => {
                proof {
                    crate::string::lemma_marshalling_round_trip(e@);
                }
                let buf = string_to_c_char(e.as_str());
                let message = heap.alloc_text(buf);
                let error = heap.allocate(Allocation::ErrorRecord(
                    ExternError { code: ErrorCode::Other, message },
                ));
                ExternResult { ok: 0, err: error }
            },
        }
    }
}

/// Releases an error record allocation. The record's message buffer must be
/// released separately, through the text-buffer release, before the record.
/// A null handle is a no-op.
pub fn free_extern_error<T>(heap: &mut Heap<T>, h: usize)
    requires
        h == 0 || (old(heap).live(h) && old(heap).alloc_at(h) is ErrorRecord),
    ensures
        released(*old(heap), *final(heap), h),
{
    if h != 0 {
        heap.free(h);
    }
}

/// Releases a result envelope allocation. It does not release the payload or
/// the error record the envelope addresses: the payload's type is erased, so
/// the caller must release those through their own release functions first.
/// A null handle is a no-op.
pub fn extern_result_destroy<T>(heap: &mut Heap<T>, h: usize)
    requires
        h == 0 || (old(heap).live(h) && old(heap).alloc_at(h) is Envelope),
    ensures
        released(*old(heap), *final(heap), h),
{
    if h != 0 {
        heap.free(h);
    }
}

/// Law: constructing a success envelope and then releasing the payload and
/// the envelope, each exactly once and innermost first, leaves the
/// outstanding allocations exactly as they were.
pub proof fn lemma_success_release_balance<T>(
    h0: Heap<T>,
    h1: Heap<T>,
    h2: Heap<T>,
    h3: Heap<T>,
    env: usize,
    value: T,
)
    requires
        ok_post(h0, h1, env, value),
        released(h1, h2, payload_handle(h1, env)),
        released(h2, h3, env),
    ensures
        h3.n_live() == h0.n_live(),
        forall|h: usize| h3.live(h) == h0.live(h),
        forall|h: usize| h0.live(h) ==> h3.alloc_at(h) == h0.alloc_at(h),
{
    let p = payload_handle(h1, env);
    assert(p != 0);
    assert forall|h: usize| h3.live(h) == h0.live(h) by {
        if h == p || h == env {
            assert(!h3.live(h));
            assert(!h0.live(h));
        }
    }
    assert forall|h: usize| h0.live(h) implies h3.alloc_at(h) == h0.alloc_at(h) by {
        assert(h != p && h != env);
    }
}

/// Law: constructing a failure envelope and then releasing the message
/// buffer, the error record and the envelope, each exactly once and
/// innermost first, leaves the outstanding allocations exactly as they were.
pub proof fn lemma_failure_release_balance<T>(
    h0: Heap<T>,
    h1: Heap<T>,
    h2: Heap<T>,
    h3: Heap<T>,
    h4: Heap<T>,
    env: usize,
    code: ErrorCode,
    msg: Seq<char>,
)
    requires
        err_post(h0, h1, env, code, msg),
        released(h1, h2, message_handle(h1, error_handle(h1, env))),
        released(h2, h3, error_handle(h1, env)),
        released(h3, h4, env),
    ensures
        h4.n_live() == h0.n_live(),
        forall|h: usize| h4.live(h) == h0.live(h),
        forall|h: usize| h0.live(h) ==> h4.alloc_at(h) == h0.alloc_at(h),
{
    let e = error_handle(h1, env);
    let m = message_handle(h1, e);
    assert(e != 0 && m != 0);
    assert forall|h: usize| h4.live(h) == h0.live(h) by {
        if h == m || h == e || h == env {
            assert(!h4.live(h));
            assert(!h0.live(h));
        }
    }
    assert forall|h: usize| h0.live(h) implies h4.alloc_at(h) == h0.alloc_at(h) by {
        assert(h != m && h != e && h != env);
    }
}

} // verus!
