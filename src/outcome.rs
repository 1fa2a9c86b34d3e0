//! Errors of the bridge, and the result records that report each boundary
//! call to a foreign caller, with the sentinel values that go with them.
use crate::acks::{AckPoll, NO_ACK_ID};
use vstd::prelude::*;
use vstd::string::StringExecFns;

verus! {

/// Why a bridge operation failed.
#[derive(Debug)]
pub enum IngestError {
    /// A null or malformed argument, detected before any asynchronous step.
    InvalidArgument(String),
    /// A schema descriptor that could not be decoded.
    DecodeError(String),
    /// An acknowledgment id that was never issued or was already consumed.
    InvalidAckId,
    /// A background acknowledgment task that ended without producing a value.
    TaskFailed,
    /// A headers callback entered while another call of it was still running.
    ConcurrentCallbackInvocation,
    /// An error that the foreign headers callback reported, with its message.
    HeadersProvider(String),
    /// An error forwarded from the streaming client.
    Transport { message: String, retryable: bool },
}

/// Offset reported by a blocking await that failed.
pub const AWAIT_FAILED: i64 = -1;

/// Offset reported by a poll that found the task still running.
pub const POLL_PENDING: i64 = -1;

/// Offset reported by a poll that failed: an invalid id or a failed task.
pub const POLL_FAILED: i64 = -2;

impl IngestError {
    /// The message that describes the error.
    pub open spec fn text(&self) -> Seq<char> {
        match self {
            IngestError::InvalidArgument(m) => m@,
            IngestError::DecodeError(m) => m@,
            IngestError::InvalidAckId => "Invalid ack ID"@,
            IngestError::TaskFailed => "Task panicked"@,
            IngestError::ConcurrentCallbackInvocation => "Concurrent headers provider callback detected - Go callback must be thread-safe"@,
            IngestError::HeadersProvider(m) => "Headers provider error: "@ + m@,
            IngestError::Transport { message, .. } => message@,
        }
    }

    /// Only errors of the streaming client can be retryable.
    pub open spec fn retryable(&self) -> bool {
        match self {
            IngestError::Transport { retryable, .. } => *retryable,
            _ => false,
        }
    }

    /// Returns the message that describes the error.
    pub fn message(&self) -> (r: String)
        ensures
            r@ == self.text(),
    {
        match self {
            IngestError::InvalidArgument(m) => m.clone(),
            IngestError::DecodeError(m) => m.clone(),
            IngestError::InvalidAckId => String::from_str("Invalid ack ID"),
            IngestError::TaskFailed => String::from_str("Task panicked"),
            IngestError::ConcurrentCallbackInvocation => String::from_str(
                "Concurrent headers provider callback detected - Go callback must be thread-safe",
            ),
            IngestError::HeadersProvider(m) => String::from_str("Headers provider error: ").concat(
                m.as_str(),
            ),
            IngestError::Transport { message, .. } => message.clone(),
        }
    }

    /// Returns whether retrying the failed operation may succeed.
    pub fn is_retryable(&self) -> (r: bool)
        ensures
            r == self.retryable(),
    {
        match self {
            IngestError::Transport { retryable, .. } => *retryable,
            _ => false,
        }
    }
}

/// A message as a foreign caller can receive it: one with a NUL character
/// cannot cross as a C string, and is replaced by `fallback`.
pub open spec fn c_text(text: Seq<char>, fallback: Seq<char>) -> Seq<char> {
    if text.contains('\0') {
        fallback
    } else {
        text
    }
}

/// Returns whether `s` holds a NUL character.
pub fn has_nul(s: &str) -> (r: bool)
    ensures
        r == s@.contains('\0'),
{
    let mut found = false;
    let ghost mut seen: int = 0;
    for c in it: s.chars()
        invariant
            it.seq() == s@,
            seen == it.index(),
            found == (exists|j: int| 0 <= j < seen && s@[j] == '\0'),
    {
        if c == '\0' {
            found = true;
        }
        proof {
            seen = seen + 1;
        }
    }
    proof {
        if s@.contains('\0') {
            let j = choose|j: int| 0 <= j < s@.len() && s@[j] == '\0';
            assert(0 <= j < seen && s@[j] == '\0');
        }
    }
    found
}

fn c_safe(text: String, fallback: &str) -> (r: String)
    ensures
        r@ == c_text(text@, fallback@),
{
    if has_nul(text.as_str()) {
        String::from_str(fallback)
    } else {
        text
    }
}

/// The record that reports how a boundary call ended. A failed call carries
/// an owned message, which the caller releases exactly once.
#[derive(Debug)]
pub struct CResult {
    pub success: bool,
    pub error_message: Option<String>,
    pub is_retryable: bool,
}

impl CResult {
    /// A record of success carries no message; a record of failure always
    /// carries one.
    pub open spec fn wf(&self) -> bool {
        &&& self.success <==> self.error_message is None
        &&& self.success ==> !self.is_retryable
    }

    /// The record of a failure with `message`, as `write_error_result` or
    /// `error` produce it.
    pub open spec fn is_failure(&self, message: Seq<char>, retryable: bool) -> bool {
        &&& !self.success
        &&& self.error_message is Some
        &&& self.error_message->0@ == message
        &&& self.is_retryable == retryable
    }

    /// The record of success.
    pub fn success() -> (r: CResult)
        ensures
            r.success,
            r.error_message is None,
            !r.is_retryable,
            r.wf(),
    {
        CResult { success: true, error_message: None, is_retryable: false }
    }

    /// The record of `err`; a message that cannot cross as a C string is
    /// replaced by "Unknown error".
    pub fn error(err: IngestError) -> (r: CResult)
        ensures
            r.is_failure(c_text(err.text(), "Unknown error"@), err.retryable()),
            r.wf(),
    {
        let is_retryable = err.is_retryable();
        let message = c_safe(err.message(), "Unknown error");
        CResult { success: false, error_message: Some(message), is_retryable }
    }

    /// Takes the message out of the record, leaving none behind, so that it
    /// is released once and by one owner.
    pub fn take_error_message(&mut self) -> (r: Option<String>)
        ensures
            r == old(self).error_message,
            final(self).error_message is None,
            final(self).success == old(self).success,
            final(self).is_retryable == old(self).is_retryable,
    {
        self.error_message.take()
    }
}

/// Overwrites `result` with the record of a failure with `message`; a message
/// that cannot cross as a C string is replaced by "Error message contains null
/// byte".
pub fn write_error_result(result: &mut CResult, message: &str, is_retryable: bool)
    ensures
        final(result).is_failure(
            c_text(message@, "Error message contains null byte"@),
            is_retryable,
        ),
        final(result).wf(),
{
    let text = c_safe(message.to_owned(), "Error message contains null byte");
    *result = CResult { success: false, error_message: Some(text), is_retryable };
}

/// Overwrites `result` with the record of success.
pub fn write_success_result(result: &mut CResult)
    ensures
        final(result).success,
        final(result).error_message is None,
        !final(result).is_retryable,
{
    *result = CResult::success();
}

/// What a submission reports: the new id, or `NO_ACK_ID` and the error.
pub fn submit_reply(outcome: Result<u64, IngestError>) -> (r: (u64, CResult))
    ensures
        r.1.wf(),
        match outcome {
            Ok(id) => r.0 == id && r.1.success,
            Err(e) => r.0 == NO_ACK_ID && r.1.is_failure(c_text(e.text(), "Unknown error"@), e.retryable()),
        },
{
    match outcome {
        Ok(id) => (id, CResult::success()),
        Err(e) => (NO_ACK_ID, CResult::error(e)),
    }
}

/// What a call without a value (flush, close) reports: whether it succeeded,
/// and its record.
pub fn status_reply(outcome: Result<(), IngestError>) -> (r: (bool, CResult))
    ensures
        r.1.wf(),
        r.0 == outcome is Ok,
        match outcome {
            Ok(_) => r.1.success,
            Err(e) => r.1.is_failure(c_text(e.text(), "Unknown error"@), e.retryable()),
        },
{
    match outcome {
        Ok(_) => (true, CResult::success()),
        Err(e) => (false, CResult::error(e)),
    }
}

/// The outcome of a blocking await, given what was taken out of the registry
/// and, where something was, the outcome of its task.
pub fn await_outcome(taken: Option<Result<i64, IngestError>>) -> (r: Result<i64, IngestError>)
    ensures
        match taken {
            Some(outcome) => r == outcome,
            None => r == Err::<i64, IngestError>(IngestError::InvalidAckId),
        },
{
    match taken {
        Some(outcome) => outcome,
        None => Err(IngestError::InvalidAckId),
    }
}

/// What a blocking await reports: the offset, or `AWAIT_FAILED` and the error.
pub fn await_reply(outcome: Result<i64, IngestError>) -> (r: (i64, CResult))
    ensures
        r.1.wf(),
        match outcome {
            Ok(offset) => r.0 == offset && r.1.success,
            Err(e) => r.0 == AWAIT_FAILED && r.1.is_failure(c_text(e.text(), "Unknown error"@), e.retryable()),
        },
{
    match outcome {
        Ok(offset) => (offset, CResult::success()),
        Err(e) => (AWAIT_FAILED, CResult::error(e)),
    }
}

/// What a non-blocking poll reports: the offset or a sentinel, whether the
/// acknowledgment was ready, and the record. A pending task is a success that
/// is not ready; an id that is not registered is a failure that is not ready.
pub fn poll_reply(poll: AckPoll<Result<i64, IngestError>>) -> (r: (i64, bool, CResult))
    ensures
        r.2.wf(),
        r.1 == poll is Ready,
        match poll {
            AckPoll::Pending => r.0 == POLL_PENDING && r.2.success,
            AckPoll::Ready(Ok(offset)) => r.0 == offset && r.2.success,
            AckPoll::Ready(Err(e)) => r.0 == POLL_FAILED && r.2.is_failure(
                c_text(e.text(), "Unknown error"@),
                e.retryable(),
            ),
            AckPoll::Invalid => r.0 == POLL_FAILED && r.2.is_failure(
                c_text("Invalid ack ID"@, "Unknown error"@),
                false,
            ),
        },
{
    match poll {
        AckPoll::Pending => (POLL_PENDING, false, CResult::success()),
        AckPoll::Ready(Ok(offset)) => (offset, true, CResult::success()),
        AckPoll::Ready(Err(e)) => (POLL_FAILED, true, CResult::error(e)),
        AckPoll::Invalid => (POLL_FAILED, false, CResult::error(IngestError::InvalidAckId)),
    }
}

} // verus!
