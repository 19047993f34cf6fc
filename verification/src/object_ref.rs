//! What reading a task result through an object reference decides: how the
//! stored bytes are decoded, and how long to wait for bytes that are not
//! there yet.

use crate::error::{error_message, Result, RustyRayError};
use crate::task::system::{encoded_outcome, error_marker};
use crate::types::{decimal_digits, u64_to_decimal, ObjectId};
use vstd::prelude::*;
use vstd::slice::slice_subrange;
use vstd::utf8::{decode_utf8, encode_utf8, encode_utf8_decode_utf8, encode_utf8_valid_utf8, valid_utf8};

verus! {

/// The text that lossy UTF-8 decoding makes of some bytes.
pub uninterp spec fn lossy_text(bytes: Seq<u8>) -> Seq<char>;

/// Decodes bytes as UTF-8, replacing invalid sequences.
///
/// Calls `String::from_utf8_lossy` (and takes the text it returns). Its
/// documentation: valid UTF-8 comes back as the text it encodes; invalid
/// sequences are replaced by U+FFFD. What comes back is a function of the
/// bytes alone.
#[verifier::external_body]
fn utf8_lossy(bytes: &[u8]) -> (s: String)
    ensures
        s@ == lossy_text(bytes@),
        valid_utf8(bytes@) ==> s@ == decode_utf8(bytes@),
{
    String::from_utf8_lossy(bytes).into_owned()
}

/// The bytes begin with the error marker.
pub open spec fn starts_with_marker(bytes: Seq<u8>) -> bool {
    bytes.len() >= error_marker().len() && bytes.subrange(0, error_marker().len() as int) == error_marker()
}

/// Whether the bytes begin with the error marker.
pub fn has_error_marker(bytes: &[u8]) -> (r: bool)
    ensures
        r == starts_with_marker(bytes@),
{
    let marker = crate::task::system::error_marker_bytes();
    if bytes.len() < marker.len() {
        return false;
    }
    let mut i: usize = 0;
    while i < marker.len()
        invariant
            marker@ == error_marker(),
            bytes@.len() >= marker@.len(),
            i <= marker.len(),
            forall|j: int| 0 <= j < i ==> bytes@[j] == marker@[j],
        decreases marker.len() - i,
    {
        if bytes[i] != marker[i] {
            assert(bytes@.subrange(0, marker@.len() as int)[i as int] != error_marker()[i as int]);
            return false;
        }
        i = i + 1;
    }
    assert(bytes@.subrange(0, marker@.len() as int) =~= error_marker());
    true
}

/// The text of a stored error outcome: what follows the marker.
pub open spec fn error_payload(bytes: Seq<u8>) -> Seq<u8> {
    bytes.subrange(error_marker().len() as int, bytes.len() as int)
}

/// Decodes the bytes stored for a task's outcome: bytes that begin with the
/// error marker are an error whose message is the rest of the bytes as text;
/// other bytes are the result itself.
pub fn decode_task_result(bytes: Vec<u8>) -> (r: Result<Vec<u8>>)
    ensures
        starts_with_marker(bytes@) ==> (r matches Err(RustyRayError::Internal(m))
            && m@ == lossy_text(error_payload(bytes@))
            && (valid_utf8(error_payload(bytes@)) ==> m@ == decode_utf8(error_payload(bytes@)))),
        !starts_with_marker(bytes@) ==> (r matches Ok(v) && v@ == bytes@),
{
    if has_error_marker(bytes.as_slice()) {
        let rest = slice_subrange(bytes.as_slice(), 18, bytes.len());
        return Err(RustyRayError::Internal(utf8_lossy(rest)));
    }
    Ok(bytes)
}

/// The number of retries after which a read gives up.
pub const MAX_RETRIES: u32 = 100;

/// The longest wait between retries, in milliseconds.
pub const MAX_DELAY_MS: u64 = 100;

/// The wait before retry `n` (counting from 0): 1 ms, doubling each time,
/// capped at 100 ms.
pub open spec fn backoff(n: nat) -> nat
    decreases n,
{
    if n == 0 {
        1
    } else if 2 * backoff((n - 1) as nat) < 100 {
        2 * backoff((n - 1) as nat)
    } else {
        100
    }
}

/// What a read does after one attempt to fetch the bytes.
#[derive(Debug)]
pub enum FetchStep {
    /// The read is over, with this outcome.
    Deliver(Result<Vec<u8>>),
    /// Wait this many milliseconds, then fetch again.
    Sleep(u64),
}

/// The retry state of a read: how many retries it has made, and how long it
/// waits before the next.
#[derive(Debug, Clone, Copy)]
pub struct RetryPolicy {
    retries: u32,
    delay_ms: u64,
}

pub open spec fn msg_gave_up(id: u64) -> Seq<char> {
    "Object "@ + decimal_digits(id as nat) + " not found after "@ + decimal_digits(100) + " retries"@
}

impl RetryPolicy {
    /// Retries made so far.
    pub closed spec fn retries_made(&self) -> nat {
        self.retries as nat
    }

    /// The wait before the next retry.
    pub closed spec fn next_delay(&self) -> nat {
        self.delay_ms as nat
    }

    /// The policy's invariant: the next wait follows the backoff schedule.
    pub closed spec fn wf(&self) -> bool {
        &&& self.retries <= MAX_RETRIES
        &&& self.delay_ms == backoff(self.retries as nat)
    }

    /// A read that has not retried yet.
    pub fn new() -> (r: Self)
        ensures
            r.wf(),
            r.retries_made() == 0,
            r.next_delay() == 1,
    {
        RetryPolicy { retries: 0, delay_ms: 1 }
    }

    /// Decides what a read does after a fetch of object `id` returned
    /// `fetched`: deliver the decoded bytes if there were any; otherwise wait
    /// and retry, until 100 retries have been made, when the read gives up.
    pub fn on_fetch(&mut self, id: ObjectId, fetched: Option<Vec<u8>>) -> (r: FetchStep)
        requires
            old(self).wf(),
        ensures
            final(self).wf(),
            (match fetched {
                Some(bytes) => *final(self) == *old(self)
                    && (r matches FetchStep::Deliver(out)
                        && (!starts_with_marker(bytes@) ==> (out matches Ok(v) && v@ == bytes@))
                        && (starts_with_marker(bytes@) ==> (out matches Err(RustyRayError::Internal(m))
                            && m@ == lossy_text(error_payload(bytes@))))),
                None => if old(self).retries_made() >= 100 {
                    *final(self) == *old(self)
                        && (r matches FetchStep::Deliver(Err(RustyRayError::Internal(m))) && m@ == msg_gave_up(id.id))
                } else {
                    r == FetchStep::Sleep(old(self).next_delay() as u64)
                        && final(self).retries_made() == old(self).retries_made() + 1
                },
            }),
    {
        match fetched {
            Some(bytes) => FetchStep::Deliver(decode_task_result(bytes)),
            None => {
                if self.retries >= MAX_RETRIES {
                    let mut m = "Object ".to_owned();
                    m.append(u64_to_decimal(id.id).as_str());
                    m.append(" not found after ");
                    m.append(u64_to_decimal(100).as_str());
                    m.append(" retries");
                    return FetchStep::Deliver(Err(RustyRayError::Internal(m)));
                }
                let delay = self.delay_ms;
                self.retries = self.retries + 1;
                self.delay_ms = if delay * 2 < MAX_DELAY_MS { delay * 2 } else { MAX_DELAY_MS };
                FetchStep::Sleep(delay)
            },
        }
    }
}

/// Waits never exceed 100 ms and are at least 1 ms.
pub proof fn law_backoff_bounded(n: nat)
    ensures
        1 <= backoff(n) <= 100,
    decreases n,
{
    if n > 0 {
        law_backoff_bounded((n - 1) as nat);
    }
}

/// The wait doubles after each retry until it reaches the 100 ms cap, and
/// never shrinks: the wait before retry `n + 1` is twice the wait before
/// retry `n`, or 100 ms if that is less.
pub proof fn law_backoff_doubles_to_cap(n: nat)
    ensures
        backoff(n + 1) == (if 2 * backoff(n) < 100 { 2 * backoff(n) } else { 100 }),
        backoff(n) <= backoff(n + 1),
{
    law_backoff_bounded(n);
    assert(backoff(n + 1) == (if 2 * backoff(n) < 100 { 2 * backoff(n) } else { 100nat }));
}

/// The waits are 1, 2, 4, 8, 16, 32 and 64 ms before retries 0 to 6, and
/// from retry 7 on every wait is the full 100 ms.
pub proof fn law_backoff_schedule(n: nat)
    ensures
        n < 7 ==> backoff(n) == seq![1nat, 2, 4, 8, 16, 32, 64][n as int],
        n >= 7 ==> backoff(n) == 100,
    decreases n,
{
    if n > 0 {
        law_backoff_schedule((n - 1) as nat);
    }
}

/// Successive waits of a read follow the schedule: when a read's policy has
/// made one more retry than before, its next wait is twice the previous one,
/// capped at 100 ms.
pub proof fn law_successive_waits(before: RetryPolicy, after: RetryPolicy)
    requires
        before.wf(),
        after.wf(),
        after.retries_made() == before.retries_made() + 1,
    ensures
        after.next_delay() == (if 2 * before.next_delay() < 100 { 2 * before.next_delay() } else { 100 }),
        before.next_delay() <= after.next_delay(),
{
    law_backoff_doubles_to_cap(before.retries_made());
}

/// An error stored as a task's outcome reads back as an internal error
/// carrying the error's text: the stored bytes begin with the marker, and
/// what follows is valid UTF-8 that decodes to the error's message.
pub proof fn law_error_outcome_roundtrip(e: RustyRayError)
    ensures
        starts_with_marker(encoded_outcome(Err(e))),
        valid_utf8(error_payload(encoded_outcome(Err(e)))),
        decode_utf8(error_payload(encoded_outcome(Err(e)))) == error_message(e),
{
    let bytes = encoded_outcome(Err(e));
    assert(bytes.subrange(0, error_marker().len() as int) =~= error_marker());
    assert(error_payload(bytes) =~= encode_utf8(error_message(e)));
    encode_utf8_valid_utf8(error_message(e));
    encode_utf8_decode_utf8(error_message(e));
}

/// A successful outcome is stored as its own bytes and reads back unchanged,
/// as long as those bytes do not begin with the error marker.
pub proof fn law_value_outcome_roundtrip(bytes: Seq<u8>)
    requires
        !starts_with_marker(bytes),
    ensures
        encoded_outcome(Ok(bytes)) == bytes,
        !starts_with_marker(encoded_outcome(Ok(bytes))),
{
}

} // verus!
