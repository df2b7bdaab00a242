//! The buffer-negotiating converter.
//!
//! A native operation writes into a caller-supplied buffer and answers
//! either a non-negative count of elements written or a negative value
//! whose absolute value is the capacity it would have needed.  The
//! converter turns that convention into a safe protocol: offer an
//! estimated capacity once, and on a short answer reallocate to exactly
//! the reported requirement and try once more.  A second failure is
//! rejected, never retried again.

use vstd::prelude::*;

verus! {

/// What the converter concluded from one native answer.
#[derive(Clone, Copy, Debug, PartialEq, Eq, Structural)]
pub enum NegotiationStatus {
    /// The operation succeeded: the buffer holds exactly `len` leading
    /// valid elements, and nothing beyond them may be read.
    Accept { len: usize },
    /// The first attempt was short: run the operation once more with a
    /// buffer of exactly `required` elements.
    Retry { required: usize },
    /// The attempt after the one permitted retry failed again; the raw
    /// negative code is surfaced.
    Reject { code: i32 },
}

/// The conclusion drawn from the native answer `result`, where `retried`
/// says whether the one permitted retry has already been issued.
pub open spec fn negotiation_outcome(retried: bool, result: i32) -> NegotiationStatus {
    if result >= 0 {
        NegotiationStatus::Accept { len: result as usize }
    } else if !retried {
        NegotiationStatus::Retry { required: (-(result as int)) as usize }
    } else {
        NegotiationStatus::Reject { code: result }
    }
}

/// The retry protocol around one native operation whose output size is
/// unknown ahead of time.
///
/// `capacity` is what the pending attempt is to be offered; `retried`
/// records whether the one permitted reallocation has happened.
pub struct Negotiation {
    /// The capacity for the next (or current) attempt, in elements.
    pub capacity: usize,
    /// Whether the one permitted retry has been issued.
    pub retried: bool,
}

impl Negotiation {
    /// Open the protocol: the first attempt runs with `capacity` elements.
    pub fn begin(capacity: usize) -> (n: Negotiation)
        ensures
            n.capacity == capacity,
            !n.retried,
    {
        Negotiation { capacity, retried: false }
    }

    /// Judge the native answer for the attempt at the current capacity.
    ///
    /// A non-negative answer is accepted as the exact element count.  A
    /// negative answer on the first attempt becomes a retry at exactly
    /// the reported requirement; on the retried attempt it is rejected.
    pub fn step(&mut self, result: i32) -> (s: NegotiationStatus)
        ensures
            s == negotiation_outcome(old(self).retried, result),
            final(self).retried == (old(self).retried || result < 0),
            s matches NegotiationStatus::Retry { required } ==> final(self).capacity
                == required,
            result >= 0 || old(self).retried ==> final(self).capacity == old(self).capacity,
    {
        if result >= 0 {
            NegotiationStatus::Accept { len: result as usize }
        } else if !self.retried {
            let required: usize = (-(result as i64)) as usize;
            self.retried = true;
            self.capacity = required;
            NegotiationStatus::Retry { required }
        } else {
            NegotiationStatus::Reject { code: result }
        }
    }
}

/// The answer of a capacity-probing operation offered `capacity`
/// elements: `written` once the buffer is large enough, and the negated
/// requirement otherwise.
pub open spec fn probe_result(required: int, written: int, capacity: int) -> int {
    if capacity >= required {
        written
    } else {
        -required
    }
}

/// The converter never asks for a third attempt: once the retry has been
/// issued, a further negative answer is rejected, not retried.
pub proof fn lemma_at_most_one_retry(result: i32)
    ensures
        !(negotiation_outcome(true, result) is Retry),
{
}

/// Against an operation that reports `-required` whenever its buffer is
/// smaller than `required` elements and otherwise writes exactly
/// `required` elements, the converter finishes with a correctly-sized
/// result within two invocations of the operation: the first answer is
/// either accepted outright, or turned into exactly one retry at
/// capacity `required`, whose answer is accepted.
pub proof fn lemma_probe_two_invocations(required: usize, estimate: usize)
    requires
        0 < required <= i32::MAX as usize,
    ensures
        ({
            let first = probe_result(required as int, required as int, estimate as int) as i32;
            let second = probe_result(required as int, required as int, required as int) as i32;
            &&& estimate >= required ==> negotiation_outcome(false, first)
                == (NegotiationStatus::Accept { len: required })
            &&& estimate < required ==> negotiation_outcome(false, first)
                == (NegotiationStatus::Retry { required })
            &&& estimate < required ==> negotiation_outcome(true, second)
                == (NegotiationStatus::Accept { len: required })
        }),
{
    let first = probe_result(required as int, required as int, estimate as int) as i32;
    if estimate >= required {
        assert(first == required as i32);
    } else {
        assert(first == -(required as int));
        assert((-(first as int)) as usize == required);
    }
}

} // verus!
