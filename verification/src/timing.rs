//! When a call was sent and when its response came in.

use crate::timestamps::UtcInstant;
use vstd::prelude::*;

verus! {

/// The two instants of a call. The response never precedes the request.
#[derive(Clone, Copy, Debug, PartialEq, Eq, Structural)]
pub struct CallTiming {
    sent_at: UtcInstant,
    received_at: UtcInstant,
}

impl CallTiming {
    #[verifier::type_invariant]
    spec fn in_order(self) -> bool {
        Self::ordered(self.sent_at, self.received_at)
    }

    /// Whether a response at `received_at` may belong to a request at
    /// `sent_at`: it does not precede it.
    pub open spec fn ordered(sent_at: UtcInstant, received_at: UtcInstant) -> bool {
        sent_at.nanos_since_epoch() <= received_at.nanos_since_epoch()
    }

    /// The timing made of two instants.
    pub closed spec fn timing_of(sent_at: UtcInstant, received_at: UtcInstant) -> CallTiming {
        CallTiming { sent_at, received_at }
    }

    /// A timing holds the instants it was made of.
    pub proof fn lemma_timing_of(sent_at: UtcInstant, received_at: UtcInstant)
        ensures
            Self::timing_of(sent_at, received_at).sent_at() == sent_at,
            Self::timing_of(sent_at, received_at).received_at() == received_at,
    {
    }

    /// When the request was sent.
    pub closed spec fn spec_sent_at(self) -> UtcInstant {
        self.sent_at
    }

    /// When the response was received.
    pub closed spec fn spec_received_at(self) -> UtcInstant {
        self.received_at
    }

    /// Whole milliseconds between request and response.
    pub open spec fn elapsed_ms(self) -> int {
        (self.received_at().nanos_since_epoch() - self.sent_at().nanos_since_epoch()) / 1_000_000
    }

    /// Tests whether the two instants may form a timing.
    pub fn is_ordered(sent_at: UtcInstant, received_at: UtcInstant) -> (ok: bool)
        ensures
            ok == Self::ordered(sent_at, received_at),
    {
        let sent_seconds = sent_at.timestamp();
        let sent_nanos = sent_at.timestamp_subsec_nanos();
        let received_seconds = received_at.timestamp();
        let received_nanos = received_at.timestamp_subsec_nanos();
        if sent_seconds == received_seconds {
            sent_nanos <= received_nanos
        } else {
            sent_seconds < received_seconds
        }
    }

    /// The timing of a call sent at `sent_at` and answered at `received_at`.
    pub fn new(sent_at: UtcInstant, received_at: UtcInstant) -> (timing: CallTiming)
        requires
            Self::ordered(sent_at, received_at),
        ensures
            timing == Self::timing_of(sent_at, received_at),
            timing.sent_at() == sent_at,
            timing.received_at() == received_at,
    {
        CallTiming { sent_at, received_at }
    }

    #[verifier::when_used_as_spec(spec_sent_at)]
    pub fn sent_at(self) -> (instant: UtcInstant)
        ensures
            instant == self.spec_sent_at(),
    {
        self.sent_at
    }

    #[verifier::when_used_as_spec(spec_received_at)]
    pub fn received_at(self) -> (instant: UtcInstant)
        ensures
            instant == self.spec_received_at(),
            Self::ordered(self.sent_at(), instant),
    {
        proof {
            use_type_invariant(self);
        }
        self.received_at
    }

    /// Whole milliseconds between request and response.
    pub fn duration_ms(self) -> (milliseconds: u64)
        ensures
            milliseconds == self.elapsed_ms(),
    {
        proof {
            use_type_invariant(self);
        }
        let sent_seconds = self.sent_at.timestamp();
        let sent_nanos = self.sent_at.timestamp_subsec_nanos();
        let received_seconds = self.received_at.timestamp();
        let received_nanos = self.received_at.timestamp_subsec_nanos();
        let sent: i128 = (sent_seconds as i128) * 1_000_000_000 + (sent_nanos as i128);
        let received: i128 = (received_seconds as i128) * 1_000_000_000 + (received_nanos as i128);
        ((received - sent) / 1_000_000) as u64
    }

    /// No timing has its response before its request: such a pair of
    /// instants fails `ordered`, which is all that `new` demands and what
    /// `is_ordered` tests, and no other pair fails it.
    pub proof fn lemma_reversed_instants_rejected(sent_at: UtcInstant, received_at: UtcInstant)
        ensures
            received_at.nanos_since_epoch() < sent_at.nanos_since_epoch() <==> !Self::ordered(
                sent_at,
                received_at,
            ),
    {
    }
}

} // verus!
