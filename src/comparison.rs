use vstd::prelude::*;

verus! {

/// Bytes of a transaction signature.
pub const SIGNATURE_LEN: usize = 64;

/// The outcome of one leg of a two-endpoint comparison: the signature, the
/// slot seen before sending, the slot the transaction landed in, and the
/// milliseconds from sending to confirmation. A leg that timed out carries
/// the "no result" value: an all-zero signature and zeros.
#[derive(Clone, Debug)]
pub struct ConfirmationSlotResult {
    pub signature: Vec<u8>,
    pub slot_sent: u64,
    pub slot_landed: u64,
    pub send_duration_ms: u64,
}

pub open spec fn zero_signature() -> Seq<u8> {
    Seq::new(SIGNATURE_LEN as nat, |i: int| 0u8)
}

impl ConfirmationSlotResult {
    pub open spec fn spec_is_no_result(&self) -> bool {
        &&& self.signature@ == zero_signature()
        &&& self.slot_sent == 0
        &&& self.slot_landed == 0
        &&& self.send_duration_ms == 0
    }

    /// The "no result" value of a leg that timed out.
    pub fn no_result() -> (r: Self)
        ensures
            r.spec_is_no_result(),
    {
        let mut signature: Vec<u8> = Vec::new();
        let mut i: usize = 0;
        while i < SIGNATURE_LEN
            invariant
                i <= SIGNATURE_LEN,
                signature@.len() == i,
                forall|j: int| 0 <= j < i ==> #[trigger] signature@[j] == 0u8,
            decreases SIGNATURE_LEN - i,
        {
            signature.push(0u8);
            i = i + 1;
        }
        assert(signature@ =~= zero_signature());
        ConfirmationSlotResult { signature, slot_sent: 0, slot_landed: 0, send_duration_ms: 0 }
    }

    /// Whether this is the "no result" value.
    pub fn is_no_result(&self) -> (r: bool)
        ensures
            r == self.spec_is_no_result(),
    {
        if self.slot_sent != 0 || self.slot_landed != 0 || self.send_duration_ms != 0 {
            return false;
        }
        if self.signature.len() != SIGNATURE_LEN {
            return false;
        }
        let mut i: usize = 0;
        while i < self.signature.len()
            invariant
                i <= self.signature@.len(),
                self.signature@.len() == SIGNATURE_LEN,
                forall|j: int| 0 <= j < i ==> #[trigger] self.signature@[j] == 0u8,
            decreases self.signature@.len() - i,
        {
            if self.signature[i] != 0 {
                return false;
            }
            i = i + 1;
        }
        assert(self.signature@ =~= zero_signature());
        true
    }

    /// Whether the leg goes to the stats sink: every leg but a timed-out one.
    pub fn should_report(&self) -> (r: bool)
        ensures
            r == !self.spec_is_no_result(),
    {
        !self.is_no_result()
    }
}

/// What a single-signature poll does next.
#[derive(Clone, Copy, Debug, PartialEq, Eq, Structural)]
pub enum SingleStep {
    /// Ask the endpoint once more whether the signature is confirmed.
    Query,
    /// The deadline has passed: the leg ends with "no result".
    TimedOut,
}

/// Checked before each status query of a single-signature poll: it times out
/// once `timeout_ms` have elapsed since sending, never before.
pub fn single_poll_step(elapsed_ms: u64, timeout_ms: u64) -> (r: SingleStep)
    ensures
        r == SingleStep::TimedOut <==> elapsed_ms >= timeout_ms,
        r == SingleStep::Query <==> elapsed_ms < timeout_ms,
{
    if elapsed_ms >= timeout_ms {
        SingleStep::TimedOut
    } else {
        SingleStep::Query
    }
}

} // verus!
