use vstd::prelude::*;

verus! {

/// Width, in bytes, of a well-formed party identity (a 32-byte key hash).
pub const IDENTITY_LEN: usize = 32;

/// The caller's declared intent when spending a bounty record: the only two
/// ways the record can be unlocked.
#[derive(Clone, Copy, Debug, PartialEq, Eq, Structural)]
pub enum BountySpell {
    /// The designated hunter collects the funds.
    Claim,
    /// The creator takes the funds back, legal only strictly after the deadline.
    Refund,
}

/// Why an evaluation rejected a proposed spend. Every kind is terminal: the
/// spend is rejected outright, and no rejection is ever downgraded to an
/// acceptance. The caller-facing verdict is accept/reject; these kinds exist
/// so the host can diagnose a rejection.
#[derive(Clone, Copy, Debug, PartialEq, Eq, Structural)]
pub enum EvalError {
    /// The stored record is malformed: an identity of the wrong width or a
    /// zero amount.
    StateDecode,
    /// The spend payload is neither a claim nor a refund.
    ActionDecode,
    /// The spend is not authorized by exactly the required party.
    Authorization,
    /// A refund was attempted at or before the deadline.
    Timelock,
    /// A well-formedness re-check failed on an already-decoded record; kept as
    /// defense in depth behind the decode gate.
    Invariant,
}

/// The escrow state persisted in the bounty record.
///
/// The identity fields hold raw bytes as the host decoded them, so a value of
/// this type may be malformed; [`BountyState::wf`] says what a well-formed
/// record is, and the validators re-check it rather than trust it.
#[derive(Clone, Debug, PartialEq, Eq)]
pub struct BountyState {
    /// The party that funded the bounty, entitled to a refund after expiry.
    pub creator: Vec<u8>,
    /// The only party entitled to claim the funds.
    pub hunter: Vec<u8>,
    /// Chain height (or timestamp) strictly after which refund becomes legal.
    pub deadline: u64,
    /// Funds held by the record, in the smallest settlement unit.
    pub amount: u64,
}

impl BountyState {
    /// A record is well formed when both identities are exactly
    /// [`IDENTITY_LEN`] bytes wide and it holds a positive amount.
    pub open spec fn wf(self) -> bool {
        self.creator@.len() == IDENTITY_LEN
            && self.hunter@.len() == IDENTITY_LEN
            && self.amount > 0
    }
}

/// Read-only spend evidence the host derives from the enclosing transaction.
/// The validator never mutates it; it only reads which identities proved they
/// authorized the spend and the transaction's effective time reference.
#[derive(Clone, Debug)]
pub struct TxContext {
    /// The identities that have validly signed/authorized this spend.
    pub authorizers: Vec<Vec<u8>>,
    /// The transaction's effective time reference (chain height or timestamp),
    /// comparable to a record's deadline.
    pub time: u64,
}

} // verus!
