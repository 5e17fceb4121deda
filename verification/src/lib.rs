//! A state-transition validator for a two-party, timelocked escrow held as a
//! single on-chain record (a "bounty").
//!
//! A creator funds an amount earmarked for one designated hunter. The record
//! can be unlocked in exactly one of two ways: the hunter claims the funds at
//! any time, or — strictly after the deadline — the creator reclaims them.
//! The heart of the crate is a pure decision function: given the record's
//! fields, the spend payload, and the evidence the host derived from the
//! enclosing transaction, decide whether the spend is permitted. Every gate
//! (state decode, action decode, authorization, timelock) is load-bearing:
//! no path accepts without all of its checks having passed.

mod state;
mod validate;

pub use state::{BountySpell, BountyState, EvalError, TxContext, IDENTITY_LEN};
pub use validate::{
    can_claim, can_refund, check_spend, decode_action, decode_state, encode_action, evaluate,
    exactly_authorized, lemma_claim_characterization, lemma_evaluate_deterministic,
    lemma_malformed_identity_rejects, lemma_refund_characterization,
    lemma_unknown_action_rejects, spec_claim_check, spec_decode_action, spec_evaluate,
    spec_refund_check, spec_state_ok, CLAIM_TAG, REFUND_TAG,
};
