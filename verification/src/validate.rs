use vstd::prelude::*;

use crate::state::{BountySpell, BountyState, EvalError, TxContext, IDENTITY_LEN};

verus! {

/// Canonical one-byte spend payload selecting the claim action.
pub const CLAIM_TAG: u8 = 0;

/// Canonical one-byte spend payload selecting the refund action.
pub const REFUND_TAG: u8 = 1;

/// The spend evidence attests that exactly `id` authorized it: the evidence is
/// non-empty and every authorizer in it is `id`. An empty set, a different
/// party, or a mixed set all fail.
pub open spec fn exactly_authorized(auths: Seq<Vec<u8>>, id: Seq<u8>) -> bool {
    auths.len() > 0 && forall|i: int| 0 <= i < auths.len() ==> auths[i]@ == id
}

/// A stored record with these fields decodes into a well-formed
/// [`BountyState`]: both identities exactly [`IDENTITY_LEN`] bytes wide and a
/// positive amount.
pub open spec fn spec_state_ok(creator: Seq<u8>, hunter: Seq<u8>, amount: u64) -> bool {
    creator.len() == IDENTITY_LEN && hunter.len() == IDENTITY_LEN && amount > 0
}

/// What a spend payload decodes to: one of the two known one-byte tags, or
/// nothing at all.
pub open spec fn spec_decode_action(payload: Seq<u8>) -> Option<BountySpell> {
    if payload.len() == 1 && payload[0] == CLAIM_TAG {
        Some(BountySpell::Claim)
    } else if payload.len() == 1 && payload[0] == REFUND_TAG {
        Some(BountySpell::Refund)
    } else {
        None
    }
}

/// The claim rule: the hunter identity must be well formed, and the spend must
/// be authorized by exactly the hunter. Claiming is legal at any time; only
/// refunds are gated on the deadline.
pub open spec fn spec_claim_check(hunter: Seq<u8>, auths: Seq<Vec<u8>>) -> Result<(), EvalError> {
    if hunter.len() != IDENTITY_LEN {
        Err(EvalError::Invariant)
    } else if !exactly_authorized(auths, hunter) {
        Err(EvalError::Authorization)
    } else {
        Ok(())
    }
}

/// The refund rule: the creator identity must be well formed, the spend must
/// be authorized by exactly the creator, and the transaction's time reference
/// must strictly exceed the deadline.
pub open spec fn spec_refund_check(
    creator: Seq<u8>,
    deadline: u64,
    auths: Seq<Vec<u8>>,
    time: u64,
) -> Result<(), EvalError> {
    if creator.len() != IDENTITY_LEN {
        Err(EvalError::Invariant)
    } else if !exactly_authorized(auths, creator) {
        Err(EvalError::Authorization)
    } else if time <= deadline {
        Err(EvalError::Timelock)
    } else {
        Ok(())
    }
}

/// The whole evaluation, as a mathematical function of its inputs: decode the
/// state, decode the action, then dispatch to exactly one of the two rules.
/// Every gate failure rejects the whole spend.
pub open spec fn spec_evaluate(
    creator: Seq<u8>,
    hunter: Seq<u8>,
    deadline: u64,
    amount: u64,
    payload: Seq<u8>,
    auths: Seq<Vec<u8>>,
    time: u64,
) -> Result<(), EvalError> {
    if !spec_state_ok(creator, hunter, amount) {
        Err(EvalError::StateDecode)
    } else {
        match spec_decode_action(payload) {
            None => Err(EvalError::ActionDecode),
            Some(BountySpell::Claim) => spec_claim_check(hunter, auths),
            Some(BountySpell::Refund) => spec_refund_check(creator, deadline, auths, time),
        }
    }
}

/// Byte-for-byte equality of two byte strings.
fn bytes_eq(a: &Vec<u8>, b: &Vec<u8>) -> (r: bool)
    ensures
        r == (a@ == b@),
{
    if a.len() != b.len() {
        return false;
    }
    let mut i: usize = 0;
    while i < a.len()
        invariant
            i <= a.len(),
            a.len() == b.len(),
            forall|j: int| 0 <= j < i ==> a@[j] == b@[j],
        decreases a.len() - i,
    {
        if a[i] != b[i] {
            return false;
        }
        i += 1;
    }
    proof {
        assert(a@ =~= b@);
    }
    true
}

/// Does the evidence attest that exactly `id` authorized the spend?
fn authorized_exactly(auths: &Vec<Vec<u8>>, id: &Vec<u8>) -> (r: bool)
    ensures
        r == exactly_authorized(auths@, id@),
{
    if auths.len() == 0 {
        return false;
    }
    let mut i: usize = 0;
    while i < auths.len()
        invariant
            auths.len() > 0,
            i <= auths.len(),
            forall|j: int| 0 <= j < i ==> auths@[j]@ == id@,
        decreases auths.len() - i,
    {
        if !bytes_eq(&auths[i], id) {
            return false;
        }
        i += 1;
    }
    true
}

/// Decode gate for the stored record: accepts the fields as the host read
/// them and yields a well-formed [`BountyState`], or rejects the spend.
pub fn decode_state(creator: Vec<u8>, hunter: Vec<u8>, deadline: u64, amount: u64) -> (r: Result<
    BountyState,
    EvalError,
>)
    ensures
        r is Ok <==> spec_state_ok(creator@, hunter@, amount),
        r matches Ok(s) ==> s.creator@ == creator@ && s.hunter@ == hunter@ && s.deadline
            == deadline && s.amount == amount && s.wf(),
        r matches Err(e) ==> e == EvalError::StateDecode,
{
    if creator.len() != IDENTITY_LEN || hunter.len() != IDENTITY_LEN || amount == 0 {
        return Err(EvalError::StateDecode);
    }
    Ok(BountyState { creator, hunter, deadline, amount })
}

/// Decode gate for the spend payload: exactly one byte naming one of the two
/// actions; anything else — a third tag, an empty payload, trailing bytes —
/// is rejected.
pub fn decode_action(payload: &Vec<u8>) -> (r: Result<BountySpell, EvalError>)
    ensures
        r == match spec_decode_action(payload@) {
            Some(spell) => Result::<BountySpell, EvalError>::Ok(spell),
            None => Result::<BountySpell, EvalError>::Err(EvalError::ActionDecode),
        },
{
    if payload.len() == 1 {
        let tag = payload[0];
        if tag == CLAIM_TAG {
            return Ok(BountySpell::Claim);
        }
        if tag == REFUND_TAG {
            return Ok(BountySpell::Refund);
        }
    }
    Err(EvalError::ActionDecode)
}

/// The canonical payload for a given action: the single byte that
/// [`decode_action`] maps back to the same action, so encoding then decoding
/// round-trips.
pub fn encode_action(spell: BountySpell) -> (r: Vec<u8>)
    ensures
        spec_decode_action(r@) == Some(spell),
{
    let mut payload: Vec<u8> = Vec::new();
    match spell {
        BountySpell::Claim => payload.push(CLAIM_TAG),
        BountySpell::Refund => payload.push(REFUND_TAG),
    }
    payload
}

/// The claim branch: re-checks the hunter identity's width (defense in depth
/// behind the decode gate), then demands that exactly the hunter authorized
/// the spend.
pub fn can_claim(state: &BountyState, ctx: &TxContext) -> (r: Result<(), EvalError>)
    ensures
        r == spec_claim_check(state.hunter@, ctx.authorizers@),
{
    if state.hunter.len() != IDENTITY_LEN {
        return Err(EvalError::Invariant);
    }
    if !authorized_exactly(&ctx.authorizers, &state.hunter) {
        return Err(EvalError::Authorization);
    }
    Ok(())
}

/// The refund branch: re-checks the creator identity's width, demands that
/// exactly the creator authorized the spend, and demands that the
/// transaction's time reference strictly exceeds the deadline.
pub fn can_refund(state: &BountyState, ctx: &TxContext) -> (r: Result<(), EvalError>)
    ensures
        r == spec_refund_check(state.creator@, state.deadline, ctx.authorizers@, ctx.time),
{
    if state.creator.len() != IDENTITY_LEN {
        return Err(EvalError::Invariant);
    }
    if !authorized_exactly(&ctx.authorizers, &state.creator) {
        return Err(EvalError::Authorization);
    }
    if ctx.time <= state.deadline {
        return Err(EvalError::Timelock);
    }
    Ok(())
}

/// The full evaluation pipeline, reporting which gate rejected: decode the
/// record, decode the action, then run exactly one of the two branch rules.
pub fn check_spend(
    creator: Vec<u8>,
    hunter: Vec<u8>,
    deadline: u64,
    amount: u64,
    payload: &Vec<u8>,
    ctx: &TxContext,
) -> (r: Result<(), EvalError>)
    ensures
        r == spec_evaluate(
            creator@,
            hunter@,
            deadline,
            amount,
            payload@,
            ctx.authorizers@,
            ctx.time,
        ),
{
    let state = match decode_state(creator, hunter, deadline, amount) {
        Ok(s) => s,
        Err(e) => {
            return Err(e);
        },
    };
    let spell = match decode_action(payload) {
        Ok(sp) => sp,
        Err(e) => {
            return Err(e);
        },
    };
    match spell {
        BountySpell::Claim => can_claim(&state, ctx),
        BountySpell::Refund => can_refund(&state, ctx),
    }
}

/// The host-facing decision: accept or reject, defined on every input. The
/// host learns only the decision; [`check_spend`] tells the error kinds apart.
pub fn evaluate(
    creator: Vec<u8>,
    hunter: Vec<u8>,
    deadline: u64,
    amount: u64,
    payload: &Vec<u8>,
    ctx: &TxContext,
) -> (b: bool)
    ensures
        b == (spec_evaluate(
            creator@,
            hunter@,
            deadline,
            amount,
            payload@,
            ctx.authorizers@,
            ctx.time,
        ) is Ok),
{
    check_spend(creator, hunter, deadline, amount, payload, ctx).is_ok()
}

/// Law: for every well-formed record and a claim payload, evaluation accepts
/// exactly when the spend was authorized by exactly the record's hunter; any
/// other authorizer set — the creator's, an empty one, a stranger's, or a
/// mixed one — is rejected.
pub proof fn lemma_claim_characterization(
    creator: Seq<u8>,
    hunter: Seq<u8>,
    deadline: u64,
    amount: u64,
    payload: Seq<u8>,
    auths: Seq<Vec<u8>>,
    time: u64,
)
    requires
        spec_state_ok(creator, hunter, amount),
        spec_decode_action(payload) == Some(BountySpell::Claim),
    ensures
        spec_evaluate(creator, hunter, deadline, amount, payload, auths, time) is Ok
            <==> exactly_authorized(auths, hunter),
{
}

/// Law: for every well-formed record and a refund payload, evaluation accepts
/// exactly when the spend was authorized by exactly the record's creator and
/// the transaction's time reference strictly exceeds the deadline; if either
/// condition fails, it rejects.
pub proof fn lemma_refund_characterization(
    creator: Seq<u8>,
    hunter: Seq<u8>,
    deadline: u64,
    amount: u64,
    payload: Seq<u8>,
    auths: Seq<Vec<u8>>,
    time: u64,
)
    requires
        spec_state_ok(creator, hunter, amount),
        spec_decode_action(payload) == Some(BountySpell::Refund),
    ensures
        spec_evaluate(creator, hunter, deadline, amount, payload, auths, time) is Ok
            <==> exactly_authorized(auths, creator) && time > deadline,
{
}

/// Law: a record whose creator or hunter identity is not exactly
/// [`IDENTITY_LEN`] bytes wide is rejected at the decode gate, whatever the
/// payload — claim, refund, or garbage — and whatever the evidence.
pub proof fn lemma_malformed_identity_rejects(
    creator: Seq<u8>,
    hunter: Seq<u8>,
    deadline: u64,
    amount: u64,
    payload: Seq<u8>,
    auths: Seq<Vec<u8>>,
    time: u64,
)
    requires
        creator.len() != IDENTITY_LEN || hunter.len() != IDENTITY_LEN,
    ensures
        spec_evaluate(creator, hunter, deadline, amount, payload, auths, time) == Result::<
            (),
            EvalError,
        >::Err(EvalError::StateDecode),
{
}

/// Law: a payload that names neither claim nor refund is rejected whatever
/// the record holds; when the record itself is well formed, the rejection is
/// the action-decode error.
pub proof fn lemma_unknown_action_rejects(
    creator: Seq<u8>,
    hunter: Seq<u8>,
    deadline: u64,
    amount: u64,
    payload: Seq<u8>,
    auths: Seq<Vec<u8>>,
    time: u64,
)
    requires
        spec_decode_action(payload) is None,
    ensures
        !(spec_evaluate(creator, hunter, deadline, amount, payload, auths, time) is Ok),
        spec_state_ok(creator, hunter, amount) ==> spec_evaluate(
            creator,
            hunter,
            deadline,
            amount,
            payload,
            auths,
            time,
        ) == Result::<(), EvalError>::Err(EvalError::ActionDecode),
{
}

/// Law: evaluation is a pure function of the record, the payload, and the
/// evidence — two evaluations of equal triples yield equal verdicts, so
/// repeating an evaluation can never change its outcome.
pub proof fn lemma_evaluate_deterministic(
    creator1: Seq<u8>,
    hunter1: Seq<u8>,
    deadline1: u64,
    amount1: u64,
    payload1: Seq<u8>,
    auths1: Seq<Vec<u8>>,
    time1: u64,
    creator2: Seq<u8>,
    hunter2: Seq<u8>,
    deadline2: u64,
    amount2: u64,
    payload2: Seq<u8>,
    auths2: Seq<Vec<u8>>,
    time2: u64,
)
    requires
        creator1 == creator2,
        hunter1 == hunter2,
        deadline1 == deadline2,
        amount1 == amount2,
        payload1 == payload2,
        auths1 == auths2,
        time1 == time2,
    ensures
        spec_evaluate(creator1, hunter1, deadline1, amount1, payload1, auths1, time1)
            == spec_evaluate(creator2, hunter2, deadline2, amount2, payload2, auths2, time2),
{
}

} // verus!
