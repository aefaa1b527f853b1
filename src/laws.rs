//! Properties of the signing state machine that hold for every record,
//! stated over the model that the operations' contracts use.

use vstd::prelude::*;

use crate::cx::{CxView, Party, SignOutcome};

verus! {

/// A commitment without an expiry is never expired, at any instant.
pub proof fn lemma_no_expiry_never_expires(c: CxView, t: int)
    requires
        c.expires_at is None,
    ensures
        !c.is_expired(t),
{
}

/// A commitment is fully signed exactly when both party signatures are
/// present; in a consistent record this is also when the full signature is
/// present.
pub proof fn lemma_fully_signed_iff_both_signed(c: CxView)
    ensures
        c.is_fully_signed() <==> (c.party_a_signed_at is Some && c.party_b_signed_at is Some),
        c.wf() ==> (c.is_fully_signed() <==> c.fully_signed_at is Some),
{
}

/// A commitment as constructed, with neither party signed, is not fully
/// signed.
pub proof fn lemma_unsigned_is_not_fully_signed(c: CxView)
    requires
        c.party_a_signed_at is None,
        c.party_b_signed_at is None,
    ensures
        !c.is_fully_signed(),
{
}

/// Signing is idempotent: once a party's valid signature was accepted at
/// `t1`, presenting the same credential again at `t2` changes nothing (the
/// signature keeps its instant) and, before expiry, reports the party as
/// already signed.
pub proof fn lemma_sign_twice_is_idempotent(
    c: CxView,
    party: Party,
    credential: Seq<char>,
    t1: int,
    t2: int,
)
    requires
        c.wf(),
        c.sign_outcome(party, credential, t1) == SignOutcome::Signed,
    ensures
        ({
            let once = c.after_sign(party, credential, t1);
            &&& once.signed_at(party) == Some(t1)
            &&& once.after_sign(party, credential, t2) == once
            &&& !once.is_expired(t2) ==> once.sign_outcome(party, credential, t2)
                == SignOutcome::AlreadySigned
            &&& !once.is_expired(t2) ==> once.sign_outcome(party, credential, t2).is_signed()
        }),
{
}

/// Expiry comes first: at or after the expiry instant every attempt, by
/// either party and with any credential, fails as expired and changes
/// nothing.
pub proof fn lemma_expired_sign_changes_nothing(
    c: CxView,
    party: Party,
    credential: Seq<char>,
    now: int,
)
    requires
        c.is_expired(now),
    ensures
        c.sign_outcome(party, credential, now) == SignOutcome::Expired,
        !c.sign_outcome(party, credential, now).is_signed(),
        c.after_sign(party, credential, now) == c,
{
}

/// A credential that does not match the party's reference is rejected and
/// records neither the party's signature nor a full signature.
pub proof fn lemma_mismatch_is_rejected(c: CxView, party: Party, credential: Seq<char>, now: int)
    requires
        c.wf(),
        c.signed_at(party) is None,
        credential != c.credential_ref(party),
    ensures
        !c.sign_outcome(party, credential, now).is_signed(),
        c.after_sign(party, credential, now).signed_at(party) is None,
        c.after_sign(party, credential, now).fully_signed_at is None,
{
}

/// The second signature completes the commitment at once: with A signed,
/// B's valid signature before expiry records both B's signature and the full
/// signature at the same instant, which is no earlier than A's when time has
/// not gone backwards.
pub proof fn lemma_second_signature_completes(c: CxView, credential: Seq<char>, now: int)
    requires
        c.wf(),
        c.party_a_signed_at is Some,
        c.party_b_signed_at is None,
        credential == c.party_b_credential_ref,
        !c.is_expired(now),
        c.party_a_signed_at.unwrap() <= now,
    ensures
        ({
            let after = c.after_sign(Party::B, credential, now);
            &&& c.sign_outcome(Party::B, credential, now) == SignOutcome::Signed
            &&& after.party_b_signed_at == Some(now)
            &&& after.fully_signed_at == Some(now)
            &&& after.is_fully_signed()
            &&& after.party_a_signed_at == c.party_a_signed_at
            &&& c.party_a_signed_at.unwrap() <= after.fully_signed_at.unwrap()
        }),
{
}

/// Every signing attempt keeps the record consistent, and never changes a
/// signature that was already present.
pub proof fn lemma_sign_preserves_record(c: CxView, party: Party, credential: Seq<char>, now: int)
    requires
        c.wf(),
    ensures
        ({
            let after = c.after_sign(party, credential, now);
            &&& after.wf()
            &&& c.party_a_signed_at is Some ==> after.party_a_signed_at == c.party_a_signed_at
            &&& c.party_b_signed_at is Some ==> after.party_b_signed_at == c.party_b_signed_at
            &&& c.fully_signed_at is Some ==> after.fully_signed_at == c.fully_signed_at
        }),
{
}

} // verus!
