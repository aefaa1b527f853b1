//! The commitment record and its signing state machine.

use vstd::prelude::*;

use crate::ident::{is_random_id, random_id};
use crate::timestamp::Timestamp;

verus! {

/// One of the two signers of a commitment.
#[derive(Clone, Copy, Debug, PartialEq, Eq, Structural, Hash)]
pub enum Party {
    /// The party that signs from (the initiating side).
    A,
    /// The party that is signed to (the counterparty).
    B,
}

/// What a signing attempt came to.
#[derive(Clone, Copy, Debug, PartialEq, Eq, Structural, Hash)]
pub enum SignOutcome {
    /// The party's signature was recorded by this call.
    Signed,
    /// The party had signed before; nothing changed.
    AlreadySigned,
    /// The commitment had expired; nothing changed.
    Expired,
    /// The presented credential does not match the party's reference; nothing changed.
    CredentialMismatch,
}

impl SignOutcome {
    /// The party is signed once the attempt is over.
    pub open spec fn spec_is_signed(&self) -> bool {
        *self is Signed || *self is AlreadySigned
    }

    /// Whether the party is signed once the attempt is over.
    #[verifier::when_used_as_spec(spec_is_signed)]
    pub fn is_signed(&self) -> (r: bool)
        ensures
            r == self.spec_is_signed(),
    {
        match self {
            SignOutcome::Signed | SignOutcome::AlreadySigned => true,
            _ => false,
        }
    }
}

/// The mathematical model of a commitment: identifiers, credential
/// references as character sequences, and instants as integers.
pub struct CxView {
    /// The commitment's own identifier.
    pub id: u128,
    /// The record that this commitment backs, if any.
    pub owner_reference: Option<u128>,
    pub party_a_id: u128,
    pub party_b_id: u128,
    pub party_a_credential_ref: Seq<char>,
    pub party_b_credential_ref: Seq<char>,
    pub created_at: int,
    /// `None` when the commitment never expires.
    pub expires_at: Option<int>,
    pub party_a_signed_at: Option<int>,
    pub party_b_signed_at: Option<int>,
    pub fully_signed_at: Option<int>,
}

impl CxView {
    /// The record is consistent: it is fully signed exactly when both parties
    /// have signed, and then at the instant of one of the two signatures (the
    /// one that completed it).
    pub open spec fn wf(self) -> bool {
        &&& self.fully_signed_at is Some <==> (self.party_a_signed_at is Some
            && self.party_b_signed_at is Some)
        &&& self.fully_signed_at matches Some(t) ==> (self.party_a_signed_at == Some(t)
            || self.party_b_signed_at == Some(t))
    }

    pub open spec fn signed_at(self, party: Party) -> Option<int> {
        match party {
            Party::A => self.party_a_signed_at,
            Party::B => self.party_b_signed_at,
        }
    }

    pub open spec fn credential_ref(self, party: Party) -> Seq<char> {
        match party {
            Party::A => self.party_a_credential_ref,
            Party::B => self.party_b_credential_ref,
        }
    }

    /// No signature is accepted at or after the expiry instant.
    pub open spec fn is_expired(self, now: int) -> bool {
        match self.expires_at {
            None => false,
            Some(e) => now >= e,
        }
    }

    pub open spec fn is_fully_signed(self) -> bool {
        self.party_a_signed_at is Some && self.party_b_signed_at is Some
    }

    /// `party` may still sign at `now`.
    pub open spec fn can_sign(self, party: Party, now: int) -> bool {
        !self.is_expired(now) && self.signed_at(party) is None
    }

    /// The outcome of `party` presenting `presented` at `now`: expiry is
    /// checked first, then an earlier signature, then the credential.
    pub open spec fn sign_outcome(self, party: Party, presented: Seq<char>, now: int) -> SignOutcome {
        if self.is_expired(now) {
            SignOutcome::Expired
        } else if self.signed_at(party) is Some {
            SignOutcome::AlreadySigned
        } else if presented != self.credential_ref(party) {
            SignOutcome::CredentialMismatch
        } else {
            SignOutcome::Signed
        }
    }

    /// The record with `party`'s signature taken at `now`; when that makes
    /// both parties signed, it is fully signed at `now` too.
    pub open spec fn with_signature(self, party: Party, now: int) -> CxView {
        let a = if party == Party::A { Some(now) } else { self.party_a_signed_at };
        let b = if party == Party::B { Some(now) } else { self.party_b_signed_at };
        CxView {
            party_a_signed_at: a,
            party_b_signed_at: b,
            fully_signed_at: if a is Some && b is Some { Some(now) } else { self.fully_signed_at },
            ..self
        }
    }

    /// The record after `party` presented `presented` at `now`: changed only
    /// when the attempt is `Signed`.
    pub open spec fn after_sign(self, party: Party, presented: Seq<char>, now: int) -> CxView {
        if self.sign_outcome(party, presented, now) is Signed {
            self.with_signature(party, now)
        } else {
            self
        }
    }
}

/// An optional instant as an optional integer count of milliseconds.
pub open spec fn opt_instant(t: Option<Timestamp>) -> Option<int> {
    match t {
        None => None,
        Some(t) => Some(t.millis as int),
    }
}

/// A commitment between two parties, binding once both have signed.
#[derive(Debug)]
pub struct Cx {
    id: u128,
    owner_reference: Option<u128>,
    party_a_id: u128,
    party_b_id: u128,
    party_a_credential_ref: String,
    party_b_credential_ref: String,
    created_at: Timestamp,
    expires_at: Option<Timestamp>,
    party_a_signed_at: Option<Timestamp>,
    party_b_signed_at: Option<Timestamp>,
    fully_signed_at: Option<Timestamp>,
}

impl View for Cx {
    type V = CxView;

    closed spec fn view(&self) -> CxView {
        CxView {
            id: self.id,
            owner_reference: self.owner_reference,
            party_a_id: self.party_a_id,
            party_b_id: self.party_b_id,
            party_a_credential_ref: self.party_a_credential_ref@,
            party_b_credential_ref: self.party_b_credential_ref@,
            created_at: self.created_at.millis as int,
            expires_at: opt_instant(self.expires_at),
            party_a_signed_at: opt_instant(self.party_a_signed_at),
            party_b_signed_at: opt_instant(self.party_b_signed_at),
            fully_signed_at: opt_instant(self.fully_signed_at),
        }
    }
}

/// Whether `presented` matches the credential reference `stored`.
fn credential_matches(stored: &String, presented: &String) -> (r: bool)
    ensures
        r == (stored@ == presented@),
{
    *stored == *presented
}

impl Cx {
    /// A commitment with every field given: not signed by either party.
    pub fn create(
        id: u128,
        owner_reference: Option<u128>,
        party_a_id: u128,
        party_b_id: u128,
        party_a_credential_ref: String,
        party_b_credential_ref: String,
        created_at: Timestamp,
        expires_at: Option<Timestamp>,
    ) -> (r: Cx)
        ensures
            r@ == (CxView {
                id,
                owner_reference,
                party_a_id,
                party_b_id,
                party_a_credential_ref: party_a_credential_ref@,
                party_b_credential_ref: party_b_credential_ref@,
                created_at: created_at.millis as int,
                expires_at: opt_instant(expires_at),
                party_a_signed_at: None,
                party_b_signed_at: None,
                fully_signed_at: None,
            }),
            r@.wf(),
    {
        Cx {
            id,
            owner_reference,
            party_a_id,
            party_b_id,
            party_a_credential_ref,
            party_b_credential_ref,
            created_at,
            expires_at,
            party_a_signed_at: None,
            party_b_signed_at: None,
            fully_signed_at: None,
        }
    }

    /// A commitment backing the record `ref_id`, between `sign_from` (party A)
    /// and `sign_to` (party B), with a fresh random identifier, created now,
    /// never expiring, and with empty credential references.
    pub fn new(ref_id: u128, sign_from: u128, sign_to: u128) -> (r: Cx)
        ensures
            r@ == (CxView {
                id: r@.id,
                owner_reference: Some(ref_id),
                party_a_id: sign_from,
                party_b_id: sign_to,
                party_a_credential_ref: Seq::empty(),
                party_b_credential_ref: Seq::empty(),
                created_at: r@.created_at,
                expires_at: None,
                party_a_signed_at: None,
                party_b_signed_at: None,
                fully_signed_at: None,
            }),
            is_random_id(r@.id),
            r@.created_at >= 0,
            r@.wf(),
    {
        let id = random_id();
        let created_at = Timestamp::now();
        Cx::create(id, Some(ref_id), sign_from, sign_to, String::new(), String::new(), created_at, None)
    }

    /// A commitment rebuilt from all of its fields, as when it is read back
    /// from storage. `None` when the fields are inconsistent: a full signature
    /// without both party signatures, both party signatures without a full
    /// one, or a full signature at neither party's instant.
    pub fn restore(
        id: u128,
        owner_reference: Option<u128>,
        party_a_id: u128,
        party_b_id: u128,
        party_a_credential_ref: String,
        party_b_credential_ref: String,
        created_at: Timestamp,
        expires_at: Option<Timestamp>,
        party_a_signed_at: Option<Timestamp>,
        party_b_signed_at: Option<Timestamp>,
        fully_signed_at: Option<Timestamp>,
    ) -> (r: Option<Cx>)
        ensures
            ({
                let v = CxView {
                    id,
                    owner_reference,
                    party_a_id,
                    party_b_id,
                    party_a_credential_ref: party_a_credential_ref@,
                    party_b_credential_ref: party_b_credential_ref@,
                    created_at: created_at.millis as int,
                    expires_at: opt_instant(expires_at),
                    party_a_signed_at: opt_instant(party_a_signed_at),
                    party_b_signed_at: opt_instant(party_b_signed_at),
                    fully_signed_at: opt_instant(fully_signed_at),
                };
                &&& r is Some <==> v.wf()
                &&& r matches Some(c) ==> c@ == v
            }),
    {
        let consistent = match (party_a_signed_at, party_b_signed_at, fully_signed_at) {
            (Some(a), Some(b), Some(f)) => f.millis == a.millis || f.millis == b.millis,
            (Some(_), Some(_), None) => false,
            (_, _, Some(_)) => false,
            _ => true,
        };
        if !consistent {
            return None;
        }
        Some(
            Cx {
                id,
                owner_reference,
                party_a_id,
                party_b_id,
                party_a_credential_ref,
                party_b_credential_ref,
                created_at,
                expires_at,
                party_a_signed_at,
                party_b_signed_at,
                fully_signed_at,
            },
        )
    }

    /// `party` presents `credential` at `now`. Expiry is checked first, then
    /// whether the party signed before, then the credential; only a `Signed`
    /// outcome changes the record, recording the party's signature at `now`
    /// and, when the other party had signed already, the full signature at
    /// `now` too.
    pub fn sign_as(&mut self, party: Party, credential: &String, now: Timestamp) -> (r: SignOutcome)
        requires
            old(self)@.wf(),
        ensures
            r == old(self)@.sign_outcome(party, credential@, now.millis as int),
            final(self)@ == old(self)@.after_sign(party, credential@, now.millis as int),
            final(self)@.wf(),
    {
        if self.is_expired(now) {
            return SignOutcome::Expired;
        }
        let (signed_before, matches) = match party {
            Party::A => (
                self.party_a_signed_at.is_some(),
                credential_matches(&self.party_a_credential_ref, credential),
            ),
            Party::B => (
                self.party_b_signed_at.is_some(),
                credential_matches(&self.party_b_credential_ref, credential),
            ),
        };
        if signed_before {
            return SignOutcome::AlreadySigned;
        }
        if !matches {
            return SignOutcome::CredentialMismatch;
        }
        match party {
            Party::A => self.party_a_signed_at = Some(now),
            Party::B => self.party_b_signed_at = Some(now),
        }
        if self.party_a_signed_at.is_some() && self.party_b_signed_at.is_some() {
            self.fully_signed_at = Some(now);
        }
        SignOutcome::Signed
    }

    /// Whether the commitment has expired at `now`: never when it has no
    /// expiry, else when `now` is at or past the expiry instant.
    pub fn is_expired(&self, now: Timestamp) -> (r: bool)
        ensures
            r == self@.is_expired(now.millis as int),
    {
        match self.expires_at {
            None => false,
            Some(e) => now.millis >= e.millis,
        }
    }
    /// Whether both parties have signed.
    pub fn is_fully_signed(&self) -> (r: bool)
        ensures
            r == self@.is_fully_signed(),
    {
        self.party_a_signed_at.is_some() && self.party_b_signed_at.is_some()
    }

    /// Whether `party` may still sign at `now`: the commitment has not expired
    /// and that party has not signed yet.
    pub fn can_sign(&self, party: Party, now: Timestamp) -> (r: bool)
        ensures
            r == self@.can_sign(party, now.millis as int),
    {
        let signed_before = match party {
            Party::A => self.party_a_signed_at.is_some(),
            Party::B => self.party_b_signed_at.is_some(),
        };
        !self.is_expired(now) && !signed_before
    }

    /// Whether the commitment has not expired, by the system clock.
    pub fn is_current(&self) -> (r: bool)
        ensures
            exists|t: int| 0 <= t && r == !#[trigger] self@.is_expired(t),
            self@.expires_at is None ==> r,
    {
        let now = Timestamp::now();
        !self.is_expired(now)
    }

    /// Whether the commitment has expired, by the system clock.
    pub fn is_not_current(&self) -> (r: bool)
        ensures
            exists|t: int| 0 <= t && r == #[trigger] self@.is_expired(t),
            self@.expires_at is None ==> !r,
    {
        let now = Timestamp::now();
        self.is_expired(now)
    }

    /// Whether party A may still sign, by the system clock.
    pub fn can_sign_from(&self) -> (r: bool)
        ensures
            exists|t: int| 0 <= t && r == #[trigger] self@.can_sign(Party::A, t),
            self@.party_a_signed_at is Some ==> !r,
    {
        let now = Timestamp::now();
        self.can_sign(Party::A, now)
    }

    /// Whether party B may still sign, by the system clock.
    pub fn can_sign_to(&self) -> (r: bool)
        ensures
            exists|t: int| 0 <= t && r == #[trigger] self@.can_sign(Party::B, t),
            self@.party_b_signed_at is Some ==> !r,
    {
        let now = Timestamp::now();
        self.can_sign(Party::B, now)
    }

    /// Whether party A can no longer sign, by the system clock.
    pub fn can_not_sign_from(&self) -> (r: bool)
        ensures
            exists|t: int| 0 <= t && r == !#[trigger] self@.can_sign(Party::A, t),
            self@.party_a_signed_at is Some ==> r,
    {
        !self.can_sign_from()
    }

    /// Whether party B can no longer sign, by the system clock.
    pub fn can_not_sign_to(&self) -> (r: bool)
        ensures
            exists|t: int| 0 <= t && r == !#[trigger] self@.can_sign(Party::B, t),
            self@.party_b_signed_at is Some ==> r,
    {
        !self.can_sign_to()
    }

    /// Party A presents `credential` at the time read from the system clock,
    /// as `sign_as` does; the result tells whether A is signed afterwards.
    pub fn sign_as_from(&mut self, credential: String) -> (r: bool)
        requires
            old(self)@.wf(),
        ensures
            exists|t: int|
                0 <= t && r == (#[trigger] old(self)@.sign_outcome(Party::A, credential@, t)).is_signed()
                    && final(self)@ == old(self)@.after_sign(Party::A, credential@, t),
            final(self)@.wf(),
    {
        let now = Timestamp::now();
        let outcome = self.sign_as(Party::A, &credential, now);
        outcome.is_signed()
    }

    /// Party B presents `credential` at the time read from the system clock,
    /// as `sign_as` does; the result tells whether B is signed afterwards.
    pub fn sign_as_to(&mut self, credential: String) -> (r: bool)
        requires
            old(self)@.wf(),
        ensures
            exists|t: int|
                0 <= t && r == (#[trigger] old(self)@.sign_outcome(Party::B, credential@, t)).is_signed()
                    && final(self)@ == old(self)@.after_sign(Party::B, credential@, t),
            final(self)@.wf(),
    {
        let now = Timestamp::now();
        let outcome = self.sign_as(Party::B, &credential, now);
        outcome.is_signed()
    }
    pub fn id(&self) -> (r: u128)
        ensures
            r == self@.id,
    {
        self.id
    }

    pub fn owner_reference(&self) -> (r: Option<u128>)
        ensures
            r == self@.owner_reference,
    {
        self.owner_reference
    }

    pub fn party_id(&self, party: Party) -> (r: u128)
        ensures
            r == (match party {
                Party::A => self@.party_a_id,
                Party::B => self@.party_b_id,
            }),
    {
        match party {
            Party::A => self.party_a_id,
            Party::B => self.party_b_id,
        }
    }

    pub fn credential_ref(&self, party: Party) -> (r: &str)
        ensures
            r@ == self@.credential_ref(party),
    {
        match party {
            Party::A => self.party_a_credential_ref.as_str(),
            Party::B => self.party_b_credential_ref.as_str(),
        }
    }

    pub fn created_at(&self) -> (r: Timestamp)
        ensures
            r.millis == self@.created_at,
    {
        self.created_at
    }

    pub fn expires_at(&self) -> (r: Option<Timestamp>)
        ensures
            opt_instant(r) == self@.expires_at,
    {
        self.expires_at
    }

    /// When `party` signed, if it has.
    pub fn signed_at(&self, party: Party) -> (r: Option<Timestamp>)
        ensures
            opt_instant(r) == self@.signed_at(party),
    {
        match party {
            Party::A => self.party_a_signed_at,
            Party::B => self.party_b_signed_at,
        }
    }

    /// When the commitment became fully signed, if it has.
    pub fn fully_signed_at(&self) -> (r: Option<Timestamp>)
        ensures
            opt_instant(r) == self@.fully_signed_at,
    {
        self.fully_signed_at
    }
}

/// Two commitments are equal when their identifiers are.
impl PartialEq for Cx {
    fn eq(&self, other: &Cx) -> (r: bool) {
        self.id == other.id
    }
}

impl vstd::std_specs::cmp::PartialEqSpecImpl for Cx {
    open spec fn obeys_eq_spec() -> bool {
        true
    }

    open spec fn eq_spec(&self, other: &Cx) -> bool {
        self@.id == other@.id
    }
}

impl Eq for Cx {}

/// Commitments are ordered by creation time, and by identifier among those
/// created at the same instant.
pub open spec fn creation_order(a: CxView, b: CxView) -> std::cmp::Ordering {
    if a.created_at < b.created_at {
        std::cmp::Ordering::Less
    } else if a.created_at > b.created_at {
        std::cmp::Ordering::Greater
    } else if a.id < b.id {
        std::cmp::Ordering::Less
    } else if a.id > b.id {
        std::cmp::Ordering::Greater
    } else {
        std::cmp::Ordering::Equal
    }
}

impl PartialOrd for Cx {
    fn partial_cmp(&self, other: &Cx) -> (r: Option<std::cmp::Ordering>) {
        if self.created_at.millis < other.created_at.millis {
            Some(std::cmp::Ordering::Less)
        } else if self.created_at.millis > other.created_at.millis {
            Some(std::cmp::Ordering::Greater)
        } else if self.id < other.id {
            Some(std::cmp::Ordering::Less)
        } else if self.id > other.id {
            Some(std::cmp::Ordering::Greater)
        } else {
            Some(std::cmp::Ordering::Equal)
        }
    }
}

impl vstd::std_specs::cmp::PartialOrdSpecImpl for Cx {
    open spec fn obeys_partial_cmp_spec() -> bool {
        true
    }

    open spec fn partial_cmp_spec(&self, other: &Cx) -> Option<std::cmp::Ordering> {
        Some(creation_order(self@, other@))
    }
}

} // verus!
