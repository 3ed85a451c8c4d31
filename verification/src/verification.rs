use vstd::prelude::*;
use crate::bytes32::Bytes32;

verus! {

/// What one proof-verification attempt came to. A rejected proof and a
/// verifier call that could not be completed are deliberately folded into the
/// single non-success case: the contract treats both alike.
pub enum VerifyOutcome {
    /// The verifier accepted the proof; the word is its 32-byte result.
    Success(Bytes32),
    /// The proof was rejected, or the verifier could not be reached.
    NonSuccess,
}

/// The payload carried by a [`VerifyOutcome`], if any.
pub open spec fn outcome_payload(o: VerifyOutcome) -> Option<Seq<u8>> {
    match o {
        VerifyOutcome::Success(p) => Some(p@),
        VerifyOutcome::NonSuccess => None,
    }
}

/// The external proof-verification service, as the contract sees it: asked
/// to check a proof blob against a verification-key blob, it answers with a
/// [`VerifyOutcome`]. What a verifier answers is its own affair; the
/// contract's guarantees are stated for every possible answer.
pub trait ProofVerifier {
    /// What this verifier answers for the given key and proof bytes:
    /// `Some` with the 32-byte result when it accepts, `None` otherwise.
    spec fn outcome_of(&self, vk: Seq<u8>, proof: Seq<u8>) -> Option<Seq<u8>>;

    /// Checks `proof` against the verification key `vk`.
    fn verify_proof(&self, vk: &Vec<u8>, proof: &Vec<u8>) -> (r: VerifyOutcome)
        ensures
            match self.outcome_of(vk@, proof@) {
                Some(payload) => {
                    &&& r matches VerifyOutcome::Success(p)
                    &&& p.wf()
                    &&& p@ == payload
                },
                None => r matches VerifyOutcome::NonSuccess,
            },
    ;
}

/// An in-memory verifier that answers every query with one fixed outcome,
/// for driving the escrow deterministically without the live service.
pub struct FixedVerifier {
    accepts: bool,
    payload: Bytes32,
}

impl FixedVerifier {
    #[verifier::type_invariant]
    spec fn inv(&self) -> bool {
        self.accepts ==> self.payload.wf()
    }

    /// A verifier that accepts every proof and answers with `payload`.
    pub fn accepting(payload: Bytes32) -> (r: FixedVerifier)
        requires
            payload.wf(),
        ensures
            forall|vk: Seq<u8>, proof: Seq<u8>| r.outcome_of(vk, proof) == Some(payload@),
    {
        FixedVerifier { accepts: true, payload }
    }

    /// A verifier that rejects every proof.
    pub fn rejecting() -> (r: FixedVerifier)
        ensures
            forall|vk: Seq<u8>, proof: Seq<u8>| r.outcome_of(vk, proof) == Option::<Seq<u8>>::None,
    {
        FixedVerifier { accepts: false, payload: Bytes32::zero() }
    }
}

impl ProofVerifier for FixedVerifier {
    closed spec fn outcome_of(&self, vk: Seq<u8>, proof: Seq<u8>) -> Option<Seq<u8>> {
        if self.accepts {
            Some(self.payload@)
        } else {
            None
        }
    }

    fn verify_proof(&self, vk: &Vec<u8>, proof: &Vec<u8>) -> (r: VerifyOutcome) {
        proof {
            use_type_invariant(self);
        }
        if self.accepts {
            VerifyOutcome::Success(self.payload.duplicate())
        } else {
            VerifyOutcome::NonSuccess
        }
    }
}

} // verus!
