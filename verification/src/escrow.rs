use vstd::prelude::*;
use crate::auth::AuthContext;
use crate::bytes32::Bytes32;
use crate::bytes32::all_zero;
use crate::bytes32::copy_bytes;
use crate::errors::Error;
use crate::ledger::Ledger;
use crate::ledger::transferred;
use crate::verification::ProofVerifier;
use crate::verification::VerifyOutcome;

verus! {

/// Smallest-denomination units in one whole unit of the native asset.
pub const UNIT: i128 = 10;

/// The fixed, non-refundable fee for one claim attempt: one whole unit of
/// the native asset, in its smallest denomination. Charging it before the
/// verifier is consulted deters spamming the verifier with junk proofs.
pub const ATTEMPT_FEE: i128 = UNIT;

/// Whole units the admin moves into the prize pool at construction.
pub const INITIAL_FUNDING_UNITS: u64 = 10;

/// `amount` whole units of the native asset in its smallest denomination.
pub fn to_base_units(amount: u64) -> (r: i128)
    ensures
        r == amount * UNIT,
{
    (amount as i128) * UNIT
}

/// The escrow contract's own persistent state: the identity of its asset
/// account, the admin identity once one is stored, and the current puzzle
/// once one is stored. The prize pool is not stored here — it is the asset
/// balance of `address()`, read from the ledger on demand.
pub struct GuessThePuzzle {
    contract_address: u64,
    admin: Option<u64>,
    puzzle: Option<Vec<u8>>,
}

/// The full relation one claim attempt leaves between the ledger before
/// (`pre`) and after (`post`), the returned value `r`, and the verifier's
/// answer `outcome`, with `guesser_authorized` telling whether the guesser's
/// authorization proof was present:
///
/// - without authorization, or when the fee cannot be collected, nothing
///   moves and the attempt aborts;
/// - a collected fee is never refunded, whatever follows;
/// - on a non-success answer the attempt returns the all-zero word;
/// - on a success answer the whole pool — fee included — goes to the
///   guesser, who nets exactly the pool as it stood before the attempt.
pub open spec fn verify_transition(
    pre: Ledger,
    post: Ledger,
    r: Result<Bytes32, Error>,
    contract: u64,
    guesser: u64,
    guesser_authorized: bool,
    outcome: Option<Seq<u8>>,
) -> bool {
    if !guesser_authorized {
        r == Err::<Bytes32, Error>(Error::NotAuthorized) && post == pre
    } else if !pre.can_transfer(guesser, contract, ATTEMPT_FEE as int) {
        r == Err::<Bytes32, Error>(Error::FeeTransferFailed) && post == pre
    } else {
        let fee_paid = if guesser == contract {
            pre.balance_of(guesser)
        } else {
            pre.balance_of(guesser) - ATTEMPT_FEE
        };
        let pool = if guesser == contract {
            pre.balance_of(contract)
        } else {
            pre.balance_of(contract) + ATTEMPT_FEE
        };
        let others_kept = forall|a: u64|
            a != guesser && a != contract ==> post.balance_of(a) == pre.balance_of(a);
        match outcome {
            None => {
                &&& (r matches Ok(p) && all_zero(p@))
                &&& post.balance_of(guesser) == fee_paid
                &&& post.balance_of(contract) == pool
                &&& others_kept
            },
            Some(payload) => {
                if pool == 0 {
                    &&& r == Err::<Bytes32, Error>(Error::NoBalanceToTransfer)
                    &&& post.balance_of(guesser) == fee_paid
                    &&& post.balance_of(contract) == pool
                    &&& others_kept
                } else if guesser != contract && fee_paid + pool > i128::MAX {
                    &&& r == Err::<Bytes32, Error>(Error::PayoutTransferFailed)
                    &&& post.balance_of(guesser) == fee_paid
                    &&& post.balance_of(contract) == pool
                    &&& others_kept
                } else {
                    &&& (r matches Ok(p) && p@ == payload)
                    &&& post.balance_of(guesser) == if guesser == contract {
                        pre.balance_of(guesser)
                    } else {
                        fee_paid + pool
                    }
                    &&& post.balance_of(contract) == if guesser == contract {
                        pre.balance_of(contract)
                    } else {
                        0
                    }
                    &&& others_kept
                }
            },
        }
    }
}

impl GuessThePuzzle {
    /// The identity of the contract's own asset account.
    pub closed spec fn address(&self) -> u64 {
        self.contract_address
    }

    /// The stored admin identity, if one was ever set.
    pub closed spec fn admin_id(&self) -> Option<u64> {
        self.admin
    }

    /// The stored puzzle bytes, if a puzzle was ever set.
    pub closed spec fn puzzle_bytes(&self) -> Option<Seq<u8>> {
        match self.puzzle {
            Some(p) => Some(p@),
            None => None,
        }
    }

    /// The `set_admin` transition as a function of the prior state: it
    /// stores the identity when none is stored yet, and otherwise changes
    /// nothing and fails.
    pub closed spec fn spec_set_admin(pre: GuessThePuzzle, admin: u64) -> (
        GuessThePuzzle,
        Result<(), Error>,
    ) {
        if pre.admin is Some {
            (pre, Err(Error::AdminAlreadySet))
        } else {
            (GuessThePuzzle { admin: Some(admin), ..pre }, Ok(()))
        }
    }

    /// What the admin gate answers: the stored admin identity when its
    /// authorization proof is present, and otherwise which check failed.
    pub open spec fn admin_gate(&self, auth: &AuthContext) -> Result<u64, Error> {
        match self.admin_id() {
            None => Err(Error::AdminNotSet),
            Some(a) => if auth.allows(a) {
                Ok(a)
            } else {
                Err(Error::NotAuthorized)
            },
        }
    }

    /// A freshly deployed instance bound to asset account
    /// `contract_address`: no admin and no puzzle are stored yet.
    pub fn new(contract_address: u64) -> (r: GuessThePuzzle)
        ensures
            r.address() == contract_address,
            r.admin_id() is None,
            r.puzzle_bytes() is None,
    {
        GuessThePuzzle { contract_address, admin: None, puzzle: None }
    }

    /// Initializes a freshly deployed contract: demands the admin's
    /// authorization, seeds the prize pool from the admin's account, and
    /// stores the admin identity. The seeding transfer is the platform's
    /// non-tolerant primitive, so a covered balance is a precondition.
    pub fn __constructor(
        &mut self,
        ledger: &mut Ledger,
        auth: &AuthContext,
        admin: u64,
    ) -> (r: Result<(), Error>)
        requires
            old(ledger).wf(),
            auth.allows(admin) ==> old(ledger).can_transfer(
                admin,
                old(self).address(),
                INITIAL_FUNDING_UNITS * UNIT,
            ),
        ensures
            final(ledger).wf(),
            final(self).address() == old(self).address(),
            final(self).puzzle_bytes() == old(self).puzzle_bytes(),
            !auth.allows(admin) ==> r == Err::<(), Error>(Error::NotAuthorized)
                && *final(self) == *old(self) && *final(ledger) == *old(ledger),
            auth.allows(admin) ==> transferred(
                *old(ledger),
                *final(ledger),
                admin,
                old(self).address(),
                INITIAL_FUNDING_UNITS * UNIT,
            ),
            auth.allows(admin) ==> ({
                let (s, res) = GuessThePuzzle::spec_set_admin(*old(self), admin);
                *final(self) == s && r == res
            }),
    {
        if !auth.is_authorized(admin) {
            return Err(Error::NotAuthorized);
        }
        let seed = to_base_units(INITIAL_FUNDING_UNITS);
        let moved = ledger.transfer(admin, self.contract_address, seed);
        assert(moved);
        self.set_admin(admin)
    }

    /// Stores `admin` as the contract's admin identity. Succeeds exactly
    /// once: any later call fails with `AdminAlreadySet` and changes
    /// nothing. The call itself checks no authorization — its callers run it
    /// in a trusted context.
    pub fn set_admin(&mut self, admin: u64) -> (r: Result<(), Error>)
        ensures
            final(self).address() == old(self).address(),
            final(self).puzzle_bytes() == old(self).puzzle_bytes(),
            ({
                let (s, res) = GuessThePuzzle::spec_set_admin(*old(self), admin);
                *final(self) == s && r == res
            }),
            old(self).admin_id() is None ==> r == Ok::<(), Error>(())
                && final(self).admin_id() == Some(admin),
            old(self).admin_id() is Some ==> r == Err::<(), Error>(Error::AdminAlreadySet)
                && *final(self) == *old(self),
    {
        match self.admin {
            Some(_) => Err(Error::AdminAlreadySet),
            None => {
                self.admin = Some(admin);
                Ok(())
            },
        }
    }

    /// The stored admin identity, or nothing if none was ever set. Unlike
    /// the admin gate, an absent admin is not a failure here.
    pub fn admin(&self) -> (r: Option<u64>)
        ensures
            r == self.admin_id(),
    {
        self.admin
    }

    /// Demands the stored admin's authorization: fails with `AdminNotSet`
    /// when no admin is stored, with `NotAuthorized` when the admin's proof
    /// is absent. Mutates nothing.
    fn require_admin(&self, auth: &AuthContext) -> (r: Result<u64, Error>)
        ensures
            r == self.admin_gate(auth),
    {
        match self.admin {
            None => Err(Error::AdminNotSet),
            Some(a) => {
                if auth.is_authorized(a) {
                    Ok(a)
                } else {
                    Err(Error::NotAuthorized)
                }
            },
        }
    }

    /// Stores a new puzzle, overwriting any previous one irrecoverably.
    /// Admin-gated; any byte sequence is accepted.
    pub fn set_puzzle(&mut self, auth: &AuthContext, puzzle: Vec<u8>) -> (r: Result<(), Error>)
        ensures
            final(self).address() == old(self).address(),
            final(self).admin_id() == old(self).admin_id(),
            old(self).admin_gate(auth) is Ok ==> r == Ok::<(), Error>(())
                && final(self).puzzle_bytes() == Some(puzzle@),
            old(self).admin_gate(auth) matches Err(e) ==> r == Err::<(), Error>(e)
                && *final(self) == *old(self),
    {
        match self.require_admin(auth) {
            Err(e) => Err(e),
            Ok(_) => {
                self.puzzle = Some(puzzle);
                Ok(())
            },
        }
    }

    /// The stored puzzle, or `PuzzleNotSet` if none was ever stored.
    pub fn puzzle(&self) -> (r: Result<Vec<u8>, Error>)
        ensures
            match self.puzzle_bytes() {
                Some(p) => (r matches Ok(v) && v@ == p),
                None => r == Err::<Vec<u8>, Error>(Error::PuzzleNotSet),
            },
    {
        match &self.puzzle {
            None => Err(Error::PuzzleNotSet),
            Some(p) => Ok(copy_bytes(p)),
        }
    }

    /// The current prize pool: the asset balance owned by the contract's own
    /// account. Read-only and open to anyone.
    pub fn prize_pot(&self, ledger: &Ledger) -> (r: i128)
        ensures
            r == ledger.balance_of(self.address()),
    {
        ledger.balance(self.contract_address)
    }

    /// Moves `amount` whole units from `funder` into the prize pool.
    /// Demands `funder`'s authorization; any amount the funder can cover is
    /// accepted. The transfer is the platform's non-tolerant primitive, so a
    /// covered balance is a precondition.
    pub fn add_funds(
        &self,
        ledger: &mut Ledger,
        auth: &AuthContext,
        funder: u64,
        amount: u64,
    ) -> (r: Result<(), Error>)
        requires
            old(ledger).wf(),
            auth.allows(funder) ==> old(ledger).can_transfer(
                funder,
                self.address(),
                amount * UNIT,
            ),
        ensures
            final(ledger).wf(),
            !auth.allows(funder) ==> r == Err::<(), Error>(Error::NotAuthorized)
                && *final(ledger) == *old(ledger),
            auth.allows(funder) ==> r == Ok::<(), Error>(()) && transferred(
                *old(ledger),
                *final(ledger),
                funder,
                self.address(),
                amount * UNIT,
            ),
    {
        if !auth.is_authorized(funder) {
            return Err(Error::NotAuthorized);
        }
        let moved = ledger.transfer(funder, self.contract_address, to_base_units(amount));
        assert(moved);
        Ok(())
    }

    /// Replaces the code reference bound to the contract — the slot the host
    /// platform dispatches future invocations through — with
    /// `new_wasm_hash`. Admin-gated; there is no rollback.
    pub fn upgrade(
        &self,
        auth: &AuthContext,
        current_code: &mut Bytes32,
        new_wasm_hash: Bytes32,
    ) -> (r: Result<(), Error>)
        ensures
            self.admin_gate(auth) is Ok ==> r == Ok::<(), Error>(())
                && final(current_code)@ == new_wasm_hash@,
            self.admin_gate(auth) matches Err(e) ==> r == Err::<(), Error>(e)
                && *final(current_code) == *old(current_code),
    {
        match self.require_admin(auth) {
            Err(e) => Err(e),
            Ok(_) => {
                *current_code = new_wasm_hash;
                Ok(())
            },
        }
    }

    /// Step one of a claim attempt: demands the guesser's authorization and
    /// collects the fixed fee into the pool, through the service's
    /// failure-tolerant transfer. On any failure nothing has moved and
    /// nothing further is attempted; a collected fee is never refunded.
    pub fn collect_fee(
        &self,
        ledger: &mut Ledger,
        auth: &AuthContext,
        guesser: u64,
    ) -> (r: Result<(), Error>)
        requires
            old(ledger).wf(),
        ensures
            final(ledger).wf(),
            !auth.allows(guesser) ==> r == Err::<(), Error>(Error::NotAuthorized)
                && *final(ledger) == *old(ledger),
            auth.allows(guesser) && !old(ledger).can_transfer(
                guesser,
                self.address(),
                ATTEMPT_FEE as int,
            ) ==> r == Err::<(), Error>(Error::FeeTransferFailed)
                && *final(ledger) == *old(ledger),
            auth.allows(guesser) && old(ledger).can_transfer(
                guesser,
                self.address(),
                ATTEMPT_FEE as int,
            ) ==> r == Ok::<(), Error>(()) && transferred(
                *old(ledger),
                *final(ledger),
                guesser,
                self.address(),
                ATTEMPT_FEE as int,
            ),
    {
        if !auth.is_authorized(guesser) {
            return Err(Error::NotAuthorized);
        }
        if ledger.transfer(guesser, self.contract_address, ATTEMPT_FEE) {
            Ok(())
        } else {
            Err(Error::FeeTransferFailed)
        }
    }

    /// Step two of a claim attempt: applies the verifier's answer. On
    /// non-success the attempt returns the all-zero word and the ledger is
    /// left exactly as it stood — in particular the fee collected in step
    /// one stays in the pool. On success the entire pool as it stands here
    /// is paid to the guesser: an empty pool fails with
    /// `NoBalanceToTransfer`, a failing payout with `PayoutTransferFailed`,
    /// and in both the ledger is unchanged and the fee stays lost.
    pub fn settle_outcome(
        &self,
        ledger: &mut Ledger,
        guesser: u64,
        outcome: VerifyOutcome,
    ) -> (r: Result<Bytes32, Error>)
        requires
            old(ledger).wf(),
        ensures
            final(ledger).wf(),
            (outcome matches VerifyOutcome::NonSuccess) ==> *final(ledger) == *old(ledger)
                && (r matches Ok(p) && all_zero(p@)),
            outcome matches VerifyOutcome::Success(w) ==> ({
                let pool = old(ledger).balance_of(self.address());
                &&& pool == 0 ==> r == Err::<Bytes32, Error>(Error::NoBalanceToTransfer)
                    && *final(ledger) == *old(ledger)
                &&& pool > 0 && !old(ledger).can_transfer(self.address(), guesser, pool)
                    ==> r == Err::<Bytes32, Error>(Error::PayoutTransferFailed)
                    && *final(ledger) == *old(ledger)
                &&& pool > 0 && old(ledger).can_transfer(self.address(), guesser, pool)
                    ==> (r matches Ok(p) && p@ == w@) && transferred(
                    *old(ledger),
                    *final(ledger),
                    self.address(),
                    guesser,
                    pool,
                )
            }),
    {
        match outcome {
            VerifyOutcome::NonSuccess => Ok(Bytes32::zero()),
            VerifyOutcome::Success(payload) => {
                let pool = ledger.balance(self.contract_address);
                if pool == 0 {
                    return Err(Error::NoBalanceToTransfer);
                }
                if ledger.transfer(self.contract_address, guesser, pool) {
                    Ok(payload)
                } else {
                    Err(Error::PayoutTransferFailed)
                }
            },
        }
    }

    /// One whole claim attempt, in the fixed order the economics demand:
    /// the guesser's authorization, then the non-refundable fee, then — and
    /// only then — the verifier, then the conditional payout of the entire
    /// pool. The verifier is consulted exactly once and only after the fee
    /// is in the pool; a losing attempt is a successful call that returns
    /// the all-zero word, so a caller learns whether they won from the
    /// returned value, not from the call's success.
    pub fn verify_puzzle<V: ProofVerifier>(
        &self,
        ledger: &mut Ledger,
        auth: &AuthContext,
        service: &V,
        guesser: u64,
        vk_json: &Vec<u8>,
        proof_blob: &Vec<u8>,
    ) -> (r: Result<Bytes32, Error>)
        requires
            old(ledger).wf(),
        ensures
            final(ledger).wf(),
            verify_transition(
                *old(ledger),
                *final(ledger),
                r,
                self.address(),
                guesser,
                auth.allows(guesser),
                service.outcome_of(vk_json@, proof_blob@),
            ),
            r matches Ok(p) ==> p.wf(),
    {
        match self.collect_fee(ledger, auth, guesser) {
            Err(e) => Err(e),
            Ok(()) => {
                let outcome = service.verify_proof(vk_json, proof_blob);
                self.settle_outcome(ledger, guesser, outcome)
            },
        }
    }
}

/// `set_admin` succeeds at most once: once a call stores an admin, every
/// later call — whatever identity it offers — fails with `AdminAlreadySet`
/// and leaves the state exactly as it was.
pub proof fn lemma_set_admin_at_most_once(s0: GuessThePuzzle, a1: u64, a2: u64)
    ensures
        ({
            let (s1, r1) = GuessThePuzzle::spec_set_admin(s0, a1);
            let (s2, r2) = GuessThePuzzle::spec_set_admin(s1, a2);
            &&& r1 is Ok ==> r2 == Err::<(), Error>(Error::AdminAlreadySet) && s2 == s1
            &&& s0.admin_id() is Some ==> r1 == Err::<(), Error>(Error::AdminAlreadySet)
                && s1 == s0
        }),
{
}

/// How a whole sequence of `set_admin` attempts runs from state `s`: the
/// state the attempts leave behind, and how many of them succeeded.
pub open spec fn run_set_admins(s: GuessThePuzzle, attempts: Seq<u64>) -> (
    GuessThePuzzle,
    nat,
)
    decreases attempts.len(),
{
    if attempts.len() == 0 {
        (s, 0)
    } else {
        let first = GuessThePuzzle::spec_set_admin(s, attempts[0]);
        let rest = run_set_admins(first.0, attempts.drop_first());
        (rest.0, rest.1 + if first.1 is Ok { 1nat } else { 0nat })
    }
}

/// Over any sequence of `set_admin` attempts whatsoever, at most one
/// succeeds; and from a state that already stores an admin, none succeeds
/// and the state never moves.
pub proof fn lemma_set_admin_once_per_sequence(s: GuessThePuzzle, attempts: Seq<u64>)
    ensures
        run_set_admins(s, attempts).1 <= 1,
        s.admin_id() is Some ==> run_set_admins(s, attempts).1 == 0 && run_set_admins(
            s,
            attempts,
        ).0 == s,
    decreases attempts.len(),
{
    if attempts.len() > 0 {
        let first = GuessThePuzzle::spec_set_admin(s, attempts[0]);
        lemma_set_admin_once_per_sequence(first.0, attempts.drop_first());
    }
}

/// `set_puzzle` and `upgrade` fail with `NotAuthorized` whenever the stored
/// admin's authorization proof is absent, regardless of the puzzle or code
/// argument offered: the admin check both operations rest on answers
/// `NotAuthorized` in that situation.
pub proof fn lemma_gate_demands_admin_authorization(
    s: GuessThePuzzle,
    auth: &AuthContext,
    a: u64,
)
    requires
        s.admin_id() == Some(a),
        !auth.allows(a),
    ensures
        s.admin_gate(auth) == Err::<u64, Error>(Error::NotAuthorized),
{
}

/// The pool never moves before the fee: when the guesser's authorization or
/// the fee transfer fails, a claim attempt leaves every balance — the
/// pool's included — exactly as it was, and no verification is settled.
pub proof fn lemma_no_settlement_without_fee(
    pre: Ledger,
    post: Ledger,
    r: Result<Bytes32, Error>,
    contract: u64,
    guesser: u64,
    guesser_authorized: bool,
    outcome: Option<Seq<u8>>,
)
    requires
        verify_transition(pre, post, r, contract, guesser, guesser_authorized, outcome),
        !(guesser_authorized && pre.can_transfer(guesser, contract, ATTEMPT_FEE as int)),
    ensures
        post == pre,
        r == Err::<Bytes32, Error>(Error::NotAuthorized) || r == Err::<Bytes32, Error>(
            Error::FeeTransferFailed,
        ),
{
}

/// Read the other way round: if a claim attempt moved the pool's balance at
/// all, the guesser was authorized and the fee transfer succeeded first.
pub proof fn lemma_pool_moves_only_after_fee(
    pre: Ledger,
    post: Ledger,
    r: Result<Bytes32, Error>,
    contract: u64,
    guesser: u64,
    guesser_authorized: bool,
    outcome: Option<Seq<u8>>,
)
    requires
        verify_transition(pre, post, r, contract, guesser, guesser_authorized, outcome),
        post.balance_of(contract) != pre.balance_of(contract),
    ensures
        guesser_authorized,
        pre.can_transfer(guesser, contract, ATTEMPT_FEE as int),
{
}

/// A non-success answer costs the guesser exactly the fee and nothing else:
/// the fee sits in the pool, every other account is untouched, and the
/// attempt returns the all-zero word.
pub proof fn lemma_non_success_costs_exactly_the_fee(
    pre: Ledger,
    post: Ledger,
    r: Result<Bytes32, Error>,
    contract: u64,
    guesser: u64,
)
    requires
        verify_transition(pre, post, r, contract, guesser, true, None),
        guesser != contract,
        pre.can_transfer(guesser, contract, ATTEMPT_FEE as int),
    ensures
        post.balance_of(guesser) == pre.balance_of(guesser) - ATTEMPT_FEE,
        post.balance_of(contract) == pre.balance_of(contract) + ATTEMPT_FEE,
        forall|a: u64| a != guesser && a != contract ==> post.balance_of(a) == pre.balance_of(a),
        r matches Ok(p) && all_zero(p@),
{
}

/// A success answer empties the pool into the guesser's account: the pool
/// ends at zero, the guesser nets exactly the pool as it stood before the
/// attempt — the fee they paid came straight back inside the payout — and
/// the attempt returns the verifier's payload.
pub proof fn lemma_success_pays_the_whole_pool(
    pre: Ledger,
    post: Ledger,
    r: Result<Bytes32, Error>,
    contract: u64,
    guesser: u64,
    payload: Seq<u8>,
)
    requires
        pre.wf(),
        verify_transition(pre, post, r, contract, guesser, true, Some(payload)),
        guesser != contract,
        pre.can_transfer(guesser, contract, ATTEMPT_FEE as int),
        pre.balance_of(guesser) + pre.balance_of(contract) <= i128::MAX,
    ensures
        post.balance_of(contract) == 0,
        post.balance_of(guesser) == pre.balance_of(guesser) + pre.balance_of(contract),
        forall|a: u64| a != guesser && a != contract ==> post.balance_of(a) == pre.balance_of(a),
        r matches Ok(p) && p@ == payload,
{
}

} // verus!
