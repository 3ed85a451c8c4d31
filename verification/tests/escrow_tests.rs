use guess_the_puzzle::auth::AuthContext;
use guess_the_puzzle::bytes32::Bytes32;
use guess_the_puzzle::errors::Error;
use guess_the_puzzle::escrow::GuessThePuzzle;
use guess_the_puzzle::escrow::to_base_units;
use guess_the_puzzle::escrow::ATTEMPT_FEE;
use guess_the_puzzle::escrow::UNIT;
use guess_the_puzzle::ledger::Ledger;
use guess_the_puzzle::verification::FixedVerifier;
use guess_the_puzzle::verification::VerifyOutcome;

const CONTRACT: u64 = 99;
const ADMIN: u64 = 5;
const GUESSER: u64 = 1;

fn auth_for(id: u64) -> AuthContext {
    let mut auth = AuthContext::empty();
    auth.grant(id);
    auth
}

fn word(byte: u8) -> Bytes32 {
    Bytes32::new(vec![byte; 32]).unwrap()
}

#[test]
fn unit_conversion() {
    assert_eq!(UNIT, 10);
    assert_eq!(ATTEMPT_FEE, 10);
    assert_eq!(to_base_units(0), 0);
    assert_eq!(to_base_units(1), 10);
    assert_eq!(to_base_units(100), 1000);
}

#[test]
fn bytes32_width_is_enforced() {
    assert!(Bytes32::new(vec![0u8; 31]).is_none());
    assert!(Bytes32::new(vec![0u8; 33]).is_none());
    assert!(Bytes32::new(Vec::new()).is_none());
    let b = Bytes32::new(vec![9u8; 32]).unwrap();
    assert_eq!(b.to_vec(), vec![9u8; 32]);
    assert!(!b.is_zero());
    assert!(Bytes32::zero().is_zero());
    assert_eq!(Bytes32::zero().to_vec(), vec![0u8; 32]);
}

#[test]
fn set_admin_succeeds_at_most_once() {
    let mut state = GuessThePuzzle::new(CONTRACT);
    assert_eq!(state.admin(), None);
    assert_eq!(state.set_admin(ADMIN), Ok(()));
    assert_eq!(state.admin(), Some(ADMIN));
    assert_eq!(state.set_admin(ADMIN), Err(Error::AdminAlreadySet));
    assert_eq!(state.set_admin(77), Err(Error::AdminAlreadySet));
    assert_eq!(state.admin(), Some(ADMIN));
}

#[test]
fn set_puzzle_before_admin_fails() {
    let mut state = GuessThePuzzle::new(CONTRACT);
    let r = state.set_puzzle(&auth_for(ADMIN), vec![1, 2, 3]);
    assert_eq!(r, Err(Error::AdminNotSet));
    assert_eq!(state.puzzle(), Err(Error::PuzzleNotSet));
}

#[test]
fn set_puzzle_demands_admin_authorization() {
    let mut state = GuessThePuzzle::new(CONTRACT);
    state.set_admin(ADMIN).unwrap();
    assert_eq!(
        state.set_puzzle(&AuthContext::empty(), vec![1, 2, 3]),
        Err(Error::NotAuthorized)
    );
    assert_eq!(
        state.set_puzzle(&auth_for(GUESSER), vec![1, 2, 3]),
        Err(Error::NotAuthorized)
    );
    assert_eq!(state.puzzle(), Err(Error::PuzzleNotSet));
    assert_eq!(state.set_puzzle(&auth_for(ADMIN), vec![1, 2, 3]), Ok(()));
    assert_eq!(state.puzzle(), Ok(vec![1, 2, 3]));
    assert_eq!(state.set_puzzle(&auth_for(ADMIN), Vec::new()), Ok(()));
    assert_eq!(state.puzzle(), Ok(Vec::new()));
}

#[test]
fn upgrade_demands_admin_authorization() {
    let mut state = GuessThePuzzle::new(CONTRACT);
    let mut code = Bytes32::zero();
    assert_eq!(
        state.upgrade(&auth_for(ADMIN), &mut code, word(4)),
        Err(Error::AdminNotSet)
    );
    state.set_admin(ADMIN).unwrap();
    assert_eq!(
        state.upgrade(&auth_for(GUESSER), &mut code, word(4)),
        Err(Error::NotAuthorized)
    );
    assert_eq!(code.to_vec(), vec![0u8; 32]);
    assert_eq!(state.upgrade(&auth_for(ADMIN), &mut code, word(4)), Ok(()));
    assert_eq!(code.to_vec(), vec![4u8; 32]);
}

#[test]
fn constructor_seeds_pool_and_stores_admin() {
    let mut state = GuessThePuzzle::new(CONTRACT);
    let mut ledger = Ledger::new();
    ledger.mint(ADMIN, 1000);
    assert_eq!(
        state.__constructor(&mut ledger, &AuthContext::empty(), ADMIN),
        Err(Error::NotAuthorized)
    );
    assert_eq!(state.admin(), None);
    assert_eq!(ledger.balance(ADMIN), 1000);
    assert_eq!(state.__constructor(&mut ledger, &auth_for(ADMIN), ADMIN), Ok(()));
    assert_eq!(state.admin(), Some(ADMIN));
    assert_eq!(ledger.balance(ADMIN), 900);
    assert_eq!(state.prize_pot(&ledger), 100);
    // A second construction still moves the seed, then refuses the admin.
    assert_eq!(
        state.__constructor(&mut ledger, &auth_for(ADMIN), ADMIN),
        Err(Error::AdminAlreadySet)
    );
    assert_eq!(state.admin(), Some(ADMIN));
}

#[test]
fn add_funds_demands_funder_authorization() {
    let state = GuessThePuzzle::new(CONTRACT);
    let mut ledger = Ledger::new();
    ledger.mint(ADMIN, 1000);
    assert_eq!(
        state.add_funds(&mut ledger, &AuthContext::empty(), ADMIN, 3),
        Err(Error::NotAuthorized)
    );
    assert_eq!(state.prize_pot(&ledger), 0);
    assert_eq!(state.add_funds(&mut ledger, &auth_for(ADMIN), ADMIN, 3), Ok(()));
    assert_eq!(state.prize_pot(&ledger), 30);
    assert_eq!(ledger.balance(ADMIN), 970);
}

#[test]
fn prize_pot_reads_the_contract_balance() {
    let state = GuessThePuzzle::new(CONTRACT);
    let mut ledger = Ledger::new();
    assert_eq!(state.prize_pot(&ledger), 0);
    ledger.mint(CONTRACT, 750);
    assert_eq!(state.prize_pot(&ledger), 750);
    // Idempotent: reading moves nothing.
    assert_eq!(state.prize_pot(&ledger), 750);
    assert_eq!(ledger.balance(CONTRACT), 750);
}

#[test]
fn verify_puzzle_demands_guesser_authorization() {
    let state = GuessThePuzzle::new(CONTRACT);
    let mut ledger = Ledger::new();
    ledger.mint(GUESSER, 500);
    let service = FixedVerifier::accepting(word(7));
    let r = state.verify_puzzle(
        &mut ledger,
        &AuthContext::empty(),
        &service,
        GUESSER,
        &vec![1],
        &vec![2],
    );
    assert_eq!(r.unwrap_err(), Error::NotAuthorized);
    assert_eq!(ledger.balance(GUESSER), 500);
    assert_eq!(ledger.balance(CONTRACT), 0);
}

#[test]
fn verify_puzzle_fails_when_fee_cannot_be_paid() {
    let state = GuessThePuzzle::new(CONTRACT);
    let mut ledger = Ledger::new();
    ledger.mint(GUESSER, ATTEMPT_FEE - 1);
    ledger.mint(CONTRACT, 1000);
    let service = FixedVerifier::accepting(word(7));
    let r = state.verify_puzzle(
        &mut ledger,
        &auth_for(GUESSER),
        &service,
        GUESSER,
        &vec![1],
        &vec![2],
    );
    assert_eq!(r.unwrap_err(), Error::FeeTransferFailed);
    // Nothing moved: the verifier is consulted only after the fee is in.
    assert_eq!(ledger.balance(GUESSER), ATTEMPT_FEE - 1);
    assert_eq!(ledger.balance(CONTRACT), 1000);
}

#[test]
fn losing_attempt_costs_exactly_the_fee() {
    let state = GuessThePuzzle::new(CONTRACT);
    let mut ledger = Ledger::new();
    ledger.mint(GUESSER, 500);
    ledger.mint(CONTRACT, 1000);
    let service = FixedVerifier::rejecting();
    let r = state.verify_puzzle(
        &mut ledger,
        &auth_for(GUESSER),
        &service,
        GUESSER,
        &vec![1],
        &vec![2],
    );
    // A losing attempt is a successful call returning the all-zero word.
    let payout = r.unwrap();
    assert!(payout.is_zero());
    assert_eq!(payout.to_vec(), vec![0u8; 32]);
    assert_eq!(ledger.balance(GUESSER), 500 - ATTEMPT_FEE);
    assert_eq!(ledger.balance(CONTRACT), 1000 + ATTEMPT_FEE);
}

#[test]
fn winning_attempt_pays_the_whole_pool() {
    let state = GuessThePuzzle::new(CONTRACT);
    let mut ledger = Ledger::new();
    ledger.mint(GUESSER, 500);
    ledger.mint(CONTRACT, 1000);
    let service = FixedVerifier::accepting(word(7));
    let r = state.verify_puzzle(
        &mut ledger,
        &auth_for(GUESSER),
        &service,
        GUESSER,
        &vec![1],
        &vec![2],
    );
    // The payout is the pool plus the fee just collected: a net gain of
    // exactly the pool as it stood before the attempt.
    assert_eq!(r.unwrap().to_vec(), vec![7u8; 32]);
    assert_eq!(ledger.balance(CONTRACT), 0);
    assert_eq!(ledger.balance(GUESSER), 1500);
}

#[test]
fn settle_with_empty_pool_keeps_the_fee() {
    let state = GuessThePuzzle::new(CONTRACT);
    let mut ledger = Ledger::new();
    ledger.mint(GUESSER, 490);
    let r = state.settle_outcome(&mut ledger, GUESSER, VerifyOutcome::Success(word(7)));
    assert_eq!(r.unwrap_err(), Error::NoBalanceToTransfer);
    assert_eq!(ledger.balance(GUESSER), 490);
    assert_eq!(ledger.balance(CONTRACT), 0);
}

#[test]
fn failing_payout_keeps_the_fee_and_the_pool() {
    let state = GuessThePuzzle::new(CONTRACT);
    let mut ledger = Ledger::new();
    // The payout would push the guesser's balance past the representable
    // maximum, so it fails and the pool stays intact for a future winner.
    ledger.mint(GUESSER, i128::MAX - 15);
    ledger.mint(CONTRACT, 20);
    let service = FixedVerifier::accepting(word(7));
    let r = state.verify_puzzle(
        &mut ledger,
        &auth_for(GUESSER),
        &service,
        GUESSER,
        &vec![1],
        &vec![2],
    );
    assert_eq!(r.unwrap_err(), Error::PayoutTransferFailed);
    assert_eq!(ledger.balance(GUESSER), i128::MAX - 15 - ATTEMPT_FEE);
    assert_eq!(ledger.balance(CONTRACT), 20 + ATTEMPT_FEE);
}

#[test]
fn scenario_valid_proof_empties_the_pool() {
    // The admin constructs and funds the pool up to 1000; a guesser with
    // more than the fee claims with a proof the verifier accepts.
    let mut state = GuessThePuzzle::new(CONTRACT);
    let mut ledger = Ledger::new();
    ledger.mint(ADMIN, 5000);
    ledger.mint(GUESSER, 50);
    state.__constructor(&mut ledger, &auth_for(ADMIN), ADMIN).unwrap();
    state.add_funds(&mut ledger, &auth_for(ADMIN), ADMIN, 90).unwrap();
    assert_eq!(state.prize_pot(&ledger), 1000);
    state.set_puzzle(&auth_for(ADMIN), vec![42; 8]).unwrap();
    let service = FixedVerifier::accepting(word(7));
    let r = state.verify_puzzle(
        &mut ledger,
        &auth_for(GUESSER),
        &service,
        GUESSER,
        &vec![1],
        &vec![2],
    );
    let payout = r.unwrap();
    assert!(!payout.is_zero());
    assert_eq!(payout.to_vec(), vec![7u8; 32]);
    assert_eq!(state.prize_pot(&ledger), 0);
    // Net of the fee, the guesser gained exactly the pool.
    assert_eq!(ledger.balance(GUESSER), 50 + 1000);
}

#[test]
fn scenario_invalid_proof_loses_only_the_fee() {
    let mut state = GuessThePuzzle::new(CONTRACT);
    let mut ledger = Ledger::new();
    ledger.mint(ADMIN, 5000);
    ledger.mint(GUESSER, 50);
    state.__constructor(&mut ledger, &auth_for(ADMIN), ADMIN).unwrap();
    state.add_funds(&mut ledger, &auth_for(ADMIN), ADMIN, 90).unwrap();
    assert_eq!(state.prize_pot(&ledger), 1000);
    let service = FixedVerifier::rejecting();
    let r = state.verify_puzzle(
        &mut ledger,
        &auth_for(GUESSER),
        &service,
        GUESSER,
        &vec![1],
        &vec![2],
    );
    assert!(r.unwrap().is_zero());
    // The guesser lost exactly the fee, which now sits in the pool.
    assert_eq!(ledger.balance(GUESSER), 50 - ATTEMPT_FEE);
    assert_eq!(state.prize_pot(&ledger), 1000 + ATTEMPT_FEE);
}

#[test]
fn transfers_are_atomic_and_exact() {
    let mut ledger = Ledger::new();
    ledger.mint(1, 100);
    assert!(ledger.transfer(1, 2, 40));
    assert_eq!(ledger.balance(1), 60);
    assert_eq!(ledger.balance(2), 40);
    // Insufficient funds: nothing moves.
    assert!(!ledger.transfer(1, 2, 61));
    assert_eq!(ledger.balance(1), 60);
    assert_eq!(ledger.balance(2), 40);
    // Negative amounts are refused.
    assert!(!ledger.transfer(1, 2, -1));
    // A transfer to oneself moves nothing and succeeds when covered.
    assert!(ledger.transfer(1, 1, 60));
    assert!(!ledger.transfer(1, 1, 61));
    assert_eq!(ledger.balance(1), 60);
}

#[test]
fn authorization_proofs_are_per_identity() {
    let mut auth = AuthContext::empty();
    assert!(!auth.is_authorized(1));
    auth.grant(1);
    assert!(auth.is_authorized(1));
    assert!(!auth.is_authorized(2));
    auth.grant(2);
    assert!(auth.is_authorized(1));
    assert!(auth.is_authorized(2));
}
