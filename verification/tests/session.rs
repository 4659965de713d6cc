use cross_pile::accounts::{Authority, CoinState};
use cross_pile::error::{ErrorCode, RevealError};
use cross_pile::keys::Pubkey;
use cross_pile::ledger::Ledger;
use cross_pile::oracle::{fulfill_request, init_requester};
use cross_pile::protocol::{
    approve_flip, create_coin, reveal_coin, ApproveFlip, CreateCoin, RevealCoin, STAKE_AMOUNT,
};

fn key(n: u8) -> Pubkey {
    Pubkey::new([n; 32])
}

fn derive(tag: &[u8], identity: &Pubkey, program: &Pubkey) -> (Pubkey, u8) {
    let (address, bump) = solana_pubkey::Pubkey::try_find_program_address(
        &[tag, &identity.bytes],
        &solana_pubkey::Pubkey::new_from_array(program.bytes),
    )
    .unwrap();
    (Pubkey::new(address.to_bytes()), bump)
}

struct Setup {
    ledger: Ledger,
    program: Pubkey,
    initiator: Pubkey,
    acceptor: Pubkey,
    oracle: Pubkey,
    oracle_vault: Pubkey,
    requester: Pubkey,
    coin_address: Pubkey,
    coin_bump: u8,
    vault_address: Pubkey,
    vault_bump: u8,
}

fn setup() -> Setup {
    let program = key(9);
    let initiator = key(1);
    let acceptor = key(2);
    let oracle = key(3);
    let oracle_vault = key(4);
    let requester = key(5);
    let mut ledger = Ledger::new(program);
    init_requester(&mut ledger, requester, initiator, oracle).unwrap();
    let (coin_address, coin_bump) = derive(b"coin-seed", &initiator, &program);
    let (vault_address, vault_bump) = derive(b"vault-seed", &initiator, &program);
    Setup {
        ledger,
        program,
        initiator,
        acceptor,
        oracle,
        oracle_vault,
        requester,
        coin_address,
        coin_bump,
        vault_address,
        vault_bump,
    }
}

fn create_ctx(s: &Setup) -> CreateCoin {
    CreateCoin {
        initiator: s.initiator,
        acceptor: s.acceptor,
        requester: s.requester,
        oracle: s.oracle,
        oracle_vault: s.oracle_vault,
    }
}

fn approve_ctx(s: &Setup) -> ApproveFlip {
    ApproveFlip {
        authority: s.acceptor,
        vault: s.vault_address,
        initiator: s.initiator,
        requester: s.requester,
        oracle: s.oracle,
        oracle_vault: s.oracle_vault,
    }
}

fn reveal_ctx_for(s: &Setup, caller: Pubkey, other: Pubkey) -> RevealCoin {
    RevealCoin {
        initiator_or_acceptor: caller,
        other,
        vault: s.vault_address,
        requester: s.requester,
    }
}

fn do_create(s: &mut Setup) -> Result<(), ErrorCode> {
    let ctx = create_ctx(s);
    create_coin(&mut s.ledger, &ctx, s.coin_bump, 0, s.vault_bump, 1_700_000_000)
}

fn do_approve(s: &mut Setup) -> Result<(), ErrorCode> {
    let ctx = approve_ctx(s);
    approve_flip(&mut s.ledger, &ctx)
}

fn coin_record(s: &Setup) -> cross_pile::accounts::Coin {
    s.ledger.get(&s.coin_address).unwrap().as_coin().unwrap()
}

fn vault_record(s: &Setup) -> cross_pile::accounts::Vault {
    s.ledger.get(&s.vault_address).unwrap().as_vault().unwrap()
}

fn requester_record(s: &Setup) -> cross_pile::accounts::Requester {
    s.ledger.get(&s.requester).unwrap().as_requester().unwrap()
}

#[test]
fn create_coin_records_session() {
    let mut s = setup();
    assert_eq!(do_create(&mut s), Ok(()));
    let coin = coin_record(&s);
    assert_eq!(coin.initiator.bytes, s.initiator.bytes);
    assert_eq!(coin.acceptor.bytes, s.acceptor.bytes);
    assert_eq!(coin.state, CoinState::Created);
    assert!(!coin.is_cross);
    assert_eq!(coin.created_at, 1_700_000_000);
    assert_eq!(coin.bump, s.coin_bump);
    let vault = vault_record(&s);
    assert_eq!(vault.balance, STAKE_AMOUNT);
    assert_eq!(vault.bump, s.vault_bump);
    let req = requester_record(&s);
    match req.authority {
        Authority::Derived(d) => assert_eq!(d.bytes, s.coin_address.bytes),
        Authority::External(_) => panic!("authority was not delegated to the coin"),
    }
}

#[test]
fn second_create_fails_and_changes_nothing() {
    let mut s = setup();
    assert_eq!(do_create(&mut s), Ok(()));
    let coin_before = coin_record(&s);
    let vault_before = vault_record(&s);
    assert_eq!(do_create(&mut s), Err(ErrorCode::AlreadyCompleted));
    let coin_after = coin_record(&s);
    let vault_after = vault_record(&s);
    assert_eq!(coin_after.state, coin_before.state);
    assert_eq!(coin_after.created_at, coin_before.created_at);
    assert_eq!(vault_after.balance, vault_before.balance);
}

#[test]
fn create_with_wrong_bump_fails() {
    let mut s = setup();
    let ctx = create_ctx(&s);
    let wrong = s.coin_bump.wrapping_add(1);
    assert_eq!(
        create_coin(&mut s.ledger, &ctx, wrong, 0, s.vault_bump, 0),
        Err(ErrorCode::MissingRecord)
    );
    assert!(s.ledger.get(&s.coin_address).is_none());
}

#[test]
fn create_needs_requester_owned_by_initiator() {
    let mut s = setup();
    let stranger_requester = key(7);
    init_requester(&mut s.ledger, stranger_requester, key(8), s.oracle).unwrap();
    let mut ctx = create_ctx(&s);
    ctx.requester = stranger_requester;
    assert_eq!(
        create_coin(&mut s.ledger, &ctx, s.coin_bump, 0, s.vault_bump, 0),
        Err(ErrorCode::Unauthorized)
    );
}

#[test]
fn init_requester_is_one_shot() {
    let mut s = setup();
    assert_eq!(
        init_requester(&mut s.ledger, s.requester, s.initiator, s.oracle),
        Err(ErrorCode::AlreadyCompleted)
    );
}

#[test]
fn approve_before_create_fails() {
    let mut s = setup();
    assert_eq!(do_approve(&mut s), Err(ErrorCode::MissingRecord));
}

#[test]
fn approve_matches_stake_and_requests_randomness() {
    let mut s = setup();
    do_create(&mut s).unwrap();
    assert_eq!(do_approve(&mut s), Ok(()));
    assert_eq!(vault_record(&s).balance, 2 * STAKE_AMOUNT);
    let coin = coin_record(&s);
    assert_eq!(coin.state, CoinState::Flipping);
    assert!(coin.is_flipping());
    let req = requester_record(&s);
    assert!(req.pending);
    assert_eq!(req.result, None);
}

#[test]
fn approve_by_non_acceptor_fails() {
    let mut s = setup();
    do_create(&mut s).unwrap();
    let mut ctx = approve_ctx(&s);
    ctx.authority = key(8);
    assert_eq!(approve_flip(&mut s.ledger, &ctx), Err(ErrorCode::Unauthorized));
    assert_eq!(vault_record(&s).balance, STAKE_AMOUNT);
}

#[test]
fn second_approve_fails_without_double_stake() {
    let mut s = setup();
    do_create(&mut s).unwrap();
    do_approve(&mut s).unwrap();
    assert_eq!(do_approve(&mut s), Err(ErrorCode::InflightRequest));
    assert_eq!(vault_record(&s).balance, 2 * STAKE_AMOUNT);
}

#[test]
fn approve_with_wrong_oracle_fails_without_stake_transfer() {
    let mut s = setup();
    do_create(&mut s).unwrap();
    let mut ctx = approve_ctx(&s);
    ctx.oracle = key(8);
    assert_eq!(approve_flip(&mut s.ledger, &ctx), Err(ErrorCode::WrongOracle));
    assert_eq!(vault_record(&s).balance, STAKE_AMOUNT);
    assert_eq!(coin_record(&s).state, CoinState::Created);
}

#[test]
fn reveal_before_approve_fails() {
    let mut s = setup();
    do_create(&mut s).unwrap();
    let ctx = reveal_ctx_for(&s, s.initiator, s.acceptor);
    assert!(matches!(
        reveal_coin(&mut s.ledger, &ctx),
        Err(RevealError::Fatal(ErrorCode::NotYetFlipping))
    ));
    assert_eq!(coin_record(&s).state, CoinState::Created);
}

#[test]
fn reveal_before_fulfillment_is_retryable() {
    let mut s = setup();
    do_create(&mut s).unwrap();
    do_approve(&mut s).unwrap();
    let ctx = reveal_ctx_for(&s, s.initiator, s.acceptor);
    assert!(matches!(reveal_coin(&mut s.ledger, &ctx), Err(RevealError::NotReady)));
    assert_eq!(coin_record(&s).state, CoinState::Flipping);
    assert_eq!(vault_record(&s).balance, 2 * STAKE_AMOUNT);
}

#[test]
fn even_outcome_pays_initiator_in_full() {
    let mut s = setup();
    do_create(&mut s).unwrap();
    do_approve(&mut s).unwrap();
    assert_eq!(vault_record(&s).balance, 200000);
    fulfill_request(&mut s.ledger, &s.requester, 42).unwrap();
    let ctx = reveal_ctx_for(&s, s.initiator, s.acceptor);
    let payout = reveal_coin(&mut s.ledger, &ctx).unwrap();
    assert_eq!(payout.to.bytes, s.initiator.bytes);
    assert_eq!(payout.amount, 200000);
    let coin = coin_record(&s);
    assert_eq!(coin.state, CoinState::Resolved);
    assert!(coin.is_cross);
    assert_eq!(vault_record(&s).balance, 0);
}

#[test]
fn odd_outcome_pays_acceptor() {
    let mut s = setup();
    do_create(&mut s).unwrap();
    do_approve(&mut s).unwrap();
    fulfill_request(&mut s.ledger, &s.requester, 7).unwrap();
    let ctx = reveal_ctx_for(&s, s.acceptor, s.initiator);
    let payout = reveal_coin(&mut s.ledger, &ctx).unwrap();
    assert_eq!(payout.to.bytes, s.acceptor.bytes);
    assert_eq!(payout.amount, 2 * STAKE_AMOUNT);
    assert!(!coin_record(&s).is_cross);
}

#[test]
fn reveal_by_third_party_is_unauthorized() {
    let mut s = setup();
    do_create(&mut s).unwrap();
    do_approve(&mut s).unwrap();
    fulfill_request(&mut s.ledger, &s.requester, 42).unwrap();
    let ctx = reveal_ctx_for(&s, key(8), s.initiator);
    assert!(matches!(
        reveal_coin(&mut s.ledger, &ctx),
        Err(RevealError::Fatal(ErrorCode::Unauthorized))
    ));
    assert_eq!(coin_record(&s).state, CoinState::Flipping);
    assert_eq!(vault_record(&s).balance, 2 * STAKE_AMOUNT);
}

#[test]
fn second_reveal_fails_with_vault_untouched() {
    let mut s = setup();
    do_create(&mut s).unwrap();
    do_approve(&mut s).unwrap();
    fulfill_request(&mut s.ledger, &s.requester, 42).unwrap();
    let ctx = reveal_ctx_for(&s, s.initiator, s.acceptor);
    reveal_coin(&mut s.ledger, &ctx).unwrap();
    assert!(matches!(
        reveal_coin(&mut s.ledger, &ctx),
        Err(RevealError::Fatal(ErrorCode::AlreadyCompleted))
    ));
    assert_eq!(vault_record(&s).balance, 0);
    assert_eq!(coin_record(&s).state, CoinState::Resolved);
}

#[test]
fn fulfill_without_outstanding_request_fails() {
    let mut s = setup();
    do_create(&mut s).unwrap();
    assert_eq!(
        fulfill_request(&mut s.ledger, &s.requester, 42),
        Err(ErrorCode::MissingRecord)
    );
}

#[test]
fn acceptor_may_reveal_too() {
    let mut s = setup();
    do_create(&mut s).unwrap();
    do_approve(&mut s).unwrap();
    fulfill_request(&mut s.ledger, &s.requester, 42).unwrap();
    let ctx = reveal_ctx_for(&s, s.acceptor, s.initiator);
    let payout = reveal_coin(&mut s.ledger, &ctx).unwrap();
    assert_eq!(payout.to.bytes, s.initiator.bytes);
    assert_eq!(payout.amount, 2 * STAKE_AMOUNT);
}

#[test]
fn sessions_of_distinct_initiators_are_independent() {
    let mut s = setup();
    do_create(&mut s).unwrap();

    let second_initiator = key(11);
    let second_requester = key(12);
    init_requester(&mut s.ledger, second_requester, second_initiator, s.oracle).unwrap();
    let (coin2, coin2_bump) = derive(b"coin-seed", &second_initiator, &s.program);
    let (vault2, vault2_bump) = derive(b"vault-seed", &second_initiator, &s.program);
    let ctx2 = CreateCoin {
        initiator: second_initiator,
        acceptor: s.acceptor,
        requester: second_requester,
        oracle: s.oracle,
        oracle_vault: s.oracle_vault,
    };
    assert_eq!(create_coin(&mut s.ledger, &ctx2, coin2_bump, 0, vault2_bump, 5), Ok(()));

    do_approve(&mut s).unwrap();
    fulfill_request(&mut s.ledger, &s.requester, 42).unwrap();
    let ctx = reveal_ctx_for(&s, s.initiator, s.acceptor);
    reveal_coin(&mut s.ledger, &ctx).unwrap();

    let other_coin = s.ledger.get(&coin2).unwrap().as_coin().unwrap();
    assert_eq!(other_coin.state, CoinState::Created);
    let other_vault = s.ledger.get(&vault2).unwrap().as_vault().unwrap();
    assert_eq!(other_vault.balance, STAKE_AMOUNT);
}

#[test]
fn reveal_through_a_foreign_requester_is_unauthorized() {
    let mut s = setup();
    do_create(&mut s).unwrap();
    do_approve(&mut s).unwrap();
    let foreign_requester = key(13);
    init_requester(&mut s.ledger, foreign_requester, s.initiator, s.oracle).unwrap();
    let mut ctx = reveal_ctx_for(&s, s.initiator, s.acceptor);
    ctx.requester = foreign_requester;
    assert!(matches!(
        reveal_coin(&mut s.ledger, &ctx),
        Err(RevealError::Fatal(ErrorCode::Unauthorized))
    ));
    assert_eq!(vault_record(&s).balance, 2 * STAKE_AMOUNT);
}
