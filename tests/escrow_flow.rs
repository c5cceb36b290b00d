use escrow::{
    make, record_address, refund, take, EscrowError, Ledger, MakeContext, Owner, RefundContext,
    TakeContext,
};

const PROGRAM: u64 = 99;
const MAKER: u64 = 1;
const TAKER: u64 = 2;
const ASSET_A: u64 = 10;
const ASSET_B: u64 = 20;
const MAKER_A: u64 = 100;
const MAKER_B: u64 = 101;
const TAKER_A: u64 = 200;
const TAKER_B: u64 = 201;

fn setup() -> Ledger {
    let mut l = Ledger::new(PROGRAM);
    l.open_account(MAKER_A, Owner::Key(MAKER), ASSET_A, 5000).unwrap();
    l.open_account(MAKER_B, Owner::Key(MAKER), ASSET_B, 0).unwrap();
    l.open_account(TAKER_B, Owner::Key(TAKER), ASSET_B, 300).unwrap();
    l
}

fn make_ctx(seed: u64) -> MakeContext {
    MakeContext {
        maker: MAKER,
        maker_mint: ASSET_A,
        taker_mint: ASSET_B,
        maker_ata: MAKER_A,
        escrow: record_address(MAKER, seed),
    }
}

fn take_ctx(seed: u64) -> TakeContext {
    TakeContext {
        taker: TAKER,
        taker_ata: TAKER_B,
        taker_receive_ata: TAKER_A,
        maker: MAKER,
        maker_ata: MAKER_B,
        maker_mint: ASSET_A,
        taker_mint: ASSET_B,
        escrow: record_address(MAKER, seed),
    }
}

fn refund_ctx(seed: u64) -> RefundContext {
    RefundContext {
        maker: MAKER,
        maker_mint: ASSET_A,
        maker_ata: MAKER_A,
        escrow: record_address(MAKER, seed),
    }
}

#[test]
fn make_then_take_swaps_both_legs() {
    let mut l = setup();
    assert_eq!(make(&mut l, &make_ctx(7), 1000, 50, 7), Ok(()));
    let addr = record_address(MAKER, 7);
    assert_eq!(l.vault_balance(addr), Some(1000));
    let rec = l.escrow(addr).unwrap();
    assert_eq!(rec.maker, MAKER);
    assert_eq!(rec.maker_mint, ASSET_A);
    assert_eq!(rec.taker_mint, ASSET_B);
    assert_eq!(rec.amount, 1000);
    assert_eq!(rec.offer_amount, 50);
    assert_eq!(rec.seed, 7);
    assert_eq!(l.balance(MAKER_A), Some(4000));

    assert_eq!(l.balance(TAKER_A), None);
    assert_eq!(take(&mut l, &take_ctx(7)), Ok(()));
    assert_eq!(l.balance(TAKER_B), Some(250));
    assert_eq!(l.balance(TAKER_A), Some(1000));
    assert_eq!(l.balance(MAKER_A), Some(4000));
    assert_eq!(l.balance(MAKER_B), Some(50));
    assert_eq!(l.escrow(addr), None);
    assert_eq!(l.vault_balance(addr), None);

    assert_eq!(take(&mut l, &take_ctx(7)), Err(EscrowError::RecordNotFound));
    assert_eq!(refund(&mut l, &refund_ctx(7)), Err(EscrowError::RecordNotFound));
}

#[test]
fn refund_before_take_restores_maker() {
    let mut l = setup();
    assert_eq!(make(&mut l, &make_ctx(7), 1000, 50, 7), Ok(()));
    assert_eq!(l.balance(MAKER_A), Some(4000));
    assert_eq!(refund(&mut l, &refund_ctx(7)), Ok(()));
    assert_eq!(l.balance(MAKER_A), Some(5000));
    assert_eq!(l.vault_balance(record_address(MAKER, 7)), None);
    assert_eq!(take(&mut l, &take_ctx(7)), Err(EscrowError::RecordNotFound));
    assert_eq!(refund(&mut l, &refund_ctx(7)), Err(EscrowError::RecordNotFound));
    assert_eq!(l.balance(TAKER_B), Some(300));
}

#[test]
fn second_make_with_same_seed_collides_until_closed() {
    let mut l = setup();
    assert_eq!(make(&mut l, &make_ctx(3), 100, 5, 3), Ok(()));
    assert_eq!(make(&mut l, &make_ctx(3), 200, 9, 3), Err(EscrowError::RecordAlreadyExists));
    assert_eq!(l.vault_balance(record_address(MAKER, 3)), Some(100));
    assert_eq!(l.balance(MAKER_A), Some(4900));
    // another seed is another record
    assert_eq!(make(&mut l, &make_ctx(4), 200, 9, 4), Ok(()));
    assert_eq!(refund(&mut l, &refund_ctx(3)), Ok(()));
    assert_eq!(make(&mut l, &make_ctx(3), 300, 9, 3), Ok(()));
    assert_eq!(l.vault_balance(record_address(MAKER, 3)), Some(300));
    assert_eq!(l.balance(MAKER_A), Some(4500));
}

#[test]
fn take_with_mismatched_receiving_asset_leaves_payment_undone() {
    let mut l = setup();
    assert_eq!(make(&mut l, &make_ctx(7), 1000, 50, 7), Ok(()));
    // the taker's receiving account holds asset B, not the vault's asset A
    let mut ctx = take_ctx(7);
    ctx.taker_receive_ata = 202;
    l.open_account(202, Owner::Key(TAKER), ASSET_B, 0).unwrap();
    assert_eq!(take(&mut l, &ctx), Err(EscrowError::MintMismatch));
    assert_eq!(l.balance(TAKER_B), Some(300));
    assert_eq!(l.balance(MAKER_B), Some(0));
    assert_eq!(l.balance(202), Some(0));
    assert_eq!(l.vault_balance(record_address(MAKER, 7)), Some(1000));
    // the offer is still open and settles normally
    assert_eq!(take(&mut l, &take_ctx(7)), Ok(()));
    assert_eq!(l.balance(TAKER_A), Some(1000));
}

#[test]
fn take_with_insufficient_payment_fails() {
    let mut l = setup();
    assert_eq!(make(&mut l, &make_ctx(1), 10, 301, 1), Ok(()));
    assert_eq!(take(&mut l, &take_ctx(1)), Err(EscrowError::InsufficientFunds));
    assert_eq!(l.vault_balance(record_address(MAKER, 1)), Some(10));
    assert_eq!(l.balance(TAKER_A), None);
}

#[test]
fn make_errors() {
    let mut l = setup();
    let mut wrong_addr = make_ctx(1);
    wrong_addr.escrow = record_address(MAKER, 2);
    assert_eq!(make(&mut l, &wrong_addr, 1, 1, 1), Err(EscrowError::AddressMismatch));
    assert_eq!(make(&mut l, &make_ctx(1), 5001, 1, 1), Err(EscrowError::InsufficientFunds));
    let mut missing = make_ctx(1);
    missing.maker_ata = 555;
    assert_eq!(make(&mut l, &missing, 1, 1, 1), Err(EscrowError::AccountNotFound));
    let mut not_owner = make_ctx(1);
    not_owner.maker_ata = TAKER_B;
    assert_eq!(make(&mut l, &not_owner, 1, 1, 1), Err(EscrowError::OwnerMismatch));
    let mut wrong_mint = make_ctx(1);
    wrong_mint.maker_ata = MAKER_B;
    assert_eq!(make(&mut l, &wrong_mint, 0, 1, 1), Err(EscrowError::MintMismatch));
    assert_eq!(l.balance(MAKER_A), Some(5000));
    assert_eq!(l.escrow(record_address(MAKER, 1)), None);
}

#[test]
fn refund_errors() {
    let mut l = setup();
    assert_eq!(make(&mut l, &make_ctx(1), 10, 1, 1), Ok(()));
    let mut stranger = refund_ctx(1);
    stranger.maker = TAKER;
    assert_eq!(refund(&mut l, &stranger), Err(EscrowError::MakerMismatch));
    let mut wrong_mint = refund_ctx(1);
    wrong_mint.maker_mint = ASSET_B;
    assert_eq!(refund(&mut l, &wrong_mint), Err(EscrowError::MintMismatch));
    let mut missing = refund_ctx(1);
    missing.maker_ata = 555;
    assert_eq!(refund(&mut l, &missing), Err(EscrowError::AccountNotFound));
    let mut not_owner = refund_ctx(1);
    not_owner.maker_ata = TAKER_B;
    assert_eq!(refund(&mut l, &not_owner), Err(EscrowError::OwnerMismatch));
    assert_eq!(l.vault_balance(record_address(MAKER, 1)), Some(10));
}

#[test]
fn refund_overflow_is_rejected() {
    let mut l = Ledger::new(PROGRAM);
    l.open_account(MAKER_A, Owner::Key(MAKER), ASSET_A, 10).unwrap();
    assert_eq!(make(&mut l, &make_ctx(1), 10, 1, 1), Ok(()));
    let mut full = refund_ctx(1);
    full.maker_ata = 7;
    l.open_account(7, Owner::Key(MAKER), ASSET_A, u64::MAX).unwrap();
    assert_eq!(refund(&mut l, &full), Err(EscrowError::Overflow));
    assert_eq!(refund(&mut l, &refund_ctx(1)), Ok(()));
    assert_eq!(l.balance(MAKER_A), Some(10));
}

#[test]
fn take_errors() {
    let mut l = setup();
    assert_eq!(make(&mut l, &make_ctx(1), 10, 1, 1), Ok(()));
    let mut other_maker = take_ctx(1);
    other_maker.maker = TAKER;
    assert_eq!(take(&mut l, &other_maker), Err(EscrowError::MakerMismatch));
    let mut other_asset = take_ctx(1);
    other_asset.taker_mint = ASSET_A;
    assert_eq!(take(&mut l, &other_asset), Err(EscrowError::MintMismatch));
    let mut missing = take_ctx(1);
    missing.taker_ata = 555;
    assert_eq!(take(&mut l, &missing), Err(EscrowError::AccountNotFound));
    let mut not_taker = take_ctx(1);
    not_taker.taker = MAKER;
    assert_eq!(take(&mut l, &not_taker), Err(EscrowError::OwnerMismatch));
    let mut receive_of_other = take_ctx(1);
    receive_of_other.taker_receive_ata = MAKER_A;
    assert_eq!(take(&mut l, &receive_of_other), Err(EscrowError::OwnerMismatch));
    assert_eq!(l.vault_balance(record_address(MAKER, 1)), Some(10));
    assert_eq!(l.balance(TAKER_B), Some(300));
}

#[test]
fn take_payment_overflow_is_rejected() {
    let mut l = setup();
    assert_eq!(make(&mut l, &make_ctx(1), 10, 1, 1), Ok(()));
    l.open_account(8, Owner::Key(MAKER), ASSET_B, u64::MAX).unwrap();
    let mut ctx = take_ctx(1);
    ctx.maker_ata = 8;
    assert_eq!(take(&mut l, &ctx), Err(EscrowError::Overflow));
    assert_eq!(l.balance(TAKER_B), Some(300));
}

#[test]
fn record_addresses_are_distinct_per_pair() {
    assert_eq!(record_address(1, 7), record_address(1, 7));
    assert_ne!(record_address(1, 7), record_address(1, 8));
    assert_ne!(record_address(1, 7), record_address(2, 7));
    assert_eq!(record_address(1, 7), (1u128 << 64) + 7);
    assert_eq!(record_address(u64::MAX, u64::MAX), u128::MAX);
}

#[test]
fn open_account_rejects_taken_address() {
    let mut l = setup();
    assert_eq!(
        l.open_account(MAKER_A, Owner::Key(TAKER), ASSET_B, 1),
        Err(EscrowError::AccountAlreadyExists)
    );
    assert_eq!(l.balance(MAKER_A), Some(5000));
}
