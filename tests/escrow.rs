use escrow_program::{
    deposit, initialize_escrow, Address, Deposit, ErrorCode, Escrow, InitializeEscrow, Role,
    TokenAccount, Transfer, DEADLINE_BUFFER,
};

const NOW: i64 = 1_700_000_000;

fn addr(tag: u8) -> Address {
    let mut bytes = [0u8; 32];
    bytes[0] = tag;
    bytes[31] = tag.wrapping_mul(7);
    Address::new(bytes)
}

fn party_a() -> Address {
    addr(1)
}

fn party_b() -> Address {
    addr(2)
}

fn asset_x() -> Address {
    addr(10)
}

fn asset_y() -> Address {
    addr(11)
}

fn stranger() -> Address {
    addr(99)
}

fn init_ctx() -> InitializeEscrow {
    InitializeEscrow {
        user_a: party_a(),
        user_b: party_b(),
        user_a_mint: asset_x(),
        user_b_mint: asset_y(),
        bump: 254,
        vault_a_bump: 253,
        vault_b_bump: 252,
    }
}

fn created(amount_a: u64, amount_b: u64) -> Escrow {
    initialize_escrow(&init_ctx(), amount_a, amount_b, NOW + 3600, NOW).unwrap()
}

fn token(mint: Address, owner: Address) -> TokenAccount {
    TokenAccount { mint, owner }
}

fn by(user: Address) -> Deposit {
    Deposit {
        user,
        user_a_token: token(asset_x(), party_a()),
        user_b_token: token(asset_y(), party_b()),
    }
}

/// Balances of the two custody vaults after applying the ordered transfers.
fn vault_balances(transfers: &[Transfer]) -> (u64, u64) {
    let mut vault_a = 0u64;
    let mut vault_b = 0u64;
    for t in transfers {
        match t.role {
            Role::A => vault_a += t.amount,
            Role::B => vault_b += t.amount,
        }
    }
    (vault_a, vault_b)
}

#[test]
fn deadline_at_buffer_is_rejected() {
    let r = initialize_escrow(&init_ctx(), 100, 50, NOW + 600, NOW);
    assert_eq!(r, Err(ErrorCode::InvalidDeadline));
}

#[test]
fn deadline_before_now_is_rejected() {
    let r = initialize_escrow(&init_ctx(), 100, 50, NOW - 1, NOW);
    assert_eq!(r, Err(ErrorCode::InvalidDeadline));
}

#[test]
fn deadline_one_past_buffer_is_accepted() {
    let r = initialize_escrow(&init_ctx(), 100, 50, NOW + 601, NOW);
    assert!(r.is_ok());
    assert_eq!(DEADLINE_BUFFER, 600);
}

#[test]
fn deadline_check_does_not_overflow_near_clock_limit() {
    let r = initialize_escrow(&init_ctx(), 100, 50, i64::MAX, i64::MAX - 100);
    assert_eq!(r, Err(ErrorCode::InvalidDeadline));
    let r = initialize_escrow(&init_ctx(), 100, 50, i64::MAX, i64::MIN);
    assert!(r.is_ok());
}

#[test]
fn zero_amount_a_is_rejected() {
    let r = initialize_escrow(&init_ctx(), 0, 50, NOW + 3600, NOW);
    assert_eq!(r, Err(ErrorCode::AmountMustBePositive));
}

#[test]
fn zero_amount_b_is_rejected() {
    let r = initialize_escrow(&init_ctx(), 100, 0, NOW + 3600, NOW);
    assert_eq!(r, Err(ErrorCode::AmountMustBePositive));
}

#[test]
fn deadline_is_checked_before_amounts() {
    let r = initialize_escrow(&init_ctx(), 0, 0, NOW, NOW);
    assert_eq!(r, Err(ErrorCode::InvalidDeadline));
}

#[test]
fn amount_of_one_is_accepted() {
    let r = initialize_escrow(&init_ctx(), 1, 50, NOW + 3600, NOW);
    assert!(r.is_ok());
}

#[test]
fn created_escrow_holds_terms_and_no_deposits() {
    let e = created(100, 50);
    assert_eq!(e.user_a, party_a());
    assert_eq!(e.user_b, party_b());
    assert_eq!(e.user_a_mint, asset_x());
    assert_eq!(e.user_b_mint, asset_y());
    assert_eq!(e.amount_a, 100);
    assert_eq!(e.amount_b, 50);
    assert_eq!(e.deadline, NOW + 3600);
    assert!(!e.a_deposited);
    assert!(!e.b_deposited);
    assert_eq!((e.bump, e.vault_a_bump, e.vault_b_bump), (254, 253, 252));
    assert_eq!(vault_balances(&[]), (0, 0));
}

#[test]
fn record_size_is_fixed() {
    assert_eq!(Escrow::LEN, 165);
}

#[test]
fn unknown_caller_is_rejected_without_change() {
    let mut e = created(100, 50);
    let before = e;
    let r = deposit(&mut e, &by(stranger()), 100);
    assert_eq!(r, Err(ErrorCode::UnknownCaller));
    assert_eq!(e, before);
}

#[test]
fn wrong_amount_by_party_a_is_rejected() {
    let mut e = created(100, 50);
    let before = e;
    assert_eq!(deposit(&mut e, &by(party_a()), 99), Err(ErrorCode::AmountMismatch));
    assert_eq!(deposit(&mut e, &by(party_a()), 101), Err(ErrorCode::AmountMismatch));
    assert_eq!(e, before);
}

#[test]
fn exact_amount_by_party_a_is_admitted() {
    let mut e = created(100, 50);
    let r = deposit(&mut e, &by(party_a()), 100);
    assert_eq!(r, Ok(Transfer { role: Role::A, amount: 100 }));
    assert!(e.a_deposited);
    assert!(!e.b_deposited);
    assert_eq!(vault_balances(&[r.unwrap()]), (100, 0));
}

#[test]
fn wrong_mint_is_rejected() {
    let mut e = created(100, 50);
    let before = e;
    let mut ctx = by(party_a());
    ctx.user_a_token = token(asset_y(), party_a());
    assert_eq!(deposit(&mut e, &ctx, 100), Err(ErrorCode::WrongMint));
    assert_eq!(e, before);
}

#[test]
fn token_account_of_someone_else_is_rejected() {
    let mut e = created(100, 50);
    let before = e;
    let mut ctx = by(party_b());
    ctx.user_b_token = token(asset_y(), stranger());
    assert_eq!(
        deposit(&mut e, &ctx, 50),
        Err(ErrorCode::TokenAccountAuthorityMismatch)
    );
    assert_eq!(e, before);
}

#[test]
fn second_deposit_by_same_party_is_rejected() {
    let mut e = created(100, 50);
    let first = deposit(&mut e, &by(party_a()), 100).unwrap();
    let after_first = e;
    let r = deposit(&mut e, &by(party_a()), 100);
    assert_eq!(r, Err(ErrorCode::AlreadyDeposited));
    assert_eq!(e, after_first);
    assert_eq!(vault_balances(&[first]), (100, 0));
}

#[test]
fn already_deposited_is_checked_before_amount() {
    let mut e = created(100, 50);
    deposit(&mut e, &by(party_b()), 50).unwrap();
    assert_eq!(deposit(&mut e, &by(party_b()), 7), Err(ErrorCode::AlreadyDeposited));
}

#[test]
fn deposit_by_b_leaves_a_untouched() {
    let mut e = created(100, 50);
    let t = deposit(&mut e, &by(party_b()), 50).unwrap();
    assert_eq!(t, Transfer { role: Role::B, amount: 50 });
    assert!(!e.a_deposited);
    assert!(e.b_deposited);
    assert_eq!(vault_balances(&[t]), (0, 50));
}

#[test]
fn deposits_in_either_order_converge() {
    let mut ab = created(100, 50);
    let ta = deposit(&mut ab, &by(party_a()), 100).unwrap();
    let tb = deposit(&mut ab, &by(party_b()), 50).unwrap();

    let mut ba = created(100, 50);
    let tb2 = deposit(&mut ba, &by(party_b()), 50).unwrap();
    let ta2 = deposit(&mut ba, &by(party_a()), 100).unwrap();

    assert_eq!(ab, ba);
    assert!(ab.a_deposited && ab.b_deposited);
    assert_eq!(vault_balances(&[ta, tb]), vault_balances(&[tb2, ta2]));
}

#[test]
fn same_identity_for_both_parties_takes_role_a() {
    let mut ctx = init_ctx();
    ctx.user_b = party_a();
    let mut e = initialize_escrow(&ctx, 100, 50, NOW + 3600, NOW).unwrap();
    let mut d = by(party_a());
    d.user_b_token = token(asset_y(), party_a());
    assert_eq!(deposit(&mut e, &d, 50), Err(ErrorCode::AmountMismatch));
    assert_eq!(deposit(&mut e, &d, 100), Ok(Transfer { role: Role::A, amount: 100 }));
    assert_eq!(deposit(&mut e, &d, 50), Err(ErrorCode::AlreadyDeposited));
    assert!(!e.b_deposited);
}

#[test]
fn deposit_after_deadline_is_still_admitted() {
    // The deadline is only checked at creation.
    let mut e = initialize_escrow(&init_ctx(), 100, 50, NOW + 601, NOW).unwrap();
    assert!(deposit(&mut e, &by(party_a()), 100).is_ok());
}

#[test]
fn address_equality_compares_every_byte() {
    let mut bytes = [5u8; 32];
    let a = Address::new(bytes);
    bytes[31] = 6;
    let b = Address::new(bytes);
    assert!(!a.equals(&b));
    assert!(a.equals(&Address::new([5u8; 32])));
    assert_ne!(a, b);
}

#[test]
fn end_to_end_swap() {
    let mut e = initialize_escrow(&init_ctx(), 100, 50, NOW + 3600, NOW).unwrap();
    let ta = deposit(&mut e, &by(party_a()), 100).unwrap();
    let tb = deposit(&mut e, &by(party_b()), 50).unwrap();
    assert!(e.a_deposited);
    assert!(e.b_deposited);
    assert_eq!(ta, Transfer { role: Role::A, amount: 100 });
    assert_eq!(tb, Transfer { role: Role::B, amount: 50 });
    assert_eq!(vault_balances(&[ta, tb]), (100, 50));
}
