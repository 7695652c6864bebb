use vstd::prelude::*;

use crate::address::Address;

verus! {

/// How far past the creation time, in seconds, a deadline must lie.
pub const DEADLINE_BUFFER: i64 = 600;

/// Every way in which creating an escrow or depositing into one is refused.
#[derive(Clone, Copy, Debug, PartialEq, Eq, Structural)]
pub enum ErrorCode {
    InvalidDeadline,
    AmountMustBePositive,
    UnknownCaller,
    AlreadyDeposited,
    WrongMint,
    TokenAccountAuthorityMismatch,
    AmountMismatch,
}

/// The terms of one swap between two parties and how far each has deposited.
#[derive(Clone, Copy, Debug, PartialEq, Eq)]
pub struct Escrow {
    pub user_a: Address,
    pub user_b: Address,
    pub user_a_mint: Address,
    pub user_b_mint: Address,
    pub amount_a: u64,
    pub amount_b: u64,
    pub deadline: i64,
    pub a_deposited: bool,
    pub b_deposited: bool,
    /// Derivation nonce of the record's own address.
    pub bump: u8,
    /// Derivation nonce of the custody vault for `user_a_mint`.
    pub vault_a_bump: u8,
    /// Derivation nonce of the custody vault for `user_b_mint`.
    pub vault_b_bump: u8,
}

impl Escrow {
    /// Size of the stored record: an 8-byte type tag, four identities,
    /// two amounts, the deadline, two flags and three nonces.
    pub const LEN: usize = 8 + 4 * 32 + 3 * 8 + 2 + 3;

    /// The terms stay as they were set at creation.
    pub open spec fn same_terms(self, other: Escrow) -> bool {
        &&& self.user_a == other.user_a
        &&& self.user_b == other.user_b
        &&& self.user_a_mint == other.user_a_mint
        &&& self.user_b_mint == other.user_b_mint
        &&& self.amount_a == other.amount_a
        &&& self.amount_b == other.amount_b
        &&& self.deadline == other.deadline
        &&& self.bump == other.bump
        &&& self.vault_a_bump == other.vault_a_bump
        &&& self.vault_b_bump == other.vault_b_bump
    }
}

/// What creating an escrow reads: the two parties, the two assets, and the
/// nonces that the host found for the record's and vaults' addresses.
#[derive(Clone, Copy, Debug)]
pub struct InitializeEscrow {
    pub user_a: Address,
    pub user_b: Address,
    pub user_a_mint: Address,
    pub user_b_mint: Address,
    pub bump: u8,
    pub vault_a_bump: u8,
    pub vault_b_bump: u8,
}

/// The deadline lies strictly more than the buffer past `now`.
pub open spec fn deadline_ok(deadline: i64, now: i64) -> bool {
    deadline > now + DEADLINE_BUFFER
}

/// The record that creation with these arguments stores.
pub open spec fn created_escrow(ctx: InitializeEscrow, amount_a: u64, amount_b: u64, deadline: i64) -> Escrow {
    Escrow {
        user_a: ctx.user_a,
        user_b: ctx.user_b,
        user_a_mint: ctx.user_a_mint,
        user_b_mint: ctx.user_b_mint,
        amount_a,
        amount_b,
        deadline,
        a_deposited: false,
        b_deposited: false,
        bump: ctx.bump,
        vault_a_bump: ctx.vault_a_bump,
        vault_b_bump: ctx.vault_b_bump,
    }
}

/// The outcome of creation: the deadline is checked first, then both amounts.
pub open spec fn initialize_outcome(
    ctx: InitializeEscrow,
    amount_a: u64,
    amount_b: u64,
    deadline: i64,
    now: i64,
) -> Result<Escrow, ErrorCode> {
    if !deadline_ok(deadline, now) {
        Err(ErrorCode::InvalidDeadline)
    } else if amount_a == 0 || amount_b == 0 {
        Err(ErrorCode::AmountMustBePositive)
    } else {
        Ok(created_escrow(ctx, amount_a, amount_b, deadline))
    }
}

/// Validates the terms of a new escrow and builds its record, with neither
/// party deposited. `current_time` is the host clock in seconds.
pub fn initialize_escrow(
    ctx: &InitializeEscrow,
    amount_a: u64,
    amount_b: u64,
    deadline: i64,
    current_time: i64,
) -> (r: Result<Escrow, ErrorCode>)
    ensures
        r == initialize_outcome(*ctx, amount_a, amount_b, deadline, current_time),
        r == Err::<Escrow, ErrorCode>(ErrorCode::InvalidDeadline) <==> !deadline_ok(
            deadline,
            current_time,
        ),
        r == Err::<Escrow, ErrorCode>(ErrorCode::AmountMustBePositive) <==> (deadline_ok(
            deadline,
            current_time,
        ) && (amount_a == 0 || amount_b == 0)),
        r is Ok <==> (deadline_ok(deadline, current_time) && amount_a > 0 && amount_b > 0),
        r matches Ok(e) ==> !e.a_deposited && !e.b_deposited,
{
    // Widened so that a clock near the top of the range cannot overflow.
    if (deadline as i128) <= (current_time as i128) + (DEADLINE_BUFFER as i128) {
        return Err(ErrorCode::InvalidDeadline);
    }
    if amount_a == 0 || amount_b == 0 {
        return Err(ErrorCode::AmountMustBePositive);
    }
    Ok(
        Escrow {
            user_a: ctx.user_a,
            user_b: ctx.user_b,
            user_a_mint: ctx.user_a_mint,
            user_b_mint: ctx.user_b_mint,
            amount_a,
            amount_b,
            deadline,
            a_deposited: false,
            b_deposited: false,
            bump: ctx.bump,
            vault_a_bump: ctx.vault_a_bump,
            vault_b_bump: ctx.vault_b_bump,
        },
    )
}

} // verus!
