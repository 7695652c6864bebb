use vstd::prelude::*;

use crate::address::Address;
use crate::escrow::{ErrorCode, Escrow};

verus! {

/// A caller's position in the deal.
#[derive(Clone, Copy, Debug, PartialEq, Eq, Structural)]
pub enum Role {
    A,
    B,
}

/// What a deposit reads of a token account: the asset it holds and who owns it.
#[derive(Clone, Copy, Debug)]
pub struct TokenAccount {
    pub mint: Address,
    pub owner: Address,
}

/// What a deposit reads: the signing caller and both parties' token accounts.
#[derive(Clone, Copy, Debug)]
pub struct Deposit {
    pub user: Address,
    pub user_a_token: TokenAccount,
    pub user_b_token: TokenAccount,
}

/// The token transfer that an admitted deposit orders: `amount` units from
/// the role's token account into the role's custody vault, signed by the caller.
#[derive(Clone, Copy, Debug, PartialEq, Eq, Structural)]
pub struct Transfer {
    pub role: Role,
    pub amount: u64,
}

impl Escrow {
    pub open spec fn party(self, role: Role) -> Address {
        match role {
            Role::A => self.user_a,
            Role::B => self.user_b,
        }
    }

    pub open spec fn mint(self, role: Role) -> Address {
        match role {
            Role::A => self.user_a_mint,
            Role::B => self.user_b_mint,
        }
    }

    pub open spec fn amount(self, role: Role) -> u64 {
        match role {
            Role::A => self.amount_a,
            Role::B => self.amount_b,
        }
    }

    pub open spec fn deposited(self, role: Role) -> bool {
        match role {
            Role::A => self.a_deposited,
            Role::B => self.b_deposited,
        }
    }

    /// The record with the role's deposited flag set and nothing else changed.
    pub open spec fn with_deposited(self, role: Role) -> Escrow {
        match role {
            Role::A => Escrow { a_deposited: true, ..self },
            Role::B => Escrow { b_deposited: true, ..self },
        }
    }

    /// The role of `caller`: A if it is `user_a`, else B if it is `user_b`.
    pub open spec fn role_of(self, caller: Address) -> Option<Role> {
        if caller@ == self.user_a@ {
            Some(Role::A)
        } else if caller@ == self.user_b@ {
            Some(Role::B)
        } else {
            None
        }
    }

    /// Whether both parties have deposited.
    pub open spec fn funded(self) -> bool {
        self.a_deposited && self.b_deposited
    }
}

impl Deposit {
    pub open spec fn token(self, role: Role) -> TokenAccount {
        match role {
            Role::A => self.user_a_token,
            Role::B => self.user_b_token,
        }
    }
}

/// The outcome of a deposit of `amount` on `e`; the first failing check wins.
pub open spec fn deposit_outcome(e: Escrow, ctx: Deposit, amount: u64) -> Result<Transfer, ErrorCode> {
    match e.role_of(ctx.user) {
        None => Err(ErrorCode::UnknownCaller),
        Some(role) => {
            if e.deposited(role) {
                Err(ErrorCode::AlreadyDeposited)
            } else if amount != e.amount(role) {
                Err(ErrorCode::AmountMismatch)
            } else if ctx.token(role).mint@ != e.mint(role)@ {
                Err(ErrorCode::WrongMint)
            } else if ctx.token(role).owner@ != ctx.user@ {
                Err(ErrorCode::TokenAccountAuthorityMismatch)
            } else {
                Ok(Transfer { role, amount })
            }
        },
    }
}

/// The record after a deposit: the role's flag is set if it was admitted.
pub open spec fn escrow_after(e: Escrow, ctx: Deposit, amount: u64) -> Escrow {
    match deposit_outcome(e, ctx, amount) {
        Ok(t) => e.with_deposited(t.role),
        Err(_) => e,
    }
}

fn role_of(escrow: &Escrow, caller: &Address) -> (r: Option<Role>)
    ensures
        r == escrow.role_of(*caller),
{
    if caller.equals(&escrow.user_a) {
        Some(Role::A)
    } else if caller.equals(&escrow.user_b) {
        Some(Role::B)
    } else {
        None
    }
}

/// Admits a deposit of `amount` by `ctx.user`, marks the caller's role as
/// deposited, and returns the transfer that must move the funds into the
/// role's vault. The host applies the flag and the transfer together or not
/// at all; on any refusal the record is left unchanged.
pub fn deposit(escrow: &mut Escrow, ctx: &Deposit, amount: u64) -> (r: Result<Transfer, ErrorCode>)
    ensures
        r == deposit_outcome(*old(escrow), *ctx, amount),
        *final(escrow) == escrow_after(*old(escrow), *ctx, amount),
        final(escrow).same_terms(*old(escrow)),
        old(escrow).role_of(ctx.user) is None ==> r == Err::<Transfer, ErrorCode>(
            ErrorCode::UnknownCaller,
        ),
        r is Err ==> *final(escrow) == *old(escrow),
        r matches Ok(t) ==> {
            &&& old(escrow).role_of(ctx.user) == Some(t.role)
            &&& t.amount == old(escrow).amount(t.role)
            &&& !old(escrow).deposited(t.role)
            &&& final(escrow).deposited(t.role)
        },
{
    let role = match role_of(escrow, &ctx.user) {
        None => return Err(ErrorCode::UnknownCaller),
        Some(role) => role,
    };
    let (already, expected, mint, token) = match role {
        Role::A => (escrow.a_deposited, escrow.amount_a, escrow.user_a_mint, ctx.user_a_token),
        Role::B => (escrow.b_deposited, escrow.amount_b, escrow.user_b_mint, ctx.user_b_token),
    };
    if already {
        return Err(ErrorCode::AlreadyDeposited);
    }
    if amount != expected {
        return Err(ErrorCode::AmountMismatch);
    }
    if !token.mint.equals(&mint) {
        return Err(ErrorCode::WrongMint);
    }
    if !token.owner.equals(&ctx.user) {
        return Err(ErrorCode::TokenAccountAuthorityMismatch);
    }
    match role {
        Role::A => escrow.a_deposited = true,
        Role::B => escrow.b_deposited = true,
    }
    Ok(Transfer { role, amount })
}

} // verus!
