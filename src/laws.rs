use vstd::prelude::*;

use crate::deposit::{deposit_outcome, escrow_after, Deposit, Role, Transfer};
use crate::escrow::{
    created_escrow, deadline_ok, initialize_outcome, ErrorCode, Escrow, InitializeEscrow,
    DEADLINE_BUFFER,
};

verus! {

/// Creation is refused as an invalid deadline exactly when the deadline lies
/// at most the buffer past `now`; one second more is enough to pass that check.
pub proof fn lemma_deadline_boundary(
    ctx: InitializeEscrow,
    amount_a: u64,
    amount_b: u64,
    deadline: i64,
    now: i64,
)
    ensures
        deadline <= now + DEADLINE_BUFFER ==> initialize_outcome(
            ctx,
            amount_a,
            amount_b,
            deadline,
            now,
        ) == Err::<Escrow, ErrorCode>(ErrorCode::InvalidDeadline),
        (deadline == now + DEADLINE_BUFFER + 1 && amount_a > 0 && amount_b > 0)
            ==> initialize_outcome(ctx, amount_a, amount_b, deadline, now) is Ok,
{
}

/// With a valid deadline, creation is refused for a zero amount on either
/// side, and any two positive amounts, however small, are accepted.
pub proof fn lemma_amounts_positive(
    ctx: InitializeEscrow,
    amount_a: u64,
    amount_b: u64,
    deadline: i64,
    now: i64,
)
    requires
        deadline_ok(deadline, now),
    ensures
        (amount_a == 0 || amount_b == 0) ==> initialize_outcome(
            ctx,
            amount_a,
            amount_b,
            deadline,
            now,
        ) == Err::<Escrow, ErrorCode>(ErrorCode::AmountMustBePositive),
        (amount_a > 0 && amount_b > 0) ==> initialize_outcome(
            ctx,
            amount_a,
            amount_b,
            deadline,
            now,
        ) == Ok::<Escrow, ErrorCode>(created_escrow(ctx, amount_a, amount_b, deadline)),
{
}

/// A freshly created escrow has neither party deposited, so each party's
/// first deposit is judged on its terms alone and never as a repeat.
pub proof fn lemma_created_escrow_unfunded(
    ctx: InitializeEscrow,
    amount_a: u64,
    amount_b: u64,
    deadline: i64,
    now: i64,
    caller: Deposit,
    amount: u64,
)
    requires
        initialize_outcome(ctx, amount_a, amount_b, deadline, now) is Ok,
    ensures
        initialize_outcome(ctx, amount_a, amount_b, deadline, now) matches Ok(e) && {
            &&& !e.a_deposited
            &&& !e.b_deposited
            &&& deposit_outcome(e, caller, amount) != Err::<Transfer, ErrorCode>(
                ErrorCode::AlreadyDeposited,
            )
        },
{
}

/// A deposit by anyone who is neither party is refused as an unknown caller
/// and leaves the record as it was.
pub proof fn lemma_unknown_caller_refused(e: Escrow, ctx: Deposit, amount: u64)
    requires
        ctx.user@ != e.user_a@,
        ctx.user@ != e.user_b@,
    ensures
        deposit_outcome(e, ctx, amount) == Err::<Transfer, ErrorCode>(ErrorCode::UnknownCaller),
        escrow_after(e, ctx, amount) == e,
{
}

/// A first deposit by party A is refused unless it is exactly `amount_a`; with
/// that amount, the right asset and the caller's own token account it is
/// admitted, sets `a_deposited` and orders exactly `amount_a` into vault A.
pub proof fn lemma_deposit_amount_must_match(e: Escrow, ctx: Deposit, amount: u64)
    requires
        ctx.user@ == e.user_a@,
        !e.a_deposited,
    ensures
        amount != e.amount_a ==> deposit_outcome(e, ctx, amount) == Err::<Transfer, ErrorCode>(
            ErrorCode::AmountMismatch,
        ) && escrow_after(e, ctx, amount) == e,
        (amount == e.amount_a && ctx.user_a_token.mint@ == e.user_a_mint@
            && ctx.user_a_token.owner@ == ctx.user@) ==> {
            &&& deposit_outcome(e, ctx, amount) == Ok::<Transfer, ErrorCode>(
                Transfer { role: Role::A, amount: e.amount_a },
            )
            &&& escrow_after(e, ctx, amount).a_deposited
        },
{
}

/// Once a party's deposit has been admitted, every later deposit by the same
/// caller is refused as already deposited, orders no transfer and leaves the
/// record unchanged.
pub proof fn lemma_deposit_exactly_once(
    e: Escrow,
    ctx: Deposit,
    amount: u64,
    again: Deposit,
    amount_again: u64,
)
    requires
        deposit_outcome(e, ctx, amount) is Ok,
        again.user@ == ctx.user@,
    ensures
        deposit_outcome(escrow_after(e, ctx, amount), again, amount_again) == Err::<
            Transfer,
            ErrorCode,
        >(ErrorCode::AlreadyDeposited),
        escrow_after(escrow_after(e, ctx, amount), again, amount_again) == escrow_after(
            e,
            ctx,
            amount,
        ),
{
}

/// An admitted deposit touches only its own role: the other role's flag stays
/// as it was, and the transfer it orders goes to its own role's vault alone.
pub proof fn lemma_roles_independent(e: Escrow, ctx: Deposit, amount: u64)
    requires
        deposit_outcome(e, ctx, amount) is Ok,
    ensures
        deposit_outcome(e, ctx, amount) matches Ok(t) && {
            &&& e.role_of(ctx.user) == Some(t.role)
            &&& t.role == Role::A ==> escrow_after(e, ctx, amount).b_deposited == e.b_deposited
            &&& t.role == Role::B ==> escrow_after(e, ctx, amount).a_deposited == e.a_deposited
        },
{
}

/// Two deposits that are each admissible, one for each role, stay admissible
/// in either order, order the same transfers, and end in the same fully
/// funded record.
pub proof fn lemma_deposit_order_irrelevant(
    e: Escrow,
    ctx_a: Deposit,
    amount_a: u64,
    ctx_b: Deposit,
    amount_b: u64,
)
    requires
        deposit_outcome(e, ctx_a, amount_a) matches Ok(t) && t.role == Role::A,
        deposit_outcome(e, ctx_b, amount_b) matches Ok(t) && t.role == Role::B,
    ensures
        deposit_outcome(escrow_after(e, ctx_a, amount_a), ctx_b, amount_b) == deposit_outcome(
            e,
            ctx_b,
            amount_b,
        ),
        deposit_outcome(escrow_after(e, ctx_b, amount_b), ctx_a, amount_a) == deposit_outcome(
            e,
            ctx_a,
            amount_a,
        ),
        escrow_after(escrow_after(e, ctx_a, amount_a), ctx_b, amount_b) == escrow_after(
            escrow_after(e, ctx_b, amount_b),
            ctx_a,
            amount_a,
        ),
        escrow_after(escrow_after(e, ctx_a, amount_a), ctx_b, amount_b).funded(),
{
}

} // verus!

verus! {

/// Total that a sequence of transfers orders into the vault of `role`.
pub open spec fn vault_credit(orders: Seq<Transfer>, role: Role) -> int
    decreases orders.len(),
{
    if orders.len() == 0 {
        0
    } else {
        vault_credit(orders.drop_last(), role) + if orders.last().role == role {
            orders.last().amount as int
        } else {
            0
        }
    }
}

/// The record and the transfers ordered after applying a sequence of deposit
/// requests, in order, to `e`; refused requests change nothing.
pub open spec fn replay(e: Escrow, requests: Seq<(Deposit, u64)>) -> (Escrow, Seq<Transfer>)
    decreases requests.len(),
{
    if requests.len() == 0 {
        (e, Seq::empty())
    } else {
        let (prev, orders) = replay(e, requests.drop_last());
        let (ctx, amount) = requests.last();
        match deposit_outcome(prev, ctx, amount) {
            Ok(t) => (escrow_after(prev, ctx, amount), orders.push(t)),
            Err(_) => (prev, orders),
        }
    }
}

/// From a record with no deposits, whatever deposits are attempted, the terms
/// never change and each vault has been ordered exactly its role's amount if
/// that role's flag is set, and nothing otherwise.
pub proof fn lemma_vaults_follow_flags(e: Escrow, requests: Seq<(Deposit, u64)>)
    requires
        !e.a_deposited,
        !e.b_deposited,
    ensures
        replay(e, requests).0.same_terms(e),
        vault_credit(replay(e, requests).1, Role::A) == if replay(e, requests).0.a_deposited {
            e.amount_a as int
        } else {
            0
        },
        vault_credit(replay(e, requests).1, Role::B) == if replay(e, requests).0.b_deposited {
            e.amount_b as int
        } else {
            0
        },
    decreases requests.len(),
{
    if requests.len() > 0 {
        lemma_vaults_follow_flags(e, requests.drop_last());
        let (prev, orders) = replay(e, requests.drop_last());
        let (ctx, amount) = requests.last();
        if let Ok(t) = deposit_outcome(prev, ctx, amount) {
            let next = orders.push(t);
            assert(next.drop_last() =~= orders);
        }
    }
}

/// A record just created has had nothing ordered into either vault.
pub proof fn lemma_created_vaults_empty(
    ctx: InitializeEscrow,
    amount_a: u64,
    amount_b: u64,
    deadline: i64,
    now: i64,
)
    requires
        initialize_outcome(ctx, amount_a, amount_b, deadline, now) is Ok,
    ensures
        initialize_outcome(ctx, amount_a, amount_b, deadline, now) matches Ok(e) && {
            &&& vault_credit(replay(e, Seq::empty()).1, Role::A) == 0
            &&& vault_credit(replay(e, Seq::empty()).1, Role::B) == 0
        },
{
}

} // verus!
