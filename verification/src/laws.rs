//! What holds of every escrow, whatever is asked of it and in whatever order.
//!
//! The laws are stated over one escrow with its vault, and over sequences of
//! calls on it.

use crate::custody::{created, Call, Custody};
use crate::error::EscrowError;
use crate::escrow::Escrow;
use crate::lifecycle::{CancelEscrow, ConfirmDelivery, CreateEscrow, ResolveTimeout};
use crate::pubkey::{lemma_nobody_unique, Pubkey};
use crate::state::{lemma_graph_shape, EscrowState};
use vstd::prelude::*;

verus! {

/// A successful `Create` leaves a well-formed record in `Created`, without a
/// seller, and a vault of the escrow's own that holds exactly the amount.
pub proof fn law_create_establishes(
    ctx: CreateEscrow,
    amount: u64,
    timeout_duration: i64,
    description: String,
    now: i64,
)
    requires
        ctx.verdict(amount, timeout_duration, description@) is Ok,
        now + timeout_duration <= i64::MAX,
    ensures
        ({
            let c = created(ctx.applied(amount, timeout_duration, description, now));
            &&& c.escrow.wf()
            &&& c.intact()
            &&& c.escrow.state == EscrowState::Created
            &&& c.escrow.seller.is_nobody()
            &&& c.escrow.amount == amount
            &&& c.vault.balance == amount
        }),
{
    lemma_nobody_unique(Pubkey::nobody());
}

/// A call either leaves the state as it is or moves it along one edge of the
/// graph. It never changes who the buyer is, which asset and how much of it
/// is escrowed, when the escrow was created, when it times out, what its
/// description says or which salt it carries.
pub proof fn law_step_follows_graph(c: Custody, call: Call)
    ensures
        c.step(call).escrow.state == c.escrow.state || c.escrow.state.edge(
            c.step(call).escrow.state,
        ),
        c.outcome(call) is Ok ==> c.escrow.state == call.request.transition().source()
            && c.step(call).escrow.state == call.request.transition().target(),
        c.outcome(call) is Err ==> c.step(call) == c,
        c.step(call).key == c.key,
        c.step(call).escrow.buyer == c.escrow.buyer,
        c.step(call).escrow.mint == c.escrow.mint,
        c.step(call).escrow.amount == c.escrow.amount,
        c.step(call).escrow.created_at == c.escrow.created_at,
        c.step(call).escrow.timeout_at == c.escrow.timeout_at,
        c.step(call).escrow.description == c.escrow.description,
        c.step(call).escrow.bump == c.escrow.bump,
{
    if c.outcome(call) is Ok {
        let t = call.request.transition();
        assert(t.source() == c.escrow.state && t.target() == c.step(call).escrow.state);
    }
}

/// Running two sequences of calls one after the other is running their
/// concatenation; what is released adds up.
pub proof fn lemma_run_concat(c: Custody, first: Seq<Call>, second: Seq<Call>)
    ensures
        c.run(first + second) == c.run(first).run(second),
        c.released(first + second) == c.released(first) + c.run(first).released(second),
        c.releases(first + second) == c.releases(first) + c.run(first).releases(second),
    decreases first.len(),
{
    if first.len() == 0 {
        assert(first + second =~= second);
    } else {
        assert((first + second)[0] == first[0]);
        assert((first + second).skip(1) =~= first.skip(1) + second);
        lemma_run_concat(c.step(first[0]), first.skip(1), second);
    }
}

/// State monotonicity: whatever calls are made and in whatever order, the
/// state never regresses and never skips a state. The state after any further
/// calls is one that the graph reaches from the state before them.
pub proof fn law_state_only_moves_forward(c: Custody, before: Seq<Call>, after: Seq<Call>)
    ensures
        c.run(before).escrow.state.reaches(c.run(before + after).escrow.state),
        c.run(before).escrow.state.rank() <= c.run(before + after).escrow.state.rank(),
{
    lemma_run_concat(c, before, after);
    lemma_reaches(c.run(before), after);
}

proof fn lemma_reaches(c: Custody, calls: Seq<Call>)
    ensures
        c.escrow.state.reaches(c.run(calls).escrow.state),
        c.escrow.state.rank() <= c.run(calls).escrow.state.rank(),
    decreases calls.len(),
{
    if calls.len() > 0 {
        let next = c.step(calls[0]);
        law_step_follows_graph(c, calls[0]);
        lemma_reaches(next, calls.skip(1));
        let last = next.run(calls.skip(1)).escrow.state;
        lemma_graph_shape(c.escrow.state, next.escrow.state);
        lemma_graph_shape(next.escrow.state, last);
        lemma_graph_shape(c.escrow.state, last);
    }
}

/// Exclusivity of terminal effects: once a terminal state is reached, every
/// further call is rejected with `InvalidState` and changes nothing.
pub proof fn law_terminal_is_final(c: Custody, call: Call)
    requires
        c.escrow.state.terminal(),
    ensures
        c.outcome(call) == Err::<(), EscrowError>(EscrowError::InvalidState),
        c.step(call) == c,
{
}

/// An identity under which an escrow or a vault lives cannot be created
/// again: `Create` is rejected with `InvalidState`.
pub proof fn law_create_is_once(
    ctx: CreateEscrow,
    amount: u64,
    timeout_duration: i64,
    description: Seq<char>,
)
    requires
        ctx.occupied(),
    ensures
        ctx.verdict(amount, timeout_duration, description) == Err::<(), EscrowError>(
            EscrowError::InvalidState,
        ),
{
}

/// Conservation, one call at a time: a call keeps the custody invariant, and
/// what the vault holds after it and what the call released make up what the
/// vault held before.
pub proof fn law_step_conserves(c: Custody, call: Call)
    requires
        c.intact(),
    ensures
        c.step(call).intact(),
        c.step(call).vault.balance + c.released_by(call) == c.vault.balance,
        c.is_release(call) ==> !c.escrow.state.terminal() && c.step(call).escrow.state.terminal()
            && c.released_by(call) == c.escrow.amount,
{
}

/// Conservation: for an escrow that starts with its vault in order, and
/// whatever calls are made, the balance of the vault and the amount released
/// so far make up the escrowed amount, until and after the one release. The
/// vault is released at most once, and never once a terminal state had been
/// reached.
pub proof fn law_conservation(c: Custody, calls: Seq<Call>)
    requires
        c.intact(),
    ensures
        c.run(calls).intact(),
        c.run(calls).vault.balance + c.released(calls) == c.vault.balance,
        c.run(calls).owed() + c.released(calls) == c.owed(),
        c.releases(calls) <= 1,
        c.escrow.state.terminal() ==> c.releases(calls) == 0,
        c.releases(calls) == 0 ==> c.released(calls) == 0,
        c.releases(calls) == 1 ==> c.released(calls) == c.escrow.amount,
    decreases calls.len(),
{
    if calls.len() > 0 {
        law_step_conserves(c, calls[0]);
        law_step_follows_graph(c, calls[0]);
        law_conservation(c.step(calls[0]), calls.skip(1));
    }
}

/// Funds are moved, never made or lost: a successful `Create` takes from the
/// buyer's account exactly what it puts into the vault, and a successful
/// `ConfirmDelivery`, `Cancel` or `ResolveTimeout` adds to the account that it
/// pays exactly what it takes out of the vault, which is all of it.
pub proof fn law_funds_are_moved(
    create: CreateEscrow,
    amount: u64,
    timeout_duration: i64,
    description: String,
    confirm: ConfirmDelivery,
    cancel: CancelEscrow,
    timeout: ResolveTimeout,
    now: i64,
)
    ensures
        create.verdict(amount, timeout_duration, description@) is Ok ==> ({
            let after = create.applied(amount, timeout_duration, description, now);
            after.buyer_token_account.amount + after.vault_token_account->0.balance
                == create.buyer_token_account.amount
        }),
        confirm.releasable() ==> ({
            let after = confirm.applied(now);
            &&& after.vault_token_account.balance == 0
            &&& after.seller_token_account.amount == confirm.seller_token_account.amount
                + confirm.vault_token_account.balance
        }),
        cancel.releasable() ==> ({
            let after = cancel.applied(now);
            &&& after.vault_token_account.balance == 0
            &&& after.buyer_token_account.amount == cancel.buyer_token_account.amount
                + cancel.vault_token_account.balance
        }),
        timeout.releasable() ==> ({
            let after = timeout.applied(now);
            &&& after.vault_token_account.balance == 0
            &&& after.seller_token_account.amount == timeout.seller_token_account.amount
                + timeout.vault_token_account.balance
        }),
{
}

/// Authorization soundness of `ConfirmDelivery`: it succeeds only for the
/// buyer, and only on an escrow in `Accepted`.
pub proof fn law_only_buyer_confirms(ctx: ConfirmDelivery)
    ensures
        ctx.verdict() is Ok ==> ctx.buyer == ctx.escrow.buyer && ctx.escrow.state
            == EscrowState::Accepted,
        ctx.escrow.state == EscrowState::Accepted && ctx.buyer != ctx.escrow.buyer ==> ctx.verdict()
            == Err::<(), EscrowError>(EscrowError::UnauthorizedBuyer),
{
}

/// Authorization soundness of `Cancel`: it succeeds only for the buyer, and
/// only on an escrow in `Created`. Once a seller has accepted it is rejected
/// with `InvalidState`.
pub proof fn law_only_buyer_cancels(ctx: CancelEscrow)
    ensures
        ctx.verdict() is Ok ==> ctx.buyer == ctx.escrow.buyer && ctx.escrow.state
            == EscrowState::Created,
        ctx.escrow.state == EscrowState::Created && ctx.buyer != ctx.escrow.buyer ==> ctx.verdict()
            == Err::<(), EscrowError>(EscrowError::UnauthorizedBuyer),
        ctx.escrow.state != EscrowState::Created ==> ctx.verdict() == Err::<(), EscrowError>(
            EscrowError::InvalidState,
        ),
{
}

/// Timeout gating: on an escrow in `Accepted`, `ResolveTimeout` is rejected
/// with `TimeoutNotReached` at every time before the deadline. From the
/// deadline on it succeeds for every caller who presents the escrow's vault
/// and the seller's account of the asset. Who the caller is changes nothing.
pub proof fn law_timeout_gating(ctx: ResolveTimeout, now: i64, other: Pubkey)
    requires
        ctx.escrow.state == EscrowState::Accepted,
    ensures
        now < ctx.escrow.timeout_at ==> ctx.verdict(now) == Err::<(), EscrowError>(
            EscrowError::TimeoutNotReached,
        ),
        now >= ctx.escrow.timeout_at && ctx.seller_token_account.belongs_to(
            ctx.escrow.seller,
            ctx.escrow.mint,
        ) && ctx.vault_token_account.serves(ctx.escrow_key, ctx.escrow.mint) ==> ctx.verdict(now)
            is Ok,
        (ResolveTimeout { resolver: other, ..ctx }).verdict(now) == ctx.verdict(now),
{
}

/// A record that is well-formed stays so under every sound call. Each of
/// `accepted_at`, `completed_at` and `cancelled_at` is written at most once:
/// a value that is set is never written again.
pub proof fn law_record_stays_well_formed(c: Custody, call: Call)
    requires
        c.escrow.wf(),
        call.sound(),
    ensures
        c.step(call).escrow.wf(),
        c.escrow.accepted_at != 0 ==> c.step(call).escrow.accepted_at == c.escrow.accepted_at,
        c.escrow.completed_at != 0 ==> c.step(call).escrow.completed_at == c.escrow.completed_at,
        c.escrow.cancelled_at != 0 ==> c.step(call).escrow.cancelled_at == c.escrow.cancelled_at,
        !c.escrow.seller.is_nobody() ==> c.step(call).escrow.seller == c.escrow.seller,
{
}

/// No decision depends on the description: a record with another description
/// gets the same verdict on every call.
pub proof fn law_description_is_inert(c: Custody, call: Call, description: String)
    ensures
        (Custody { escrow: Escrow { description, ..c.escrow }, ..c }).outcome(call) == c.outcome(
            call,
        ),
{
}

} // verus!
