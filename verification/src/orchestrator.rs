//! Planning of the four public operations. Each derives the addresses it
//! needs, plans exactly one outbound call with an explicit budget, registers
//! exactly one continuation and writes nothing.

use crate::address::{get_omni_address, omni_address};
use crate::amount::{decimal_string, decimal_text};
use crate::contract::Contract;
use crate::dispatch::{
    CallContext, CallContextView, Collaborators, CollaboratorsView, Continuation,
    ContinuationView, Dispatch, DispatchView, Operation, Request, RequestView, CONTINUATION_GAS,
    MUTATING_CALL_GAS, ONE_YOCTO, QUERY_CALL_GAS, TERA_GAS,
};
use vstd::prelude::*;

verus! {

/// The plan of a deposit: the token collaborator moves `amount` to the
/// custody protocol, with the acting principal's address as the message.
pub open spec fn deposit_plan(
    amount: Seq<char>,
    ctx: CallContextView,
    peers: CollaboratorsView,
) -> DispatchView {
    DispatchView {
        receiver_id: peers.token,
        request: RequestView::FtTransferCall {
            amount,
            receiver_id: peers.custody,
            msg: omni_address(ctx.current_account_id),
        },
        static_gas: MUTATING_CALL_GAS,
        attached_deposit: ONE_YOCTO,
        continuation_account_id: ctx.current_account_id,
        continuation: ContinuationView::Deposit,
        continuation_gas: CONTINUATION_GAS,
    }
}

/// The plan of a balance query: the custody protocol reports the balances
/// of the acting principal; `token_id` goes to the continuation.
pub open spec fn balance_plan(
    token_id: Seq<char>,
    ctx: CallContextView,
    peers: CollaboratorsView,
) -> DispatchView {
    DispatchView {
        receiver_id: peers.custody,
        request: RequestView::GetBalance { account_id: omni_address(ctx.current_account_id) },
        static_gas: QUERY_CALL_GAS,
        attached_deposit: 0,
        continuation_account_id: ctx.current_account_id,
        continuation: ContinuationView::GetOmniBalance { token_id },
        continuation_gas: CONTINUATION_GAS,
    }
}

/// The plan of a withdrawal: the custody protocol releases `amount` of the
/// token held for the acting principal.
pub open spec fn withdraw_plan(
    amount: u128,
    token_id: u8,
    ctx: CallContextView,
    peers: CollaboratorsView,
) -> DispatchView {
    DispatchView {
        receiver_id: peers.custody,
        request: RequestView::WithdrawOnNear {
            account_id: omni_address(ctx.current_account_id),
            token_id,
            amount: decimal_text(amount as nat),
        },
        static_gas: MUTATING_CALL_GAS,
        attached_deposit: ONE_YOCTO,
        continuation_account_id: ctx.current_account_id,
        continuation: ContinuationView::Withdraw,
        continuation_gas: CONTINUATION_GAS,
    }
}

/// The plan of a transfer: the custody protocol moves `amount` of the token
/// from the acting principal to the immediate caller.
pub open spec fn transfer_plan(
    amount: u128,
    token_id: u8,
    ctx: CallContextView,
    peers: CollaboratorsView,
) -> DispatchView {
    DispatchView {
        receiver_id: peers.custody,
        request: RequestView::OmniTransfer {
            account_id: omni_address(ctx.current_account_id),
            receiver_id: omni_address(ctx.predecessor_account_id),
            token_id,
            amount: decimal_text(amount as nat),
        },
        static_gas: MUTATING_CALL_GAS,
        attached_deposit: ONE_YOCTO,
        continuation_account_id: ctx.current_account_id,
        continuation: ContinuationView::Transfer,
        continuation_gas: CONTINUATION_GAS,
    }
}

impl Contract {
    /// Plans a deposit of `amount`, passed on as it came.
    pub fn deposit(&mut self, amount: String, ctx: &CallContext, peers: &Collaborators) -> (plan:
        Dispatch)
        ensures
            plan@ == deposit_plan(amount@, ctx@, peers@),
            *final(self) == *old(self),
    {
        Dispatch {
            receiver_id: peers.token.clone(),
            request: Request::FtTransferCall {
                amount,
                receiver_id: peers.custody.clone(),
                msg: get_omni_address(ctx.current_account_id.clone()),
            },
            static_gas: MUTATING_CALL_GAS,
            attached_deposit: ONE_YOCTO,
            continuation_account_id: ctx.current_account_id.clone(),
            continuation: Continuation::Deposit,
            continuation_gas: CONTINUATION_GAS,
        }
    }

    /// Plans a query of the acting principal's balances, of which the
    /// continuation reports the one of `token_id`.
    pub fn get_omni_balance(&self, token_id: String, ctx: &CallContext, peers: &Collaborators) -> (plan:
        Dispatch)
        ensures
            plan@ == balance_plan(token_id@, ctx@, peers@),
    {
        Dispatch {
            receiver_id: peers.custody.clone(),
            request: Request::GetBalance {
                account_id: get_omni_address(ctx.current_account_id.clone()),
            },
            static_gas: QUERY_CALL_GAS,
            attached_deposit: 0,
            continuation_account_id: ctx.current_account_id.clone(),
            continuation: Continuation::GetOmniBalance { token_id },
            continuation_gas: CONTINUATION_GAS,
        }
    }

    /// Plans a withdrawal of `amount` of the token `token_id`.
    pub fn withdraw(&self, amount: u128, token_id: u8, ctx: &CallContext, peers: &Collaborators) -> (plan:
        Dispatch)
        ensures
            plan@ == withdraw_plan(amount, token_id, ctx@, peers@),
    {
        Dispatch {
            receiver_id: peers.custody.clone(),
            request: Request::WithdrawOnNear {
                account_id: get_omni_address(ctx.current_account_id.clone()),
                token_id,
                amount: decimal_string(amount),
            },
            static_gas: MUTATING_CALL_GAS,
            attached_deposit: ONE_YOCTO,
            continuation_account_id: ctx.current_account_id.clone(),
            continuation: Continuation::Withdraw,
            continuation_gas: CONTINUATION_GAS,
        }
    }

    /// Plans a transfer of `amount` of the token `token_id` from the acting
    /// principal to the immediate caller.
    pub fn transfer(&self, amount: u128, token_id: u8, ctx: &CallContext, peers: &Collaborators) -> (plan:
        Dispatch)
        ensures
            plan@ == transfer_plan(amount, token_id, ctx@, peers@),
    {
        Dispatch {
            receiver_id: peers.custody.clone(),
            request: Request::OmniTransfer {
                account_id: get_omni_address(ctx.current_account_id.clone()),
                receiver_id: get_omni_address(ctx.predecessor_account_id.clone()),
                token_id,
                amount: decimal_string(amount),
            },
            static_gas: MUTATING_CALL_GAS,
            attached_deposit: ONE_YOCTO,
            continuation_account_id: ctx.current_account_id.clone(),
            continuation: Continuation::Transfer,
            continuation_gas: CONTINUATION_GAS,
        }
    }
}

/// A transfer is always destined for the address derived from the immediate
/// caller: whatever the amount, the token, the acting principal or the
/// collaborators, two transfers with the same caller share their destination,
/// and that destination is the caller's derived address.
pub proof fn transfer_destination_is_predecessor(
    amount_a: u128,
    token_a: u8,
    ctx_a: CallContextView,
    peers_a: CollaboratorsView,
    amount_b: u128,
    token_b: u8,
    ctx_b: CallContextView,
    peers_b: CollaboratorsView,
)
    requires
        ctx_a.predecessor_account_id == ctx_b.predecessor_account_id,
    ensures
        transfer_plan(amount_a, token_a, ctx_a, peers_a).request->OmniTransfer_receiver_id
            == omni_address(ctx_a.predecessor_account_id),
        transfer_plan(amount_a, token_a, ctx_a, peers_a).request->OmniTransfer_receiver_id
            == transfer_plan(amount_b, token_b, ctx_b, peers_b).request->OmniTransfer_receiver_id,
        transfer_plan(amount_a, token_a, ctx_a, peers_a).request->OmniTransfer_account_id
            == omni_address(ctx_a.current_account_id),
{
}

/// Calls that change state at a collaborator carry the minimal unit of
/// value and the larger gas ceiling; the balance query carries no value.
/// Every continuation runs at the acting principal, completes the operation
/// that planned it, and has the same ceiling.
pub proof fn budgets_follow_convention(
    text: Seq<char>,
    amount: u128,
    token_id: u8,
    ctx: CallContextView,
    peers: CollaboratorsView,
)
    ensures
        deposit_plan(text, ctx, peers).attached_deposit == 1,
        withdraw_plan(amount, token_id, ctx, peers).attached_deposit == 1,
        transfer_plan(amount, token_id, ctx, peers).attached_deposit == 1,
        balance_plan(text, ctx, peers).attached_deposit == 0,
        deposit_plan(text, ctx, peers).static_gas == 80 * TERA_GAS,
        withdraw_plan(amount, token_id, ctx, peers).static_gas == 80 * TERA_GAS,
        transfer_plan(amount, token_id, ctx, peers).static_gas == 80 * TERA_GAS,
        balance_plan(text, ctx, peers).static_gas == 5 * TERA_GAS,
        deposit_plan(text, ctx, peers).continuation.operation() == Operation::Deposit,
        balance_plan(text, ctx, peers).continuation.operation() == Operation::GetOmniBalance,
        withdraw_plan(amount, token_id, ctx, peers).continuation.operation() == Operation::Withdraw,
        transfer_plan(amount, token_id, ctx, peers).continuation.operation() == Operation::Transfer,
        deposit_plan(text, ctx, peers).continuation_account_id == ctx.current_account_id,
        balance_plan(text, ctx, peers).continuation_account_id == ctx.current_account_id,
        withdraw_plan(amount, token_id, ctx, peers).continuation_account_id
            == ctx.current_account_id,
        transfer_plan(amount, token_id, ctx, peers).continuation_account_id
            == ctx.current_account_id,
        deposit_plan(text, ctx, peers).continuation_gas == 5 * TERA_GAS,
        balance_plan(text, ctx, peers).continuation_gas == 5 * TERA_GAS,
        withdraw_plan(amount, token_id, ctx, peers).continuation_gas == 5 * TERA_GAS,
        transfer_plan(amount, token_id, ctx, peers).continuation_gas == 5 * TERA_GAS,
{
}

} // verus!
