//! The plan of an operation: the one outbound call it makes, the budget
//! attached to that call, and the one continuation that runs once the call
//! has settled. A plan holds plain values only; the host turns it into a
//! pending call.

use vstd::prelude::*;

verus! {

/// Gas in one teragas.
pub const TERA_GAS: u64 = 1_000_000_000_000;

/// Ceiling of an outbound call that changes state at a collaborator.
pub const MUTATING_CALL_GAS: u64 = 80_000_000_000_000;

/// Ceiling of an outbound read-only query.
pub const QUERY_CALL_GAS: u64 = 5_000_000_000_000;

/// Ceiling of every continuation.
pub const CONTINUATION_GAS: u64 = 5_000_000_000_000;

/// The minimal unit of value, attached to every call that changes state.
pub const ONE_YOCTO: u128 = 1;

/// The public operations of the bridge.
#[derive(Clone, Copy, Debug, PartialEq, Eq, Structural)]
pub enum Operation {
    Deposit,
    GetOmniBalance,
    Withdraw,
    Transfer,
}

/// What the host knows of the running invocation.
#[derive(Clone, Debug, PartialEq, Eq)]
pub struct CallContext {
    /// The account the bridge is deployed at: the acting principal.
    pub current_account_id: String,
    /// The immediate caller of the running operation.
    pub predecessor_account_id: String,
}

pub struct CallContextView {
    pub current_account_id: Seq<char>,
    pub predecessor_account_id: Seq<char>,
}

impl View for CallContext {
    type V = CallContextView;

    open spec fn view(&self) -> CallContextView {
        CallContextView {
            current_account_id: self.current_account_id@,
            predecessor_account_id: self.predecessor_account_id@,
        }
    }
}

/// The accounts of the two collaborator contracts.
#[derive(Clone, Debug, PartialEq, Eq)]
pub struct Collaborators {
    /// The fungible-token contract that deposits are drawn from.
    pub token: String,
    /// The custody protocol.
    pub custody: String,
}

pub struct CollaboratorsView {
    pub token: Seq<char>,
    pub custody: Seq<char>,
}

impl View for Collaborators {
    type V = CollaboratorsView;

    open spec fn view(&self) -> CollaboratorsView {
        CollaboratorsView { token: self.token@, custody: self.custody@ }
    }
}

/// The collaborators of the main network.
pub open spec fn mainnet_collaborators() -> CollaboratorsView {
    CollaboratorsView { token: "usdt.tether-token.near"@, custody: "v1-1.omni.hot.tg"@ }
}

impl Collaborators {
    /// The collaborators of the main network.
    pub fn mainnet() -> (peers: Collaborators)
        ensures
            peers@ == mainnet_collaborators(),
    {
        Collaborators {
            token: "usdt.tether-token.near".to_owned(),
            custody: "v1-1.omni.hot.tg".to_owned(),
        }
    }
}

/// The entry point called at a collaborator, with its arguments.
#[derive(Clone, Debug, PartialEq, Eq)]
pub enum Request {
    /// Token collaborator: move `amount` to `receiver_id` and notify it with `msg`.
    FtTransferCall { amount: String, receiver_id: String, msg: String },
    /// Custody collaborator: the balances held for `account_id`.
    GetBalance { account_id: String },
    /// Custody collaborator: move `amount` of a token from `account_id` to `receiver_id`.
    OmniTransfer { account_id: String, receiver_id: String, token_id: u8, amount: String },
    /// Custody collaborator: release `amount` of a token held for `account_id` to the host ledger.
    WithdrawOnNear { account_id: String, token_id: u8, amount: String },
}

pub enum RequestView {
    FtTransferCall { amount: Seq<char>, receiver_id: Seq<char>, msg: Seq<char> },
    GetBalance { account_id: Seq<char> },
    OmniTransfer { account_id: Seq<char>, receiver_id: Seq<char>, token_id: u8, amount: Seq<char> },
    WithdrawOnNear { account_id: Seq<char>, token_id: u8, amount: Seq<char> },
}

impl View for Request {
    type V = RequestView;

    open spec fn view(&self) -> RequestView {
        match self {
            Request::FtTransferCall { amount, receiver_id, msg } => RequestView::FtTransferCall {
                amount: amount@,
                receiver_id: receiver_id@,
                msg: msg@,
            },
            Request::GetBalance { account_id } => RequestView::GetBalance {
                account_id: account_id@,
            },
            Request::OmniTransfer {
                account_id,
                receiver_id,
                token_id,
                amount,
            } => RequestView::OmniTransfer {
                account_id: account_id@,
                receiver_id: receiver_id@,
                token_id: *token_id,
                amount: amount@,
            },
            Request::WithdrawOnNear { account_id, token_id, amount } => RequestView::WithdrawOnNear {
                account_id: account_id@,
                token_id: *token_id,
                amount: amount@,
            },
        }
    }
}

/// The continuation registered behind an outbound call, with what it is
/// handed besides the settled result.
#[derive(Clone, Debug, PartialEq, Eq)]
pub enum Continuation {
    Deposit,
    GetOmniBalance { token_id: String },
    Withdraw,
    Transfer,
}

pub enum ContinuationView {
    Deposit,
    GetOmniBalance { token_id: Seq<char> },
    Withdraw,
    Transfer,
}

impl View for Continuation {
    type V = ContinuationView;

    open spec fn view(&self) -> ContinuationView {
        match self {
            Continuation::Deposit => ContinuationView::Deposit,
            Continuation::GetOmniBalance { token_id } => ContinuationView::GetOmniBalance {
                token_id: token_id@,
            },
            Continuation::Withdraw => ContinuationView::Withdraw,
            Continuation::Transfer => ContinuationView::Transfer,
        }
    }
}

impl ContinuationView {
    /// The operation that a continuation completes.
    pub open spec fn operation(self) -> Operation {
        match self {
            ContinuationView::Deposit => Operation::Deposit,
            ContinuationView::GetOmniBalance { .. } => Operation::GetOmniBalance,
            ContinuationView::Withdraw => Operation::Withdraw,
            ContinuationView::Transfer => Operation::Transfer,
        }
    }
}

impl Continuation {
    /// The operation that this continuation completes.
    pub fn operation(&self) -> (op: Operation)
        ensures
            op == self@.operation(),
    {
        match self {
            Continuation::Deposit => Operation::Deposit,
            Continuation::GetOmniBalance { .. } => Operation::GetOmniBalance,
            Continuation::Withdraw => Operation::Withdraw,
            Continuation::Transfer => Operation::Transfer,
        }
    }
}

/// One outbound call and the continuation behind it.
#[derive(Clone, Debug, PartialEq, Eq)]
pub struct Dispatch {
    /// The collaborator that is called.
    pub receiver_id: String,
    /// The entry point and its arguments.
    pub request: Request,
    /// The gas ceiling of the outbound call.
    pub static_gas: u64,
    /// The value attached to the outbound call.
    pub attached_deposit: u128,
    /// The account at which the continuation runs.
    pub continuation_account_id: String,
    /// The continuation that receives the settled result.
    pub continuation: Continuation,
    /// The gas ceiling of the continuation.
    pub continuation_gas: u64,
}

pub struct DispatchView {
    pub receiver_id: Seq<char>,
    pub request: RequestView,
    pub static_gas: u64,
    pub attached_deposit: u128,
    pub continuation_account_id: Seq<char>,
    pub continuation: ContinuationView,
    pub continuation_gas: u64,
}

impl View for Dispatch {
    type V = DispatchView;

    open spec fn view(&self) -> DispatchView {
        DispatchView {
            receiver_id: self.receiver_id@,
            request: self.request@,
            static_gas: self.static_gas,
            attached_deposit: self.attached_deposit,
            continuation_account_id: self.continuation_account_id@,
            continuation: self.continuation@,
            continuation_gas: self.continuation_gas,
        }
    }
}

} // verus!
