use vstd::prelude::*;
use crate::ledger::Slots;

verus! {

/// The message that sets the ledger up. It carries nothing.
#[derive(Clone, Copy, Debug, PartialEq, Eq, Structural)]
pub struct InstantiateMsg {}

/// The calls that change the ledger.
#[derive(Debug, PartialEq, Eq)]
pub enum ExecuteMsg {
    InitializeUser {},
    AddAcceptedCollaterial { ticker: String, mint_address: String, pool_address: String, image: String },
    DepositCollaterial { amount: u128, token_address: String },
    WithdrawCollaterial { amount: u128, token_address: String },
    CreateLoan { duration: u64, interest_rate: u64, amount: u128, token_address: String },
    AcceptLoan { loan_idx: u64, token_address: String },
}

/// What an `ExecuteMsg` holds, as plain values.
pub enum ExecuteMsgView {
    InitializeUser {},
    AddAcceptedCollaterial {
        ticker: Seq<char>,
        mint_address: Seq<char>,
        pool_address: Seq<char>,
        image: Seq<char>,
    },
    DepositCollaterial { amount: u128, token_address: Seq<char> },
    WithdrawCollaterial { amount: u128, token_address: Seq<char> },
    CreateLoan { duration: u64, interest_rate: u64, amount: u128, token_address: Seq<char> },
    AcceptLoan { loan_idx: u64, token_address: Seq<char> },
}

impl View for ExecuteMsg {
    type V = ExecuteMsgView;

    open spec fn view(&self) -> ExecuteMsgView {
        match self {
            ExecuteMsg::InitializeUser {  } => ExecuteMsgView::InitializeUser {  },
            ExecuteMsg::AddAcceptedCollaterial {
                ticker,
                mint_address,
                pool_address,
                image,
            } => ExecuteMsgView::AddAcceptedCollaterial {
                ticker: ticker@,
                mint_address: mint_address@,
                pool_address: pool_address@,
                image: image@,
            },
            ExecuteMsg::DepositCollaterial { amount, token_address } => ExecuteMsgView::DepositCollaterial {
                amount: *amount,
                token_address: token_address@,
            },
            ExecuteMsg::WithdrawCollaterial { amount, token_address } => ExecuteMsgView::WithdrawCollaterial {
                amount: *amount,
                token_address: token_address@,
            },
            ExecuteMsg::CreateLoan { duration, interest_rate, amount, token_address } => ExecuteMsgView::CreateLoan {
                duration: *duration,
                interest_rate: *interest_rate,
                amount: *amount,
                token_address: token_address@,
            },
            ExecuteMsg::AcceptLoan { loan_idx, token_address } => ExecuteMsgView::AcceptLoan {
                loan_idx: *loan_idx,
                token_address: token_address@,
            },
        }
    }
}

impl ExecuteMsgView {
    /// The places that decide what this call does: the one record that it
    /// needs, if it needs one.
    pub open spec fn reads(self) -> Slots {
        Slots {
            admin_profile: self is AddAcceptedCollaterial,
            user_profile: self is DepositCollaterial || self is WithdrawCollaterial || self is CreateLoan,
            loan: self is AcceptLoan,
            accepted_collateral: false,
        }
    }

    /// The places that this call may change.
    pub open spec fn writes(self) -> Slots {
        Slots {
            admin_profile: false,
            user_profile: self is InitializeUser || self is DepositCollaterial || self is WithdrawCollaterial
                || self is CreateLoan,
            loan: self is CreateLoan || self is AcceptLoan,
            accepted_collateral: self is AddAcceptedCollaterial,
        }
    }
}

impl ExecuteMsg {
    /// The places that decide what this call does.
    pub fn reads(&self) -> (r: Slots)
        ensures
            r == self@.reads(),
    {
        match self {
            ExecuteMsg::InitializeUser {  } => Slots {
                admin_profile: false,
                user_profile: false,
                loan: false,
                accepted_collateral: false,
            },
            ExecuteMsg::AddAcceptedCollaterial { .. } => Slots {
                admin_profile: true,
                user_profile: false,
                loan: false,
                accepted_collateral: false,
            },
            ExecuteMsg::DepositCollaterial { .. } => Slots {
                admin_profile: false,
                user_profile: true,
                loan: false,
                accepted_collateral: false,
            },
            ExecuteMsg::WithdrawCollaterial { .. } => Slots {
                admin_profile: false,
                user_profile: true,
                loan: false,
                accepted_collateral: false,
            },
            ExecuteMsg::CreateLoan { .. } => Slots {
                admin_profile: false,
                user_profile: true,
                loan: false,
                accepted_collateral: false,
            },
            ExecuteMsg::AcceptLoan { .. } => Slots {
                admin_profile: false,
                user_profile: false,
                loan: true,
                accepted_collateral: false,
            },
        }
    }

    /// The places that this call may change.
    pub fn writes(&self) -> (r: Slots)
        ensures
            r == self@.writes(),
    {
        match self {
            ExecuteMsg::InitializeUser {  } => Slots {
                admin_profile: false,
                user_profile: true,
                loan: false,
                accepted_collateral: false,
            },
            ExecuteMsg::AddAcceptedCollaterial { .. } => Slots {
                admin_profile: false,
                user_profile: false,
                loan: false,
                accepted_collateral: true,
            },
            ExecuteMsg::DepositCollaterial { .. } => Slots {
                admin_profile: false,
                user_profile: true,
                loan: false,
                accepted_collateral: false,
            },
            ExecuteMsg::WithdrawCollaterial { .. } => Slots {
                admin_profile: false,
                user_profile: true,
                loan: false,
                accepted_collateral: false,
            },
            ExecuteMsg::CreateLoan { .. } => Slots {
                admin_profile: false,
                user_profile: true,
                loan: true,
                accepted_collateral: false,
            },
            ExecuteMsg::AcceptLoan { .. } => Slots {
                admin_profile: false,
                user_profile: false,
                loan: true,
                accepted_collateral: false,
            },
        }
    }
}

/// The answer to `QueryMsg::GetUserProfile`.
#[derive(Debug, PartialEq, Eq)]
pub struct GetUserProfileResponse {
    pub address: String,
}

/// The answer to `QueryMsg::GetLoan`.
#[derive(Clone, Copy, Debug, PartialEq, Eq, Structural)]
pub struct GetLoanResponse {
    pub loan_idx: u64,
}

/// The answer to `QueryMsg::GetAcceptedCollaterals`.
#[derive(Clone, Copy, Debug, PartialEq, Eq, Structural)]
pub struct GetAcceptedCollateralsResponse {}

/// The calls that read the ledger.
#[derive(Clone, Copy, Debug, PartialEq, Eq, Structural)]
pub enum QueryMsg {
    GetUserProfile,
    GetLoan,
    GetAcceptedCollaterals {},
}

} // verus!
