use vstd::prelude::*;
use crate::codec::{cw20_json, decimal, encodable, instruction_view};
use crate::error::LedgerError;
use crate::ledger::LedgerView;
use crate::msg::ExecuteMsgView;
use crate::response::{attr_view, Response, ResponseView, TokenOrderView};
use crate::state::{AcceptedCollateralView, AdminProfileView, LoanStatus, LoanView, UserProfileView};

verus! {

/// What a successful call leaves behind: the next state of the ledger and
/// the response handed to the caller.
pub struct Step {
    pub ledger: LedgerView,
    pub response: ResponseView,
}

/// What a call leaves behind: a step, or the reason for which it was rejected.
pub type Outcome = Result<Step, LedgerError>;

/// The order that moves a deposit from `sender` into the custody of `contract`.
pub open spec fn deposit_order(contract: Seq<char>, sender: Seq<char>, amount: u128) -> TokenOrderView {
    TokenOrderView::TransferFrom { owner: sender, recipient: contract, amount }
}

/// The order that pays a withdrawal out of custody to `sender`.
pub open spec fn withdrawal_order(sender: Seq<char>, amount: u128) -> TokenOrderView {
    TokenOrderView::Transfer { recipient: sender, amount }
}

/// The loan that `sender` creates when the last-loan counter stands at `idx`.
pub open spec fn new_loan(
    sender: Seq<char>,
    idx: u64,
    duration: u64,
    interest_rate: u64,
    amount: u128,
    token_address: Seq<char>,
) -> LoanView {
    LoanView {
        interest_rate,
        lender: sender,
        amount,
        status: LoanStatus::Open,
        duration,
        authority: sender,
        token_address,
        idx,
    }
}

impl LedgerView {
    /// Setting the ledger up: `sender` becomes the admin, with no collateral counted.
    pub open spec fn instantiate(self, sender: Seq<char>) -> Outcome {
        Ok(
            Step {
                ledger: LedgerView {
                    admin_profile: Some(AdminProfileView { authority: sender, collaterial_count: 0 }),
                    ..self
                },
                response: ResponseView {
                    messages: seq![],
                    attributes: seq![attr_view("action"@, "initialize"@), attr_view("admin"@, sender)],
                },
            },
        )
    }

    /// Registering `sender`: a fresh profile takes the place of any earlier one.
    pub open spec fn initialize_user(self, sender: Seq<char>) -> Outcome {
        Ok(
            Step {
                ledger: LedgerView {
                    user_profile: self.user_profile.insert(sender, UserProfileView::fresh(sender)),
                    ..self
                },
                response: ResponseView {
                    messages: seq![],
                    attributes: seq![attr_view("action"@, "initialize_user"@), attr_view("user"@, sender)],
                },
            },
        )
    }

    /// Registering a token as accepted collateral. Only the admin may; the
    /// entry is stored under the admin's identity and replaces the one there.
    pub open spec fn add_accepted_collateral(
        self,
        sender: Seq<char>,
        ticker: Seq<char>,
        mint_address: Seq<char>,
        pool_address: Seq<char>,
        image: Seq<char>,
    ) -> Outcome {
        if self.admin_profile is None {
            Err(LedgerError::NotFound)
        } else if self.admin_profile->Some_0.authority != sender {
            Err(LedgerError::Unauthorized)
        } else {
            Ok(
                Step {
                    ledger: LedgerView {
                        accepted_collateral: self.accepted_collateral.insert(
                            sender,
                            AcceptedCollateralView { ticker, mint_address, pool_address, image, authority: sender },
                        ),
                        ..self
                    },
                    response: ResponseView {
                        messages: seq![],
                        attributes: seq![
                            attr_view("action"@, "add_collateral"@),
                            attr_view("collateral"@, ticker),
                            attr_view("admin"@, sender),
                        ],
                    },
                },
            )
        }
    }

    /// Depositing `amount` of `token_address`: a new line item on the
    /// caller's profile, and the order that brings the tokens into custody.
    pub open spec fn deposit_collateral(
        self,
        contract: Seq<char>,
        sender: Seq<char>,
        amount: u128,
        token_address: Seq<char>,
    ) -> Outcome {
        let order = deposit_order(contract, sender, amount);
        if !self.user_profile.contains_key(sender) {
            Err(LedgerError::NotFound)
        } else if !encodable(order) {
            Err(LedgerError::EncodingFailed)
        } else {
            Ok(
                Step {
                    ledger: LedgerView {
                        user_profile: self.user_profile.insert(
                            sender,
                            self.user_profile[sender].with_deposit(sender, amount, token_address),
                        ),
                        ..self
                    },
                    response: ResponseView {
                        messages: seq![instruction_view(token_address, order, cw20_json(order)->Some_0)],
                        attributes: seq![
                            attr_view("action"@, "deposit_collateral"@),
                            attr_view("amount"@, decimal(amount as nat)),
                            attr_view("token_address"@, token_address),
                            attr_view("user"@, sender),
                        ],
                    },
                },
            )
        }
    }

    /// Withdrawing `amount` of `token_address`: taken from the first line
    /// item that alone holds that much, with the order that pays it out.
    pub open spec fn withdraw_collateral(self, sender: Seq<char>, amount: u128, token_address: Seq<char>) -> Outcome {
        let order = withdrawal_order(sender, amount);
        if !self.user_profile.contains_key(sender) {
            Err(LedgerError::NotFound)
        } else if !self.user_profile[sender].can_withdraw(amount, token_address) {
            Err(LedgerError::InsufficientBalance)
        } else if !encodable(order) {
            Err(LedgerError::EncodingFailed)
        } else {
            Ok(
                Step {
                    ledger: LedgerView {
                        user_profile: self.user_profile.insert(
                            sender,
                            self.user_profile[sender].with_withdrawal(amount, token_address),
                        ),
                        ..self
                    },
                    response: ResponseView {
                        messages: seq![instruction_view(token_address, order, cw20_json(order)->Some_0)],
                        attributes: seq![
                            attr_view("action"@, "withdraw_collateral"@),
                            attr_view("amount"@, decimal(amount as nat)),
                            attr_view("token_address"@, token_address),
                            attr_view("user"@, sender),
                        ],
                    },
                },
            )
        }
    }

    /// Creating a loan: stored under the caller's identity in place of any
    /// earlier one, numbered by the caller's last-loan counter, and counted
    /// on the caller's profile.
    pub open spec fn create_loan(
        self,
        sender: Seq<char>,
        duration: u64,
        interest_rate: u64,
        amount: u128,
        token_address: Seq<char>,
    ) -> Outcome {
        if !self.user_profile.contains_key(sender) {
            Err(LedgerError::NotFound)
        } else {
            let profile = self.user_profile[sender];
            Ok(
                Step {
                    ledger: LedgerView {
                        loan: self.loan.insert(
                            sender,
                            new_loan(sender, profile.last_loan, duration, interest_rate, amount, token_address),
                        ),
                        user_profile: self.user_profile.insert(sender, profile.with_loan_counted()),
                        ..self
                    },
                    response: ResponseView {
                        messages: seq![],
                        attributes: seq![
                            attr_view("action"@, "create_loan"@),
                            attr_view("loan_id"@, decimal(profile.last_loan as nat)),
                            attr_view("token_address"@, token_address),
                            attr_view("user"@, sender),
                        ],
                    },
                },
            )
        }
    }

    /// Accepting the loan stored under the caller's identity, for the
    /// token it was created for: an open loan becomes accepted, while a
    /// loan that is accepted or closed stays as it is, so that a status
    /// never moves backward. The call succeeds in each of these cases. The
    /// loan index is reported, not checked.
    pub open spec fn accept_loan(self, sender: Seq<char>, loan_idx: u64, token_address: Seq<char>) -> Outcome {
        if !self.loan.contains_key(sender) {
            Err(LedgerError::NotFound)
        } else if self.loan[sender].token_address != token_address {
            Err(LedgerError::TokenMismatch)
        } else {
            Ok(
                Step {
                    ledger: LedgerView { loan: self.loan.insert(sender, self.loan[sender].accepted()), ..self },
                    response: ResponseView {
                        messages: seq![],
                        attributes: seq![
                            attr_view("action"@, "accept_loan"@),
                            attr_view("loan_id"@, decimal(loan_idx as nat)),
                            attr_view("token_address"@, token_address),
                            attr_view("user"@, sender),
                        ],
                    },
                },
            )
        }
    }

    /// What the call `msg` by `sender` leaves behind.
    pub open spec fn execute(self, contract: Seq<char>, sender: Seq<char>, msg: ExecuteMsgView) -> Outcome {
        match msg {
            ExecuteMsgView::InitializeUser {  } => self.initialize_user(sender),
            ExecuteMsgView::AddAcceptedCollaterial {
                ticker,
                mint_address,
                pool_address,
                image,
            } => self.add_accepted_collateral(sender, ticker, mint_address, pool_address, image),
            ExecuteMsgView::DepositCollaterial { amount, token_address } => self.deposit_collateral(
                contract,
                sender,
                amount,
                token_address,
            ),
            ExecuteMsgView::WithdrawCollaterial { amount, token_address } => self.withdraw_collateral(
                sender,
                amount,
                token_address,
            ),
            ExecuteMsgView::CreateLoan { duration, interest_rate, amount, token_address } => self.create_loan(
                sender,
                duration,
                interest_rate,
                amount,
                token_address,
            ),
            ExecuteMsgView::AcceptLoan { loan_idx, token_address } => self.accept_loan(
                sender,
                loan_idx,
                token_address,
            ),
        }
    }
}

/// Whether a call that took the ledger from `before` to `after` and
/// returned `result` did what `outcome` says: on a step, the ledger is in
/// the step's state and the step's response came back; on a rejection, the
/// ledger is unchanged and the rejection's reason came back.
pub open spec fn follows(
    before: LedgerView,
    after: LedgerView,
    result: Result<Response, LedgerError>,
    outcome: Outcome,
) -> bool {
    match outcome {
        Ok(step) => result is Ok && result->Ok_0@ == step.response && after == step.ledger,
        Err(reason) => result is Err && result->Err_0 == reason && after == before,
    }
}

} // verus!
