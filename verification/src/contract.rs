use vstd::prelude::*;
use crate::codec::{amount_text, counter_text, instruct};
use crate::error::LedgerError;
use crate::ledger::{Env, Ledger, MessageInfo};
use crate::model::follows;
use crate::msg::{ExecuteMsg, InstantiateMsg};
use crate::response::{attr, Response, TokenOrder};
use crate::state::{AcceptedCollateral, AdminProfile, Loan, LoanStatus, UserProfile};

verus! {

/// Withdraws `amount` of `token_address` from the caller's collateral. The
/// amount comes out of the first line item of that token that alone holds
/// it; the response orders the token contract to pay it out to the caller.
pub fn try_withdraw_collaterial(ledger: &mut Ledger, info: MessageInfo, amount: u128, token_address: String) -> (r:
    Result<Response, LedgerError>)
    ensures
        follows(
            old(ledger)@,
            final(ledger)@,
            r,
            old(ledger)@.withdraw_collateral(info.sender@, amount, token_address@),
        ),
{
    let mut user_profile = match ledger.user_profile.get(&info.sender) {
        Some(stored) => stored.clone(),
        None => {
            return Err(LedgerError::NotFound);
        },
    };
    user_profile.withdraw(amount, &token_address)?;
    let order = TokenOrder::Transfer { recipient: info.sender.clone(), amount };
    let transfer_msg = instruct(token_address.clone(), order)?;
    ledger.user_profile.insert(info.sender.clone(), user_profile);
    let attributes = vec![
        attr("action", "withdraw_collateral".to_owned()),
        attr("amount", amount_text(amount)),
        attr("token_address", token_address),
        attr("user", info.sender),
    ];
    let response = Response::new().add_message(transfer_msg).add_attributes(attributes);
    proof {
        let step = old(ledger)@.withdraw_collateral(info.sender@, amount, token_address@)->Ok_0;
        assert(response@.messages =~= step.response.messages);
        assert(response@.attributes =~= step.response.attributes);
    }
    Ok(response)
}

/// Deposits `amount` of `token_address` as collateral of the caller: a new
/// line item on the caller's profile, never merged with an earlier one.
/// The response orders the token contract to move the amount from the
/// caller into the ledger's custody.
pub fn try_deposit_collaterial(
    ledger: &mut Ledger,
    env: Env,
    info: MessageInfo,
    amount: u128,
    token_address: String,
) -> (r: Result<Response, LedgerError>)
    ensures
        follows(
            old(ledger)@,
            final(ledger)@,
            r,
            old(ledger)@.deposit_collateral(env.contract_address@, info.sender@, amount, token_address@),
        ),
{
    let mut user_profile = match ledger.user_profile.get(&info.sender) {
        Some(stored) => stored.clone(),
        None => {
            return Err(LedgerError::NotFound);
        },
    };
    user_profile.deposit(&info.sender, amount, &token_address);
    let order = TokenOrder::TransferFrom {
        owner: info.sender.clone(),
        recipient: env.contract_address,
        amount,
    };
    let transfer_msg = instruct(token_address.clone(), order)?;
    ledger.user_profile.insert(info.sender.clone(), user_profile);
    let attributes = vec![
        attr("action", "deposit_collateral".to_owned()),
        attr("amount", amount_text(amount)),
        attr("token_address", token_address),
        attr("user", info.sender),
    ];
    let response = Response::new().add_message(transfer_msg).add_attributes(attributes);
    proof {
        let step = old(ledger)@.deposit_collateral(
            env.contract_address@,
            info.sender@,
            amount,
            token_address@,
        )->Ok_0;
        assert(response@.messages =~= step.response.messages);
        assert(response@.attributes =~= step.response.attributes);
    }
    Ok(response)
}

/// Creates a loan for the caller. It is stored under the caller's identity,
/// in place of any loan stored there, takes its index from the caller's
/// last-loan counter, and is counted on the caller's profile.
pub fn try_create_loan(
    ledger: &mut Ledger,
    info: MessageInfo,
    duration: u64,
    interest_rate: u64,
    amount: u128,
    token_address: String,
) -> (r: Result<Response, LedgerError>)
    requires
        old(ledger)@.can_count_loan(info.sender@),
    ensures
        follows(
            old(ledger)@,
            final(ledger)@,
            r,
            old(ledger)@.create_loan(info.sender@, duration, interest_rate, amount, token_address@),
        ),
{
    let mut user_profile = match ledger.user_profile.get(&info.sender) {
        Some(stored) => stored.clone(),
        None => {
            return Err(LedgerError::NotFound);
        },
    };
    let loan = Loan {
        interest_rate,
        lender: info.sender.clone(),
        amount,
        status: LoanStatus::Open,
        duration,
        authority: info.sender.clone(),
        token_address: token_address.clone(),
        idx: user_profile.last_loan,
    };
    let loan_id = counter_text(loan.idx);
    ledger.loan.insert(info.sender.clone(), loan);
    user_profile.count_loan();
    ledger.user_profile.insert(info.sender.clone(), user_profile);
    let attributes = vec![
        attr("action", "create_loan".to_owned()),
        attr("loan_id", loan_id),
        attr("token_address", token_address),
        attr("user", info.sender),
    ];
    let response = Response::new().add_attributes(attributes);
    proof {
        let step = old(ledger)@.create_loan(info.sender@, duration, interest_rate, amount, token_address@)->Ok_0;
        assert(response@.messages =~= step.response.messages);
        assert(response@.attributes =~= step.response.attributes);
    }
    Ok(response)
}

/// Registers a token as accepted collateral. Only the admin may do so. The
/// entry is stored under the admin's identity, in place of any entry there.
pub fn try_add_accepted_collaterial(
    ledger: &mut Ledger,
    info: MessageInfo,
    ticker: String,
    mint_address: String,
    pool_address: String,
    image: String,
) -> (r: Result<Response, LedgerError>)
    ensures
        follows(
            old(ledger)@,
            final(ledger)@,
            r,
            old(ledger)@.add_accepted_collateral(info.sender@, ticker@, mint_address@, pool_address@, image@),
        ),
{
    match &ledger.admin_profile {
        None => {
            return Err(LedgerError::NotFound);
        },
        Some(admin_profile) => {
            if admin_profile.authority != info.sender {
                return Err(LedgerError::Unauthorized);
            }
        },
    }
    let collateral = ticker.clone();
    let accepted_collateral = AcceptedCollateral {
        ticker,
        mint_address,
        pool_address,
        image,
        authority: info.sender.clone(),
    };
    ledger.accepted_collateral.insert(info.sender.clone(), accepted_collateral);
    let attributes = vec![
        attr("action", "add_collateral".to_owned()),
        attr("collateral", collateral),
        attr("admin", info.sender),
    ];
    let response = Response::new().add_attributes(attributes);
    proof {
        let step = old(ledger)@.add_accepted_collateral(
            info.sender@,
            ticker@,
            mint_address@,
            pool_address@,
            image@,
        )->Ok_0;
        assert(response@.messages =~= step.response.messages);
        assert(response@.attributes =~= step.response.attributes);
    }
    Ok(response)
}

/// Registers the caller: a fresh profile is stored under the caller's
/// identity, in place of any profile stored there.
pub fn try_initialize_user(ledger: &mut Ledger, info: MessageInfo) -> (r: Result<Response, LedgerError>)
    ensures
        follows(old(ledger)@, final(ledger)@, r, old(ledger)@.initialize_user(info.sender@)),
{
    let user_profile = UserProfile::new(info.sender.clone());
    ledger.user_profile.insert(info.sender.clone(), user_profile);
    let attributes = vec![attr("action", "initialize_user".to_owned()), attr("user", info.sender)];
    let response = Response::new().add_attributes(attributes);
    proof {
        let step = old(ledger)@.initialize_user(info.sender@)->Ok_0;
        assert(response@.messages =~= step.response.messages);
        assert(response@.attributes =~= step.response.attributes);
    }
    Ok(response)
}

/// Accepts the loan stored under the caller's identity, if it was created
/// for `token_address`. An open loan becomes accepted; a loan that is
/// accepted or closed stays as it is, and the call succeeds all the same,
/// so that a status never moves backward. `loan_idx` is reported in the
/// response and is not compared with the loan's index.
pub fn try_accept_loan(ledger: &mut Ledger, info: MessageInfo, loan_idx: u64, token_address: String) -> (r: Result<
    Response,
    LedgerError,
>)
    ensures
        follows(
            old(ledger)@,
            final(ledger)@,
            r,
            old(ledger)@.accept_loan(info.sender@, loan_idx, token_address@),
        ),
{
    let mut loan = match ledger.loan.get(&info.sender) {
        Some(stored) => stored.clone(),
        None => {
            return Err(LedgerError::NotFound);
        },
    };
    if loan.token_address != token_address {
        return Err(LedgerError::TokenMismatch);
    }
    loan.accept();
    ledger.loan.insert(info.sender.clone(), loan);
    let attributes = vec![
        attr("action", "accept_loan".to_owned()),
        attr("loan_id", counter_text(loan_idx)),
        attr("token_address", token_address),
        attr("user", info.sender),
    ];
    let response = Response::new().add_attributes(attributes);
    proof {
        let step = old(ledger)@.accept_loan(info.sender@, loan_idx, token_address@)->Ok_0;
        assert(response@.messages =~= step.response.messages);
        assert(response@.attributes =~= step.response.attributes);
    }
    Ok(response)
}

/// Sets the ledger up: the caller becomes the admin, with no collateral counted.
pub fn instantiate(ledger: &mut Ledger, _env: Env, info: MessageInfo, _msg: InstantiateMsg) -> (r: Result<
    Response,
    LedgerError,
>)
    ensures
        follows(old(ledger)@, final(ledger)@, r, old(ledger)@.instantiate(info.sender@)),
{
    let admin_profile = AdminProfile { authority: info.sender.clone(), collaterial_count: 0 };
    ledger.admin_profile = Some(admin_profile);
    let attributes = vec![attr("action", "initialize".to_owned()), attr("admin", info.sender)];
    let response = Response::new().add_attributes(attributes);
    proof {
        let step = old(ledger)@.instantiate(info.sender@)->Ok_0;
        assert(response@.messages =~= step.response.messages);
        assert(response@.attributes =~= step.response.attributes);
    }
    Ok(response)
}

/// Carries out the call `msg` of the caller.
pub fn execute(ledger: &mut Ledger, env: Env, info: MessageInfo, msg: ExecuteMsg) -> (r: Result<
    Response,
    LedgerError,
>)
    requires
        msg is CreateLoan ==> old(ledger)@.can_count_loan(info.sender@),
    ensures
        follows(
            old(ledger)@,
            final(ledger)@,
            r,
            old(ledger)@.execute(env.contract_address@, info.sender@, msg@),
        ),
{
    match msg {
        ExecuteMsg::InitializeUser {  } => try_initialize_user(ledger, info),
        ExecuteMsg::AddAcceptedCollaterial {
            ticker,
            mint_address,
            pool_address,
            image,
        } => try_add_accepted_collaterial(ledger, info, ticker, mint_address, pool_address, image),
        ExecuteMsg::DepositCollaterial { amount, token_address } => try_deposit_collaterial(
            ledger,
            env,
            info,
            amount,
            token_address,
        ),
        ExecuteMsg::WithdrawCollaterial { amount, token_address } => try_withdraw_collaterial(
            ledger,
            info,
            amount,
            token_address,
        ),
        ExecuteMsg::CreateLoan { duration, interest_rate, amount, token_address } => try_create_loan(
            ledger,
            info,
            duration,
            interest_rate,
            amount,
            token_address,
        ),
        ExecuteMsg::AcceptLoan { loan_idx, token_address } => try_accept_loan(
            ledger,
            info,
            loan_idx,
            token_address,
        ),
    }
}

} // verus!
