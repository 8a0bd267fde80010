use lending_ledger::codec::{instruct, instruction_from};
use lending_ledger::error::LedgerError;
use lending_ledger::ledger::{Ledger, Slots};
use lending_ledger::msg::{
    ExecuteMsg, GetAcceptedCollateralsResponse, GetLoanResponse, GetUserProfileResponse, QueryMsg,
};
use lending_ledger::response::{attr, Response, TokenOrder, TransferInstruction};
use lending_ledger::state::{
    clone_deposits, AcceptedCollateral, AdminProfile, DepositedCollateral, LentCoin, Loan, LoanStatus,
    UserProfile,
};
use lending_ledger::store::Table;

fn text(s: &str) -> String {
    s.to_string()
}

fn item(token: &str, amount: u128) -> DepositedCollateral {
    DepositedCollateral {
        ticker: text("TOKEN"),
        mint_address: text(token),
        pool_address: text("pool_address"),
        amount,
        authority: text("U"),
    }
}

#[test]
fn table_starts_empty() {
    let table: Table<AdminProfile> = Table::new();
    assert_eq!(table.len(), 0);
    assert!(table.get(&text("a")).is_none());
}

#[test]
fn table_insert_then_get() {
    let mut table: Table<AdminProfile> = Table::new();
    table.insert(text("a"), AdminProfile { authority: text("a"), collaterial_count: 1 });
    table.insert(text("b"), AdminProfile { authority: text("b"), collaterial_count: 2 });
    assert_eq!(table.len(), 2);
    assert_eq!(table.get(&text("a")).unwrap().collaterial_count, 1);
    assert_eq!(table.get(&text("b")).unwrap().collaterial_count, 2);
    assert!(table.get(&text("c")).is_none());
    assert!(table.get(&text("")).is_none());
}

#[test]
fn table_insert_replaces_under_the_same_key() {
    let mut table: Table<AdminProfile> = Table::new();
    table.insert(text("a"), AdminProfile { authority: text("a"), collaterial_count: 1 });
    table.insert(text("b"), AdminProfile { authority: text("b"), collaterial_count: 2 });
    table.insert(text("a"), AdminProfile { authority: text("a"), collaterial_count: 3 });
    assert_eq!(table.len(), 2);
    assert_eq!(table.get(&text("a")).unwrap().collaterial_count, 3);
    assert_eq!(table.get(&text("b")).unwrap().collaterial_count, 2);
}

#[test]
fn table_keys_are_case_sensitive() {
    let mut table: Table<AdminProfile> = Table::new();
    table.insert(text("Alice"), AdminProfile { authority: text("Alice"), collaterial_count: 1 });
    assert!(table.get(&text("alice")).is_none());
    table.insert(text("alice"), AdminProfile { authority: text("alice"), collaterial_count: 2 });
    assert_eq!(table.len(), 2);
    assert_eq!(table.get(&text("Alice")).unwrap().collaterial_count, 1);
}

#[test]
fn new_ledger_is_empty() {
    let ledger = Ledger::new();
    assert!(ledger.admin_profile.is_none());
    assert_eq!(ledger.user_profile.len(), 0);
    assert_eq!(ledger.loan.len(), 0);
    assert_eq!(ledger.accepted_collateral.len(), 0);
}

#[test]
fn can_count_loan_until_a_counter_is_full() {
    let mut ledger = Ledger::new();
    assert!(ledger.can_count_loan(&text("U")));
    let mut profile = UserProfile::new(text("U"));
    profile.loan_count = u64::MAX - 1;
    profile.last_loan = 3;
    ledger.user_profile.insert(text("U"), profile);
    assert!(ledger.can_count_loan(&text("U")));
    let mut full = UserProfile::new(text("U"));
    full.loan_count = u64::MAX;
    ledger.user_profile.insert(text("U"), full);
    assert!(!ledger.can_count_loan(&text("U")));
    let mut full_index = UserProfile::new(text("V"));
    full_index.last_loan = u64::MAX;
    ledger.user_profile.insert(text("V"), full_index);
    assert!(!ledger.can_count_loan(&text("V")));
    assert!(ledger.can_count_loan(&text("W")));
}

#[test]
fn profile_new_is_fresh() {
    let profile = UserProfile::new(text("U"));
    assert_eq!(
        profile,
        UserProfile {
            authority: text("U"),
            loan_count: 0,
            last_loan: 0,
            can_borrow: true,
            can_deposit: true,
            coins_lent: vec![],
            coins_deposited: vec![],
        }
    );
}

#[test]
fn profile_deposit_appends() {
    let mut profile = UserProfile::new(text("U"));
    profile.deposit(&text("U"), 5, &text("T"));
    profile.deposit(&text("U"), 6, &text("S"));
    assert_eq!(profile.coins_deposited, vec![item("T", 5), item("S", 6)]);
}

#[test]
fn profile_find_first_fit() {
    let mut profile = UserProfile::new(text("U"));
    assert_eq!(profile.find_first_fit(0, &text("T")), None);
    profile.coins_deposited = vec![item("T", 5), item("S", 50), item("T", 20), item("T", 30)];
    assert_eq!(profile.find_first_fit(0, &text("T")), Some(0));
    assert_eq!(profile.find_first_fit(5, &text("T")), Some(0));
    assert_eq!(profile.find_first_fit(6, &text("T")), Some(2));
    assert_eq!(profile.find_first_fit(20, &text("T")), Some(2));
    assert_eq!(profile.find_first_fit(21, &text("T")), Some(3));
    assert_eq!(profile.find_first_fit(31, &text("T")), None);
    assert_eq!(profile.find_first_fit(50, &text("S")), Some(1));
    assert_eq!(profile.find_first_fit(1, &text("R")), None);
}

#[test]
fn profile_withdraw_takes_the_exact_difference() {
    let mut profile = UserProfile::new(text("U"));
    profile.coins_deposited = vec![item("T", 5), item("T", u128::MAX)];
    assert_eq!(profile.withdraw(6, &text("T")), Ok(()));
    assert_eq!(profile.coins_deposited, vec![item("T", 5), item("T", u128::MAX - 6)]);
    assert_eq!(profile.withdraw(u128::MAX, &text("T")), Err(LedgerError::InsufficientBalance));
    assert_eq!(profile.coins_deposited, vec![item("T", 5), item("T", u128::MAX - 6)]);
    assert_eq!(profile.withdraw(u128::MAX - 6, &text("T")), Ok(()));
    assert_eq!(profile.coins_deposited, vec![item("T", 5), item("T", 0)]);
}

#[test]
fn profile_count_loan_raises_both_counters() {
    let mut profile = UserProfile::new(text("U"));
    profile.last_loan = 7;
    profile.count_loan();
    assert_eq!(profile.loan_count, 1);
    assert_eq!(profile.last_loan, 8);
}

#[test]
fn records_clone_to_equal_values() {
    let mut profile = UserProfile::new(text("U"));
    profile.coins_deposited = vec![item("T", 5), item("S", 6)];
    profile.coins_lent = vec![LentCoin { ticker: text("L"), amount: 9, token_address: text("T") }];
    profile.loan_count = 4;
    assert_eq!(profile.clone(), profile);
    assert_eq!(clone_deposits(&profile.coins_deposited), profile.coins_deposited);
    let loan = Loan {
        interest_rate: 1,
        lender: text("U"),
        amount: 2,
        status: LoanStatus::Closed,
        duration: 3,
        authority: text("U"),
        token_address: text("T"),
        idx: 4,
    };
    assert_eq!(loan.clone(), loan);
    let accepted = AcceptedCollateral {
        ticker: text("a"),
        mint_address: text("b"),
        pool_address: text("c"),
        image: text("d"),
        authority: text("e"),
    };
    assert_eq!(accepted.clone(), accepted);
    let admin = AdminProfile { authority: text("A"), collaterial_count: 5 };
    assert_eq!(admin.clone(), admin);
}

#[test]
fn instruct_encodes_a_transfer() {
    let order = TokenOrder::Transfer { recipient: text("bob"), amount: 12345 };
    let instruction = instruct(text("token"), order).unwrap();
    assert_eq!(instruction.contract_addr, "token");
    assert_eq!(instruction.order, TokenOrder::Transfer { recipient: text("bob"), amount: 12345 });
    assert_eq!(
        String::from_utf8(instruction.msg).unwrap(),
        r#"{"transfer":{"recipient":"bob","amount":"12345"}}"#
    );
}

#[test]
fn instruct_encodes_a_transfer_from() {
    let order = TokenOrder::TransferFrom { owner: text("al\"ice"), recipient: text("vault"), amount: 0 };
    let instruction = instruct(text("token"), order).unwrap();
    assert_eq!(
        String::from_utf8(instruction.msg).unwrap(),
        r#"{"transfer_from":{"owner":"al\"ice","recipient":"vault","amount":"0"}}"#
    );
}

#[test]
fn instruction_from_an_encoding_error_fails() {
    let order = TokenOrder::Transfer { recipient: text("bob"), amount: 1 };
    let r = instruction_from(text("token"), order, Err(cosmwasm_std::StdError::generic_err("boom")));
    assert_eq!(r, Err(LedgerError::EncodingFailed));
}

#[test]
fn instruction_from_encoded_bytes() {
    let order = TokenOrder::Transfer { recipient: text("bob"), amount: 1 };
    let r = instruction_from(text("token"), order, Ok(vec![1, 2, 3]));
    assert_eq!(
        r,
        Ok(TransferInstruction {
            contract_addr: text("token"),
            order: TokenOrder::Transfer { recipient: text("bob"), amount: 1 },
            msg: vec![1, 2, 3],
        })
    );
}

#[test]
fn response_builders_keep_order() {
    let message = TransferInstruction {
        contract_addr: text("token"),
        order: TokenOrder::Transfer { recipient: text("bob"), amount: 1 },
        msg: vec![7],
    };
    let response = Response::new()
        .add_attribute(attr("a", text("1")))
        .add_message(message)
        .add_attributes(vec![attr("b", text("2")), attr("c", text("3"))])
        .add_attributes(vec![]);
    assert_eq!(response.messages.len(), 1);
    assert_eq!(response.messages[0].msg, vec![7]);
    assert_eq!(response.attributes, vec![attr("a", text("1")), attr("b", text("2")), attr("c", text("3"))]);
    assert_eq!(response.attributes[0].key, "a");
    assert_eq!(response.attributes[0].value, "1");
    let empty = Response::new();
    assert!(empty.messages.is_empty());
    assert!(empty.attributes.is_empty());
}

#[test]
fn error_messages() {
    assert_eq!(LedgerError::NotFound.message(), "Not found");
    assert_eq!(LedgerError::Unauthorized.message(), "Unauthorized");
    assert_eq!(
        LedgerError::InsufficientBalance.message(),
        "Insufficient collateral balance for the given token"
    );
    assert_eq!(LedgerError::TokenMismatch.message(), "Token mismatch");
    assert_eq!(LedgerError::ArithmeticError.message(), "Arithmetic error");
    assert_eq!(LedgerError::EncodingFailed.message(), "Encoding failed");
}

#[test]
fn query_types_hold_their_fields() {
    assert_eq!(GetUserProfileResponse { address: text("U") }.address, "U");
    assert_eq!(GetLoanResponse { loan_idx: 3 }.loan_idx, 3);
    assert_eq!(GetAcceptedCollateralsResponse {}, GetAcceptedCollateralsResponse {});
    assert_ne!(QueryMsg::GetUserProfile, QueryMsg::GetLoan);
    assert_eq!(QueryMsg::GetAcceptedCollaterals {}, QueryMsg::GetAcceptedCollaterals {});
}

fn slots(admin_profile: bool, user_profile: bool, loan: bool, accepted_collateral: bool) -> Slots {
    Slots { admin_profile, user_profile, loan, accepted_collateral }
}

#[test]
fn each_message_names_what_it_reads_and_writes() {
    let m = ExecuteMsg::InitializeUser {};
    assert_eq!(m.reads(), slots(false, false, false, false));
    assert_eq!(m.writes(), slots(false, true, false, false));
    let m = ExecuteMsg::AddAcceptedCollaterial {
        ticker: text("a"),
        mint_address: text("b"),
        pool_address: text("c"),
        image: text("d"),
    };
    assert_eq!(m.reads(), slots(true, false, false, false));
    assert_eq!(m.writes(), slots(false, false, false, true));
    let m = ExecuteMsg::DepositCollaterial { amount: 1, token_address: text("T") };
    assert_eq!(m.reads(), slots(false, true, false, false));
    assert_eq!(m.writes(), slots(false, true, false, false));
    let m = ExecuteMsg::WithdrawCollaterial { amount: 1, token_address: text("T") };
    assert_eq!(m.reads(), slots(false, true, false, false));
    assert_eq!(m.writes(), slots(false, true, false, false));
    let m = ExecuteMsg::CreateLoan { duration: 1, interest_rate: 2, amount: 3, token_address: text("T") };
    assert_eq!(m.reads(), slots(false, true, false, false));
    assert_eq!(m.writes(), slots(false, true, true, false));
    let m = ExecuteMsg::AcceptLoan { loan_idx: 1, token_address: text("T") };
    assert_eq!(m.reads(), slots(false, false, true, false));
    assert_eq!(m.writes(), slots(false, false, true, false));
}

#[test]
fn loan_accept_moves_only_forward() {
    let loan = |status: LoanStatus| Loan {
        interest_rate: 1,
        lender: text("U"),
        amount: 2,
        status,
        duration: 3,
        authority: text("U"),
        token_address: text("T"),
        idx: 4,
    };
    let mut open = loan(LoanStatus::Open);
    open.accept();
    assert_eq!(open, loan(LoanStatus::Accepted));
    let mut accepted = loan(LoanStatus::Accepted);
    accepted.accept();
    assert_eq!(accepted, loan(LoanStatus::Accepted));
    let mut closed = loan(LoanStatus::Closed);
    closed.accept();
    assert_eq!(closed, loan(LoanStatus::Closed));
}
