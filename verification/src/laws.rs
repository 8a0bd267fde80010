use vstd::prelude::*;
use crate::error::LedgerError;
use crate::ledger::{LedgerView, Slots};
use crate::model::{new_loan, Outcome};
use crate::msg::ExecuteMsgView;
use crate::state::{LoanStatus, LoanView, UserProfileView};

verus! {

/// Whether two tables hold the same under `identity`: the same record, or
/// none either.
pub open spec fn same_record<V>(table: Map<Seq<char>, V>, other: Map<Seq<char>, V>, identity: Seq<char>) -> bool {
    table.contains_key(identity) == other.contains_key(identity) && (table.contains_key(identity) ==> table[identity]
        == other[identity])
}

/// Every place there is.
pub open spec fn all_slots() -> Slots {
    Slots { admin_profile: true, user_profile: true, loan: true, accepted_collateral: true }
}

/// One call to the ledger: who made it, and what it asked for.
pub struct Call {
    pub sender: Seq<char>,
    pub msg: ExecuteMsgView,
}

/// The terms on which a loan is created.
pub struct LoanTerms {
    pub duration: u64,
    pub interest_rate: u64,
    pub amount: u128,
    pub token_address: Seq<char>,
}

impl LoanTerms {
    /// What creating a loan on these terms by `sender` leaves behind.
    pub open spec fn created_by(self, ledger: LedgerView, sender: Seq<char>) -> Outcome {
        ledger.create_loan(sender, self.duration, self.interest_rate, self.amount, self.token_address)
    }
}

impl Call {
    /// Whether this call registers `user`, which discards the user's history.
    pub open spec fn registers(self, user: Seq<char>) -> bool {
        self.sender == user && self.msg is InitializeUser
    }
}

impl LedgerView {
    /// The state after `call`: that of its step, or this state where the
    /// call is rejected.
    pub open spec fn after(self, contract: Seq<char>, call: Call) -> LedgerView {
        match self.execute(contract, call.sender, call.msg) {
            Ok(step) => step.ledger,
            Err(_) => self,
        }
    }

    /// The state after `calls`, made one after the other.
    pub open spec fn after_all(self, contract: Seq<char>, calls: Seq<Call>) -> LedgerView
        decreases calls.len(),
    {
        if calls.len() == 0 {
            self
        } else {
            self.after_all(contract, calls.drop_last()).after(contract, calls.last())
        }
    }

    /// What `user` holds of `token` as collateral: nothing without a profile.
    pub open spec fn holdings(self, user: Seq<char>, token: Seq<char>) -> nat {
        if self.user_profile.contains_key(user) {
            self.user_profile[user].balance_of(token)
        } else {
            0
        }
    }

    /// What `call`, made in this state, deposits of `token` for `user`:
    /// its amount where it is such a deposit and is not rejected.
    pub open spec fn deposited_by(self, contract: Seq<char>, call: Call, user: Seq<char>, token: Seq<char>) -> nat {
        match call.msg {
            ExecuteMsgView::DepositCollaterial { amount, token_address } => if call.sender == user && token_address
                == token && self.execute(contract, call.sender, call.msg) is Ok {
                amount as nat
            } else {
                0
            },
            _ => 0,
        }
    }

    /// What `call`, made in this state, withdraws of `token` for `user`:
    /// its amount where it is such a withdrawal and is not rejected.
    pub open spec fn withdrawn_by(self, contract: Seq<char>, call: Call, user: Seq<char>, token: Seq<char>) -> nat {
        match call.msg {
            ExecuteMsgView::WithdrawCollaterial { amount, token_address } => if call.sender == user && token_address
                == token && self.execute(contract, call.sender, call.msg) is Ok {
                amount as nat
            } else {
                0
            },
            _ => 0,
        }
    }

    /// The sum of what `calls`, made one after the other from this state,
    /// deposit of `token` for `user`.
    pub open spec fn total_deposited(
        self,
        contract: Seq<char>,
        calls: Seq<Call>,
        user: Seq<char>,
        token: Seq<char>,
    ) -> nat
        decreases calls.len(),
    {
        if calls.len() == 0 {
            0
        } else {
            self.total_deposited(contract, calls.drop_last(), user, token) + self.after_all(
                contract,
                calls.drop_last(),
            ).deposited_by(contract, calls.last(), user, token)
        }
    }

    /// The sum of what `calls`, made one after the other from this state,
    /// withdraw of `token` for `user`.
    pub open spec fn total_withdrawn(
        self,
        contract: Seq<char>,
        calls: Seq<Call>,
        user: Seq<char>,
        token: Seq<char>,
    ) -> nat
        decreases calls.len(),
    {
        if calls.len() == 0 {
            0
        } else {
            self.total_withdrawn(contract, calls.drop_last(), user, token) + self.after_all(
                contract,
                calls.drop_last(),
            ).withdrawn_by(contract, calls.last(), user, token)
        }
    }

    /// Whether this state and `other` hold the same in the places `slots`,
    /// where the places of an identity are those of `identity`.
    pub open spec fn agrees_on(self, other: LedgerView, identity: Seq<char>, slots: Slots) -> bool {
        &&& slots.admin_profile ==> self.admin_profile == other.admin_profile
        &&& slots.user_profile ==> same_record(self.user_profile, other.user_profile, identity)
        &&& slots.loan ==> same_record(self.loan, other.loan, identity)
        &&& slots.accepted_collateral ==> same_record(
            self.accepted_collateral,
            other.accepted_collateral,
            identity,
        )
    }

    /// Whether every record is stored under the identity that it names as
    /// its authority, every loan names its creator as lender and is not
    /// closed, and every identity with a loan has a profile.
    pub open spec fn consistent(self) -> bool {
        &&& forall|k: Seq<char>| #[trigger]
            self.user_profile.contains_key(k) ==> {
                &&& self.user_profile[k].authority == k
                &&& forall|i: int|
                    0 <= i < self.user_profile[k].coins_deposited.len() ==> (
                    #[trigger] self.user_profile[k].coins_deposited[i]).authority == k
            }
        &&& forall|k: Seq<char>| #[trigger]
            self.loan.contains_key(k) ==> {
                &&& self.loan[k].authority == k
                &&& self.loan[k].lender == k
                &&& self.loan[k].status != LoanStatus::Closed
                &&& self.user_profile.contains_key(k)
            }
        &&& forall|k: Seq<char>| #[trigger]
            self.accepted_collateral.contains_key(k) ==> self.accepted_collateral[k].authority == k
    }
}

/// One call changes what a user holds of a token by exactly what it
/// deposits and withdraws for that user and token, unless it registers the
/// user anew.
pub proof fn lemma_call_accounting(
    ledger: LedgerView,
    contract: Seq<char>,
    call: Call,
    user: Seq<char>,
    token: Seq<char>,
)
    requires
        !call.registers(user),
    ensures
        ledger.after(contract, call).holdings(user, token) + ledger.withdrawn_by(contract, call, user, token)
            == ledger.holdings(user, token) + ledger.deposited_by(contract, call, user, token),
{
    let sender = call.sender;
    if ledger.execute(contract, sender, call.msg) is Ok {
        match call.msg {
            ExecuteMsgView::DepositCollaterial { amount, token_address } => {
                ledger.user_profile[sender].lemma_deposit_balance(sender, amount, token_address, token);
            },
            ExecuteMsgView::WithdrawCollaterial { amount, token_address } => {
                ledger.user_profile[sender].lemma_withdrawal_balance(amount, token_address, token);
            },
            _ => {},
        }
    }
}

/// Over any sequence of calls in which `user` is not registered anew, what
/// the user holds of `token` at the end, plus all that was withdrawn of it,
/// equals what the user held at the start plus all that was deposited. So
/// the holdings never exceed the deposits less the withdrawals, and, being
/// a natural number, never go below zero.
pub proof fn lemma_collateral_accounting(
    ledger: LedgerView,
    contract: Seq<char>,
    calls: Seq<Call>,
    user: Seq<char>,
    token: Seq<char>,
)
    requires
        forall|i: int| 0 <= i < calls.len() ==> !(#[trigger] calls[i]).registers(user),
    ensures
        ledger.after_all(contract, calls).holdings(user, token) + ledger.total_withdrawn(
            contract,
            calls,
            user,
            token,
        ) == ledger.holdings(user, token) + ledger.total_deposited(contract, calls, user, token),
    decreases calls.len(),
{
    if calls.len() > 0 {
        lemma_collateral_accounting(ledger, contract, calls.drop_last(), user, token);
        lemma_call_accounting(ledger.after_all(contract, calls.drop_last()), contract, calls.last(), user, token);
    }
}

/// Registration discards history: whatever the ledger held for `sender`,
/// afterwards the profile is the fresh one, with no collateral and no loan
/// counted, while a loan stored for `sender` stays as it was.
pub proof fn lemma_registration_discards_history(ledger: LedgerView, sender: Seq<char>, token: Seq<char>)
    ensures
        ledger.initialize_user(sender) is Ok,
        ledger.initialize_user(sender)->Ok_0.ledger.user_profile[sender] == UserProfileView::fresh(sender),
        ledger.initialize_user(sender)->Ok_0.ledger.holdings(sender, token) == 0,
        ledger.initialize_user(sender)->Ok_0.ledger.loan == ledger.loan,
{
}

/// With an admin in place, registering collateral as anyone else is
/// rejected as unauthorized, whatever is registered and whatever the
/// ledger holds; a rejected call changes nothing.
pub proof fn lemma_only_admin_registers_collateral(
    ledger: LedgerView,
    contract: Seq<char>,
    sender: Seq<char>,
    ticker: Seq<char>,
    mint_address: Seq<char>,
    pool_address: Seq<char>,
    image: Seq<char>,
)
    requires
        ledger.admin_profile is Some,
        ledger.admin_profile->Some_0.authority != sender,
    ensures
        ledger.add_accepted_collateral(sender, ticker, mint_address, pool_address, image) is Err,
        ledger.add_accepted_collateral(sender, ticker, mint_address, pool_address, image)->Err_0
            == LedgerError::Unauthorized,
        ledger.after(
            contract,
            Call {
                sender,
                msg: ExecuteMsgView::AddAcceptedCollaterial { ticker, mint_address, pool_address, image },
            },
        ) == ledger,
{
}

/// A withdrawal larger than every single line item of its token is
/// rejected for insufficient balance, however much the line items hold
/// together.
pub proof fn lemma_withdrawal_needs_one_line_item(
    ledger: LedgerView,
    sender: Seq<char>,
    amount: u128,
    token: Seq<char>,
)
    requires
        ledger.user_profile.contains_key(sender),
        forall|i: int|
            0 <= i < ledger.user_profile[sender].coins_deposited.len() && (
            #[trigger] ledger.user_profile[sender].coins_deposited[i]).mint_address == token
                ==> ledger.user_profile[sender].coins_deposited[i].amount < amount,
    ensures
        ledger.withdraw_collateral(sender, amount, token) is Err,
        ledger.withdraw_collateral(sender, amount, token)->Err_0 == LedgerError::InsufficientBalance,
{
}

/// A second loan takes the place of the first: after `sender` created a
/// loan and then the loan `second`, the profile counts two more loans,
/// while the one loan stored for `sender` is the second, numbered one
/// above the first, and the loans of all other identities are as before.
pub proof fn lemma_second_loan_overwrites(ledger: LedgerView, sender: Seq<char>, first: LoanTerms, second: LoanTerms)
    requires
        ledger.user_profile.contains_key(sender),
        ledger.user_profile[sender].loan_count + 2 <= u64::MAX,
        ledger.user_profile[sender].last_loan + 2 <= u64::MAX,
    ensures
        first.created_by(ledger, sender) is Ok,
        second.created_by(first.created_by(ledger, sender)->Ok_0.ledger, sender) is Ok,
        second.created_by(first.created_by(ledger, sender)->Ok_0.ledger, sender)->Ok_0.ledger.user_profile[sender]
            == ledger.user_profile[sender].with_loan_counted().with_loan_counted(),
        second.created_by(first.created_by(ledger, sender)->Ok_0.ledger, sender)->Ok_0.ledger.user_profile[sender].loan_count
            == ledger.user_profile[sender].loan_count + 2,
        second.created_by(first.created_by(ledger, sender)->Ok_0.ledger, sender)->Ok_0.ledger.loan
            == ledger.loan.insert(
            sender,
            new_loan(
                sender,
                (ledger.user_profile[sender].last_loan + 1) as u64,
                second.duration,
                second.interest_rate,
                second.amount,
                second.token_address,
            ),
        ),
{
    let twice = second.created_by(first.created_by(ledger, sender)->Ok_0.ledger, sender)->Ok_0.ledger;
    assert(twice.loan =~= ledger.loan.insert(
        sender,
        new_loan(
            sender,
            (ledger.user_profile[sender].last_loan + 1) as u64,
            second.duration,
            second.interest_rate,
            second.amount,
            second.token_address,
        ),
    ));
}

/// Starting from a fresh registration with no loan stored, two loans
/// created by `sender` leave the loan count at two and one loan stored.
pub proof fn lemma_two_loans_one_record(ledger: LedgerView, sender: Seq<char>, first: LoanTerms, second: LoanTerms)
    requires
        ledger.loan == Map::<Seq<char>, crate::state::LoanView>::empty(),
    ensures
        ({
            let registered = ledger.initialize_user(sender)->Ok_0.ledger;
            let end = second.created_by(first.created_by(registered, sender)->Ok_0.ledger, sender)->Ok_0.ledger;
            &&& end.user_profile[sender].loan_count == 2
            &&& end.loan.dom() == set![sender]
            &&& end.loan.len() == 1
        }),
{
    let registered = ledger.initialize_user(sender)->Ok_0.ledger;
    lemma_second_loan_overwrites(registered, sender, first, second);
    let end = second.created_by(first.created_by(registered, sender)->Ok_0.ledger, sender)->Ok_0.ledger;
    assert(end.loan.dom() =~= set![sender]);
}

/// Accepting a loan succeeds exactly when one is stored under the
/// caller's identity and the token address supplied equals the one stored
/// on it, character for character. In a consistent ledger that loan was
/// created by the caller. Accepting turns an open loan into an accepted
/// one and changes nothing else; a closed loan stays closed.
pub proof fn lemma_accept_loan(ledger: LedgerView, sender: Seq<char>, loan_idx: u64, token_address: Seq<char>)
    ensures
        ledger.accept_loan(sender, loan_idx, token_address) is Ok <==> ledger.loan.contains_key(sender)
            && ledger.loan[sender].token_address == token_address,
        ledger.accept_loan(sender, loan_idx, token_address) is Ok && ledger.consistent() ==> ledger.loan[sender].lender
            == sender && ledger.loan[sender].authority == sender,
        ledger.accept_loan(sender, loan_idx, token_address) is Ok ==> ledger.accept_loan(
            sender,
            loan_idx,
            token_address,
        )->Ok_0.ledger.loan[sender] == ledger.loan[sender].accepted(),
        ledger.accept_loan(sender, loan_idx, token_address) is Ok && ledger.loan[sender].status
            == LoanStatus::Closed ==> ledger.accept_loan(sender, loan_idx, token_address)->Ok_0.ledger.loan[sender]
            == ledger.loan[sender],
        ledger.accept_loan(sender, loan_idx, token_address) is Ok && ledger.loan[sender].status
            != LoanStatus::Closed ==> ledger.accept_loan(
            sender,
            loan_idx,
            token_address,
        )->Ok_0.ledger.loan[sender].status == LoanStatus::Accepted,
{
}

/// A loan's status only moves forward: unless `holder` creates a new loan
/// in its place, a call leaves a stored loan in place, changes nothing
/// of it but its status, and leaves the status where it was or further
/// along. A closed loan stays closed.
pub proof fn lemma_loan_status_moves_forward(
    ledger: LedgerView,
    contract: Seq<char>,
    call: Call,
    holder: Seq<char>,
)
    requires
        ledger.loan.contains_key(holder),
        !(call.sender == holder && call.msg is CreateLoan),
    ensures
        ledger.after(contract, call).loan.contains_key(holder),
        ledger.after(contract, call).loan[holder] == (LoanView {
            status: ledger.after(contract, call).loan[holder].status,
            ..ledger.loan[holder]
        }),
        ledger.after(contract, call).loan[holder].status.stage() >= ledger.loan[holder].status.stage(),
        ledger.loan[holder].status == LoanStatus::Closed ==> ledger.after(contract, call).loan[holder]
            == ledger.loan[holder],
{
}

/// Over any sequence of calls in which `holder` creates no loan, the
/// status of the loan stored for `holder` never moves backward.
pub proof fn lemma_loan_status_never_moves_backward(
    ledger: LedgerView,
    contract: Seq<char>,
    calls: Seq<Call>,
    holder: Seq<char>,
)
    requires
        ledger.loan.contains_key(holder),
        forall|i: int|
            0 <= i < calls.len() ==> !((#[trigger] calls[i]).sender == holder && calls[i].msg is CreateLoan),
    ensures
        ledger.after_all(contract, calls).loan.contains_key(holder),
        ledger.after_all(contract, calls).loan[holder].status.stage() >= ledger.loan[holder].status.stage(),
    decreases calls.len(),
{
    if calls.len() > 0 {
        lemma_loan_status_never_moves_backward(ledger, contract, calls.drop_last(), holder);
        lemma_loan_status_moves_forward(
            ledger.after_all(contract, calls.drop_last()),
            contract,
            calls.last(),
            holder,
        );
    }
}

/// Creating a loan succeeds for every caller with a profile. The new loan
/// is then the one stored for the caller, in place of any that was stored
/// there; the identities with a loan are those from before and the
/// caller; and every other identity's loan is as before.
pub proof fn lemma_new_loan_replaces(ledger: LedgerView, sender: Seq<char>, terms: LoanTerms)
    requires
        ledger.user_profile.contains_key(sender),
    ensures
        terms.created_by(ledger, sender) is Ok,
        terms.created_by(ledger, sender)->Ok_0.ledger.loan.dom() == ledger.loan.dom().insert(sender),
        terms.created_by(ledger, sender)->Ok_0.ledger.loan[sender] == new_loan(
            sender,
            ledger.user_profile[sender].last_loan,
            terms.duration,
            terms.interest_rate,
            terms.amount,
            terms.token_address,
        ),
        forall|other: Seq<char>|
            other != sender && #[trigger] ledger.loan.contains_key(other) ==> terms.created_by(
                ledger,
                sender,
            )->Ok_0.ledger.loan[other] == ledger.loan[other],
{
    assert(terms.created_by(ledger, sender)->Ok_0.ledger.loan.dom() =~= ledger.loan.dom().insert(sender));
}

/// Every call but registration and the admin's needs a profile stored for
/// its caller: in a consistent ledger it is rejected as not found
/// without one.
pub proof fn lemma_profile_required(ledger: LedgerView, contract: Seq<char>, call: Call)
    requires
        ledger.consistent(),
        !ledger.user_profile.contains_key(call.sender),
        !(call.msg is InitializeUser),
        !(call.msg is AddAcceptedCollaterial),
    ensures
        ledger.execute(contract, call.sender, call.msg) is Err,
        ledger.execute(contract, call.sender, call.msg)->Err_0 == LedgerError::NotFound,
{
}

/// A call changes nothing but what is stored under its caller's identity:
/// the admin profile and the records of every other identity stay as
/// they are.
pub proof fn lemma_call_touches_only_the_caller(
    ledger: LedgerView,
    contract: Seq<char>,
    call: Call,
    other: Seq<char>,
)
    requires
        other != call.sender,
    ensures
        ledger.after(contract, call).agrees_on(ledger, other, all_slots()),
{
}

/// Under its caller's identity a call changes nothing but the places
/// that its message names as written.
pub proof fn lemma_call_writes(ledger: LedgerView, contract: Seq<char>, call: Call)
    ensures
        ledger.after(contract, call).admin_profile == ledger.admin_profile,
        !call.msg.writes().user_profile ==> ledger.after(contract, call).user_profile == ledger.user_profile,
        !call.msg.writes().loan ==> ledger.after(contract, call).loan == ledger.loan,
        !call.msg.writes().accepted_collateral ==> ledger.after(contract, call).accepted_collateral
            == ledger.accepted_collateral,
{
    let after = ledger.after(contract, call);
    assert(!call.msg.writes().user_profile ==> after.user_profile =~= ledger.user_profile);
    assert(!call.msg.writes().loan ==> after.loan =~= ledger.loan);
    assert(!call.msg.writes().accepted_collateral ==> after.accepted_collateral =~= ledger.accepted_collateral);
}

/// A call reads nothing but the places that its message names as read:
/// on two ledgers that hold the same there, it is rejected for the same
/// reason or hands back the same response, and it leaves the same in the
/// places that it writes.
pub proof fn lemma_call_reads(ledger: LedgerView, other: LedgerView, contract: Seq<char>, call: Call)
    requires
        ledger.agrees_on(other, call.sender, call.msg.reads()),
    ensures
        ledger.execute(contract, call.sender, call.msg) is Err <==> other.execute(
            contract,
            call.sender,
            call.msg,
        ) is Err,
        ledger.execute(contract, call.sender, call.msg) is Err ==> ledger.execute(
            contract,
            call.sender,
            call.msg,
        )->Err_0 == other.execute(contract, call.sender, call.msg)->Err_0,
        ledger.execute(contract, call.sender, call.msg) is Ok ==> ledger.execute(
            contract,
            call.sender,
            call.msg,
        )->Ok_0.response == other.execute(contract, call.sender, call.msg)->Ok_0.response,
        ledger.execute(contract, call.sender, call.msg) is Ok ==> ledger.after(contract, call).agrees_on(
            other.after(contract, call),
            call.sender,
            call.msg.writes(),
        ),
{
}

/// No call is rejected for an arithmetic error: the line item that a
/// withdrawal is taken from always holds the amount.
pub proof fn lemma_no_arithmetic_error(ledger: LedgerView, contract: Seq<char>, call: Call)
    ensures
        ledger.execute(contract, call.sender, call.msg) is Err ==> ledger.execute(
            contract,
            call.sender,
            call.msg,
        )->Err_0 != LedgerError::ArithmeticError,
{
}

/// The empty ledger is consistent.
pub proof fn lemma_empty_consistent()
    ensures
        LedgerView::empty().consistent(),
{
}

/// Setting the ledger up keeps it consistent.
pub proof fn lemma_instantiate_consistent(ledger: LedgerView, sender: Seq<char>)
    requires
        ledger.consistent(),
    ensures
        ledger.instantiate(sender)->Ok_0.ledger.consistent(),
{
}

/// Every call keeps the ledger consistent.
pub proof fn lemma_call_consistent(ledger: LedgerView, contract: Seq<char>, call: Call)
    requires
        ledger.consistent(),
    ensures
        ledger.after(contract, call).consistent(),
{
    let sender = call.sender;
    let next = ledger.after(contract, call);
    if ledger.execute(contract, sender, call.msg) is Ok {
        match call.msg {
            ExecuteMsgView::WithdrawCollaterial { amount, token_address } => {
                crate::profile::lemma_fit_has_first(
                    ledger.user_profile[sender].coins_deposited,
                    amount,
                    token_address,
                );
            },
            _ => {},
        }
    }
}

/// Every sequence of calls keeps the ledger consistent.
pub proof fn lemma_calls_consistent(ledger: LedgerView, contract: Seq<char>, calls: Seq<Call>)
    requires
        ledger.consistent(),
    ensures
        ledger.after_all(contract, calls).consistent(),
    decreases calls.len(),
{
    if calls.len() > 0 {
        lemma_calls_consistent(ledger, contract, calls.drop_last());
        lemma_call_consistent(ledger.after_all(contract, calls.drop_last()), contract, calls.last());
    }
}

} // verus!
