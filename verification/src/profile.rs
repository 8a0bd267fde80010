use vstd::prelude::*;
use crate::codec::checked_sub;
use crate::error::LedgerError;
use crate::state::{deposits_view, DepositedCollateral, DepositedCollateralView, UserProfile, UserProfileView};

verus! {

impl DepositedCollateralView {
    /// Whether this line item alone can serve a withdrawal of `amount` of `token`.
    pub open spec fn covers(self, amount: u128, token: Seq<char>) -> bool {
        self.amount >= amount && self.mint_address == token
    }

    /// This line item with `amount` taken out of it.
    pub open spec fn reduced_by(self, amount: u128) -> DepositedCollateralView {
        DepositedCollateralView { amount: (self.amount - amount) as u128, ..self }
    }
}

/// Whether some line item can serve a withdrawal of `amount` of `token`.
pub open spec fn has_fit(items: Seq<DepositedCollateralView>, amount: u128, token: Seq<char>) -> bool {
    exists|i: int| 0 <= i < items.len() && (#[trigger] items[i]).covers(amount, token)
}

/// Whether `i` is the position of the first line item that can serve a
/// withdrawal of `amount` of `token`.
pub open spec fn is_first_fit(
    items: Seq<DepositedCollateralView>,
    i: int,
    amount: u128,
    token: Seq<char>,
) -> bool {
    &&& 0 <= i < items.len()
    &&& items[i].covers(amount, token)
    &&& forall|j: int| 0 <= j < i ==> !(#[trigger] items[j]).covers(amount, token)
}

/// The position of the first line item that can serve a withdrawal of
/// `amount` of `token`, where there is one.
pub open spec fn first_fit(items: Seq<DepositedCollateralView>, amount: u128, token: Seq<char>) -> int {
    choose|i: int| is_first_fit(items, i, amount, token)
}

/// There is at most one first fit, and `first_fit` names it.
pub proof fn lemma_first_fit_is(items: Seq<DepositedCollateralView>, i: int, amount: u128, token: Seq<char>)
    requires
        is_first_fit(items, i, amount, token),
    ensures
        has_fit(items, amount, token),
        first_fit(items, amount, token) == i,
{
    let k = first_fit(items, amount, token);
    assert(is_first_fit(items, k, amount, token));
    if k < i {
        assert(!items[k].covers(amount, token));
    }
    if i < k {
        assert(!items[i].covers(amount, token));
    }
}

/// What an identity holds of `token`, summed over all its line items.
pub open spec fn balance(items: Seq<DepositedCollateralView>, token: Seq<char>) -> nat
    decreases items.len(),
{
    if items.len() == 0 {
        0
    } else {
        balance(items.drop_last(), token) + if items.last().mint_address == token {
            items.last().amount as nat
        } else {
            0
        }
    }
}

impl UserProfileView {
    /// The profile that registration creates for `authority`.
    pub open spec fn fresh(authority: Seq<char>) -> UserProfileView {
        UserProfileView {
            authority,
            loan_count: 0,
            last_loan: 0,
            can_borrow: true,
            can_deposit: true,
            coins_lent: Seq::empty(),
            coins_deposited: Seq::empty(),
        }
    }

    /// The line item that a deposit by `depositor` of `amount` of `token` appends.
    pub open spec fn deposit_item(depositor: Seq<char>, amount: u128, token: Seq<char>) -> DepositedCollateralView {
        DepositedCollateralView {
            ticker: "TOKEN"@,
            mint_address: token,
            pool_address: "pool_address"@,
            amount,
            authority: depositor,
        }
    }

    /// This profile after `depositor` deposited `amount` of `token`.
    pub open spec fn with_deposit(self, depositor: Seq<char>, amount: u128, token: Seq<char>) -> UserProfileView {
        UserProfileView {
            coins_deposited: self.coins_deposited.push(Self::deposit_item(depositor, amount, token)),
            ..self
        }
    }

    /// Whether a withdrawal of `amount` of `token` can be served.
    pub open spec fn can_withdraw(self, amount: u128, token: Seq<char>) -> bool {
        has_fit(self.coins_deposited, amount, token)
    }

    /// This profile after `amount` of `token` was taken from the first line
    /// item that can serve it.
    pub open spec fn with_withdrawal(self, amount: u128, token: Seq<char>) -> UserProfileView {
        let i = first_fit(self.coins_deposited, amount, token);
        UserProfileView {
            coins_deposited: self.coins_deposited.update(i, self.coins_deposited[i].reduced_by(amount)),
            ..self
        }
    }

    /// This profile after one more loan was counted.
    pub open spec fn with_loan_counted(self) -> UserProfileView {
        UserProfileView {
            loan_count: (self.loan_count + 1) as u64,
            last_loan: (self.last_loan + 1) as u64,
            ..self
        }
    }

    /// What the profile holds of `token`.
    pub open spec fn balance_of(self, token: Seq<char>) -> nat {
        balance(self.coins_deposited, token)
    }
}

impl UserProfile {
    /// A new profile for `authority`: counters at zero, both capabilities
    /// granted, nothing lent and nothing deposited.
    pub fn new(authority: String) -> (r: UserProfile)
        ensures
            r@ == UserProfileView::fresh(authority@),
    {
        let r = UserProfile {
            authority,
            loan_count: 0,
            last_loan: 0,
            can_borrow: true,
            can_deposit: true,
            coins_lent: Vec::new(),
            coins_deposited: Vec::new(),
        };
        assert(r@.coins_lent =~= Seq::empty());
        assert(r@.coins_deposited =~= Seq::empty());
        r
    }

    /// Appends a line item for `amount` of `token_address`, deposited by
    /// `depositor`. Line items are never merged.
    pub fn deposit(&mut self, depositor: &String, amount: u128, token_address: &String)
        ensures
            final(self)@ == old(self)@.with_deposit(depositor@, amount, token_address@),
    {
        let item = DepositedCollateral {
            ticker: "TOKEN".to_owned(),
            mint_address: token_address.clone(),
            pool_address: "pool_address".to_owned(),
            amount,
            authority: depositor.clone(),
        };
        self.coins_deposited.push(item);
        assert(deposits_view(self.coins_deposited@) =~= deposits_view(old(self).coins_deposited@).push(
            UserProfileView::deposit_item(depositor@, amount, token_address@),
        ));
    }

    /// The position of the first line item that holds at least `amount` of
    /// `token_address`, if there is one.
    pub fn find_first_fit(&self, amount: u128, token_address: &String) -> (r: Option<usize>)
        ensures
            r is Some ==> is_first_fit(self@.coins_deposited, r->Some_0 as int, amount, token_address@),
            r is None ==> !self@.can_withdraw(amount, token_address@),
    {
        let mut i: usize = 0;
        while i < self.coins_deposited.len()
            invariant
                i <= self.coins_deposited.len(),
                forall|j: int| 0 <= j < i ==> !(#[trigger] self@.coins_deposited[j]).covers(amount, token_address@),
            decreases self.coins_deposited.len() - i,
        {
            let item = &self.coins_deposited[i];
            if item.amount >= amount && item.mint_address == *token_address {
                assert(self@.coins_deposited[i as int] == item@);
                return Some(i);
            }
            assert(self@.coins_deposited[i as int] == item@);
            i += 1;
        }
        None
    }

    /// Takes `amount` of `token_address` out of the first line item that
    /// holds at least that much of it. Fails, and changes nothing, where no
    /// single line item does.
    pub fn withdraw(&mut self, amount: u128, token_address: &String) -> (r: Result<(), LedgerError>)
        ensures
            old(self)@.can_withdraw(amount, token_address@) ==> r is Ok && final(self)@ == old(self)@.with_withdrawal(
                amount,
                token_address@,
            ),
            !old(self)@.can_withdraw(amount, token_address@) ==> r is Err && r->Err_0
                == LedgerError::InsufficientBalance && final(self)@ == old(self)@,
    {
        match self.find_first_fit(amount, token_address) {
            Some(i) => {
                proof {
                    lemma_first_fit_is(self@.coins_deposited, i as int, amount, token_address@);
                }
                let held: u128 = self.coins_deposited[i].amount;
                match checked_sub(held, amount) {
                    Ok(rest) => {
                        self.coins_deposited[i].amount = rest;
                        assert(deposits_view(self.coins_deposited@) =~= deposits_view(
                            old(self).coins_deposited@,
                        ).update(i as int, old(self)@.coins_deposited[i as int].reduced_by(amount)));
                        Ok(())
                    },
                    Err(_) => Err(LedgerError::ArithmeticError),
                }
            },
            None => Err(LedgerError::InsufficientBalance),
        }
    }

    /// Counts one more loan on the profile.
    pub fn count_loan(&mut self)
        requires
            old(self).loan_count < u64::MAX,
            old(self).last_loan < u64::MAX,
        ensures
            final(self)@ == old(self)@.with_loan_counted(),
    {
        self.loan_count += 1;
        self.last_loan += 1;
    }
}

/// Every line item that can serve a withdrawal has a first one among them.
pub proof fn lemma_fit_has_first(items: Seq<DepositedCollateralView>, amount: u128, token: Seq<char>)
    requires
        has_fit(items, amount, token),
    ensures
        is_first_fit(items, first_fit(items, amount, token), amount, token),
{
    let some = choose|i: int| 0 <= i < items.len() && (#[trigger] items[i]).covers(amount, token);
    lemma_first_fit_up_to(items, some, amount, token);
}

proof fn lemma_first_fit_up_to(items: Seq<DepositedCollateralView>, bound: int, amount: u128, token: Seq<char>)
    requires
        0 <= bound < items.len(),
        items[bound].covers(amount, token),
    ensures
        exists|i: int| is_first_fit(items, i, amount, token),
    decreases bound,
{
    if exists|j: int| 0 <= j < bound && (#[trigger] items[j]).covers(amount, token) {
        let j = choose|j: int| 0 <= j < bound && (#[trigger] items[j]).covers(amount, token);
        lemma_first_fit_up_to(items, j, amount, token);
    } else {
        assert(is_first_fit(items, bound, amount, token));
    }
}

/// A new line item adds its amount to the balance of its token, and
/// nothing to the balance of any other.
pub proof fn lemma_balance_push(items: Seq<DepositedCollateralView>, item: DepositedCollateralView, token: Seq<char>)
    ensures
        balance(items.push(item), token) == balance(items, token) + if item.mint_address == token {
            item.amount as nat
        } else {
            0
        },
{
    assert(items.push(item).drop_last() =~= items);
}

/// Taking `amount` out of the line item at `i` takes it from the balance
/// of that item's token, and nothing from the balance of any other.
pub proof fn lemma_balance_reduce(items: Seq<DepositedCollateralView>, i: int, amount: u128, token: Seq<char>)
    requires
        0 <= i < items.len(),
        items[i].amount >= amount,
    ensures
        balance(items.update(i, items[i].reduced_by(amount)), token) + if items[i].mint_address == token {
            amount as nat
        } else {
            0
        } == balance(items, token),
    decreases items.len(),
{
    let after = items.update(i, items[i].reduced_by(amount));
    if i == items.len() - 1 {
        assert(after.drop_last() =~= items.drop_last());
    } else {
        lemma_balance_reduce(items.drop_last(), i, amount, token);
        assert(after.drop_last() =~= items.drop_last().update(i, items[i].reduced_by(amount)));
    }
}

impl UserProfileView {
    /// A deposit raises the balance of its token by its amount and leaves
    /// the balance of every other token as it was.
    pub proof fn lemma_deposit_balance(self, depositor: Seq<char>, amount: u128, token: Seq<char>, of: Seq<char>)
        ensures
            self.with_deposit(depositor, amount, token).balance_of(of) == self.balance_of(of) + if token == of {
                amount as nat
            } else {
                0
            },
    {
        lemma_balance_push(self.coins_deposited, Self::deposit_item(depositor, amount, token), of);
    }

    /// A withdrawal that can be served lowers the balance of its token by
    /// its amount and leaves the balance of every other token as it was.
    pub proof fn lemma_withdrawal_balance(self, amount: u128, token: Seq<char>, of: Seq<char>)
        requires
            self.can_withdraw(amount, token),
        ensures
            self.with_withdrawal(amount, token).balance_of(of) + if token == of {
                amount as nat
            } else {
                0
            } == self.balance_of(of),
    {
        lemma_fit_has_first(self.coins_deposited, amount, token);
        lemma_balance_reduce(self.coins_deposited, first_fit(self.coins_deposited, amount, token), amount, of);
    }
}

} // verus!
