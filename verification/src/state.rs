use vstd::prelude::*;

verus! {

/// Where a loan stands in its life. A loan starts `Open` and can move to
/// `Accepted`; no operation reaches `Closed`.
#[derive(Clone, Copy, Debug, PartialEq, Eq, Structural)]
pub enum LoanStatus {
    Open,
    Accepted,
    Closed,
}

/// The profile of the one privileged account.
#[derive(Debug, PartialEq, Eq)]
pub struct AdminProfile {
    pub authority: String,
    pub collaterial_count: u64,
}

/// What an `AdminProfile` holds, as plain values.
pub struct AdminProfileView {
    pub authority: Seq<char>,
    pub collaterial_count: u64,
}

impl View for AdminProfile {
    type V = AdminProfileView;

    open spec fn view(&self) -> AdminProfileView {
        AdminProfileView { authority: self.authority@, collaterial_count: self.collaterial_count }
    }
}

impl Clone for AdminProfile {
    fn clone(&self) -> (r: Self)
        ensures
            r@ == self@,
    {
        AdminProfile { authority: self.authority.clone(), collaterial_count: self.collaterial_count }
    }
}

/// A coin lent out by a user. No operation of the ledger records one.
#[derive(Debug, PartialEq, Eq)]
pub struct LentCoin {
    pub ticker: String,
    pub amount: u128,
    pub token_address: String,
}

/// What a `LentCoin` holds, as plain values.
pub struct LentCoinView {
    pub ticker: Seq<char>,
    pub amount: u128,
    pub token_address: Seq<char>,
}

impl View for LentCoin {
    type V = LentCoinView;

    open spec fn view(&self) -> LentCoinView {
        LentCoinView {
            ticker: self.ticker@,
            amount: self.amount,
            token_address: self.token_address@,
        }
    }
}

impl Clone for LentCoin {
    fn clone(&self) -> (r: Self)
        ensures
            r@ == self@,
    {
        LentCoin {
            ticker: self.ticker.clone(),
            amount: self.amount,
            token_address: self.token_address.clone(),
        }
    }
}

/// One line item of a user's deposited collateral.
#[derive(Debug, PartialEq, Eq)]
pub struct DepositedCollateral {
    pub ticker: String,
    pub mint_address: String,
    pub pool_address: String,
    pub amount: u128,
    pub authority: String,
}

/// What a `DepositedCollateral` holds, as plain values.
pub struct DepositedCollateralView {
    pub ticker: Seq<char>,
    pub mint_address: Seq<char>,
    pub pool_address: Seq<char>,
    pub amount: u128,
    pub authority: Seq<char>,
}

impl View for DepositedCollateral {
    type V = DepositedCollateralView;

    open spec fn view(&self) -> DepositedCollateralView {
        DepositedCollateralView {
            ticker: self.ticker@,
            mint_address: self.mint_address@,
            pool_address: self.pool_address@,
            amount: self.amount,
            authority: self.authority@,
        }
    }
}

impl Clone for DepositedCollateral {
    fn clone(&self) -> (r: Self)
        ensures
            r@ == self@,
    {
        DepositedCollateral {
            ticker: self.ticker.clone(),
            mint_address: self.mint_address.clone(),
            pool_address: self.pool_address.clone(),
            amount: self.amount,
            authority: self.authority.clone(),
        }
    }
}

/// A token that the admin has registered as eligible collateral.
#[derive(Debug, PartialEq, Eq)]
pub struct AcceptedCollateral {
    pub ticker: String,
    pub mint_address: String,
    pub pool_address: String,
    pub image: String,
    pub authority: String,
}

/// What an `AcceptedCollateral` holds, as plain values.
pub struct AcceptedCollateralView {
    pub ticker: Seq<char>,
    pub mint_address: Seq<char>,
    pub pool_address: Seq<char>,
    pub image: Seq<char>,
    pub authority: Seq<char>,
}

impl View for AcceptedCollateral {
    type V = AcceptedCollateralView;

    open spec fn view(&self) -> AcceptedCollateralView {
        AcceptedCollateralView {
            ticker: self.ticker@,
            mint_address: self.mint_address@,
            pool_address: self.pool_address@,
            image: self.image@,
            authority: self.authority@,
        }
    }
}

impl Clone for AcceptedCollateral {
    fn clone(&self) -> (r: Self)
        ensures
            r@ == self@,
    {
        AcceptedCollateral {
            ticker: self.ticker.clone(),
            mint_address: self.mint_address.clone(),
            pool_address: self.pool_address.clone(),
            image: self.image.clone(),
            authority: self.authority.clone(),
        }
    }
}

/// A loan offer recorded for the identity that created it.
#[derive(Debug, PartialEq, Eq)]
pub struct Loan {
    pub interest_rate: u64,
    pub lender: String,
    pub amount: u128,
    pub status: LoanStatus,
    pub duration: u64,
    pub authority: String,
    pub token_address: String,
    pub idx: u64,
}

/// What a `Loan` holds, as plain values.
pub struct LoanView {
    pub interest_rate: u64,
    pub lender: Seq<char>,
    pub amount: u128,
    pub status: LoanStatus,
    pub duration: u64,
    pub authority: Seq<char>,
    pub token_address: Seq<char>,
    pub idx: u64,
}

impl View for Loan {
    type V = LoanView;

    open spec fn view(&self) -> LoanView {
        LoanView {
            interest_rate: self.interest_rate,
            lender: self.lender@,
            amount: self.amount,
            status: self.status,
            duration: self.duration,
            authority: self.authority@,
            token_address: self.token_address@,
            idx: self.idx,
        }
    }
}

impl LoanStatus {
    /// How far along its life a loan with this status is.
    pub open spec fn stage(self) -> nat {
        match self {
            LoanStatus::Open => 0,
            LoanStatus::Accepted => 1,
            LoanStatus::Closed => 2,
        }
    }
}

impl LoanView {
    /// This loan after it was accepted: accepted, unless it is closed, in
    /// which case it stays closed.
    pub open spec fn accepted(self) -> LoanView {
        if self.status == LoanStatus::Closed {
            self
        } else {
            LoanView { status: LoanStatus::Accepted, ..self }
        }
    }
}

impl Loan {
    /// Accepts the loan. A closed loan stays closed: a status never moves
    /// backward.
    pub fn accept(&mut self)
        ensures
            final(self)@ == old(self)@.accepted(),
    {
        match self.status {
            LoanStatus::Closed => {},
            _ => {
                self.status = LoanStatus::Accepted;
            },
        }
    }
}

impl Clone for Loan {
    fn clone(&self) -> (r: Self)
        ensures
            r@ == self@,
    {
        Loan {
            interest_rate: self.interest_rate,
            lender: self.lender.clone(),
            amount: self.amount,
            status: self.status,
            duration: self.duration,
            authority: self.authority.clone(),
            token_address: self.token_address.clone(),
            idx: self.idx,
        }
    }
}

/// The views of a sequence of line items, in the same order.
pub open spec fn deposits_view(items: Seq<DepositedCollateral>) -> Seq<DepositedCollateralView> {
    items.map_values(|c: DepositedCollateral| c@)
}

/// The views of a sequence of lent coins, in the same order.
pub open spec fn lent_view(coins: Seq<LentCoin>) -> Seq<LentCoinView> {
    coins.map_values(|c: LentCoin| c@)
}

/// Copies a list of line items.
pub fn clone_deposits(items: &Vec<DepositedCollateral>) -> (r: Vec<DepositedCollateral>)
    ensures
        deposits_view(r@) == deposits_view(items@),
{
    let mut out: Vec<DepositedCollateral> = Vec::new();
    let mut i: usize = 0;
    while i < items.len()
        invariant
            i <= items.len(),
            out@.len() == i,
            forall|j: int| 0 <= j < i ==> out@[j]@ == items@[j]@,
        decreases items.len() - i,
    {
        out.push(items[i].clone());
        i += 1;
    }
    assert(deposits_view(out@) =~= deposits_view(items@));
    out
}

/// Copies a list of lent coins.
pub fn clone_lent(coins: &Vec<LentCoin>) -> (r: Vec<LentCoin>)
    ensures
        lent_view(r@) == lent_view(coins@),
{
    let mut out: Vec<LentCoin> = Vec::new();
    let mut i: usize = 0;
    while i < coins.len()
        invariant
            i <= coins.len(),
            out@.len() == i,
            forall|j: int| 0 <= j < i ==> out@[j]@ == coins@[j]@,
        decreases coins.len() - i,
    {
        out.push(coins[i].clone());
        i += 1;
    }
    assert(lent_view(out@) =~= lent_view(coins@));
    out
}

/// The profile of one user, stored under the user's identity.
#[derive(Debug, PartialEq, Eq)]
pub struct UserProfile {
    pub authority: String,
    pub loan_count: u64,
    pub last_loan: u64,
    pub can_borrow: bool,
    pub can_deposit: bool,
    pub coins_lent: Vec<LentCoin>,
    pub coins_deposited: Vec<DepositedCollateral>,
}

/// What a `UserProfile` holds, as plain values.
pub struct UserProfileView {
    pub authority: Seq<char>,
    pub loan_count: u64,
    pub last_loan: u64,
    pub can_borrow: bool,
    pub can_deposit: bool,
    pub coins_lent: Seq<LentCoinView>,
    pub coins_deposited: Seq<DepositedCollateralView>,
}

impl View for UserProfile {
    type V = UserProfileView;

    open spec fn view(&self) -> UserProfileView {
        UserProfileView {
            authority: self.authority@,
            loan_count: self.loan_count,
            last_loan: self.last_loan,
            can_borrow: self.can_borrow,
            can_deposit: self.can_deposit,
            coins_lent: lent_view(self.coins_lent@),
            coins_deposited: deposits_view(self.coins_deposited@),
        }
    }
}

impl Clone for UserProfile {
    fn clone(&self) -> (r: Self)
        ensures
            r@ == self@,
    {
        UserProfile {
            authority: self.authority.clone(),
            loan_count: self.loan_count,
            last_loan: self.last_loan,
            can_borrow: self.can_borrow,
            can_deposit: self.can_deposit,
            coins_lent: clone_lent(&self.coins_lent),
            coins_deposited: clone_deposits(&self.coins_deposited),
        }
    }
}

} // verus!
