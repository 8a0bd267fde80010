use vstd::prelude::*;
use crate::state::{
    AcceptedCollateral, AcceptedCollateralView, AdminProfile, AdminProfileView, Loan, LoanView, UserProfile,
    UserProfileView,
};
use crate::store::Table;

verus! {

/// What the host tells a call about the ledger that serves it.
#[derive(Debug, PartialEq, Eq)]
pub struct Env {
    /// The identity under which the ledger holds tokens in custody.
    pub contract_address: String,
}

/// What the host tells a call about its caller.
#[derive(Debug, PartialEq, Eq)]
pub struct MessageInfo {
    /// The authenticated identity of the caller.
    pub sender: String,
}

/// A choice among the places in which a call finds and leaves records:
/// the admin profile's one slot, and the three records stored under the
/// caller's identity.
#[derive(Clone, Copy, Debug, PartialEq, Eq, Structural)]
pub struct Slots {
    pub admin_profile: bool,
    pub user_profile: bool,
    pub loan: bool,
    pub accepted_collateral: bool,
}

/// Everything the ledger stores: the admin profile in its one slot, and
/// the user profiles, loans and accepted collateral, each under an identity.
pub struct Ledger {
    pub admin_profile: Option<AdminProfile>,
    pub user_profile: Table<UserProfile>,
    pub loan: Table<Loan>,
    pub accepted_collateral: Table<AcceptedCollateral>,
}

/// The state of a ledger, as plain values.
pub struct LedgerView {
    pub admin_profile: Option<AdminProfileView>,
    pub user_profile: Map<Seq<char>, UserProfileView>,
    pub loan: Map<Seq<char>, LoanView>,
    pub accepted_collateral: Map<Seq<char>, AcceptedCollateralView>,
}

impl View for Ledger {
    type V = LedgerView;

    open spec fn view(&self) -> LedgerView {
        LedgerView {
            admin_profile: match self.admin_profile {
                Some(admin) => Some(admin@),
                None => None,
            },
            user_profile: self.user_profile@,
            loan: self.loan@,
            accepted_collateral: self.accepted_collateral@,
        }
    }
}

impl LedgerView {
    /// Whether counting one more loan for `sender` stays within the
    /// counters' range.
    pub open spec fn can_count_loan(self, sender: Seq<char>) -> bool {
        self.user_profile.contains_key(sender) ==> self.user_profile[sender].loan_count < u64::MAX
            && self.user_profile[sender].last_loan < u64::MAX
    }

    /// The state in which nothing is stored.
    pub open spec fn empty() -> LedgerView {
        LedgerView {
            admin_profile: None,
            user_profile: Map::empty(),
            loan: Map::empty(),
            accepted_collateral: Map::empty(),
        }
    }
}

impl Ledger {
    /// A ledger in which nothing is stored.
    pub fn new() -> (r: Ledger)
        ensures
            r@ == LedgerView::empty(),
    {
        Ledger {
            admin_profile: None,
            user_profile: Table::new(),
            loan: Table::new(),
            accepted_collateral: Table::new(),
        }
    }

    /// Whether one more loan can be counted for `sender`: whether the
    /// counters on the profile stored for `sender`, if one is stored, are
    /// below the largest value they can take.
    pub fn can_count_loan(&self, sender: &String) -> (r: bool)
        ensures
            r == self@.can_count_loan(sender@),
    {
        match self.user_profile.get(sender) {
            Some(profile) => profile.loan_count < u64::MAX && profile.last_loan < u64::MAX,
            None => true,
        }
    }
}

} // verus!
