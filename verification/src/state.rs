//! The records the ledger keeps.
//!
//! Each record is a plain value. Where a record has a rule that every operation
//! of the ledger keeps, the rule is its `well_formed` predicate.

use crate::identity::Identity;
use vstd::prelude::*;

verus! {

/// The largest number of entries a batch of rate assignments may hold.
pub const MAX_BATCH_ENTRIES: usize = 10;

/// The one record that describes the token and names who administers it.
#[derive(Clone, Debug, PartialEq, Eq)]
pub struct TokenInfo {
    pub name: String,
    pub symbol: String,
    pub decimals: u8,
    /// The only identity allowed to change rates or to mint directly.
    pub authority: Identity,
    /// Points asked for one unit of token, where no custom rate applies.
    pub default_conversion_rate: u64,
}

impl TokenInfo {
    /// The default rate is positive.
    pub open spec fn well_formed(&self) -> bool {
        self.default_conversion_rate > 0
    }
}

/// The points balance of one user.
#[derive(Clone, Copy, Debug, PartialEq, Eq)]
pub struct UserPoints {
    pub owner: Identity,
    pub amount: u64,
}

/// A conversion rate that replaces the default one for a single user.
#[derive(Clone, Copy, Debug, PartialEq, Eq)]
pub struct CustomConversionRate {
    pub user: Identity,
    pub conversion_rate: u64,
    pub is_initialized: bool,
}

impl CustomConversionRate {
    /// An initialized record holds a positive rate.
    pub open spec fn well_formed(&self) -> bool {
        self.is_initialized ==> self.conversion_rate > 0
    }

    /// The record applies to `user`: it is initialized and names that user.
    pub open spec fn applies_to(&self, user: Identity) -> bool {
        self.is_initialized && self.user == user
    }
}

impl Default for CustomConversionRate {
    /// The record as it is before any rate was set: no user, no rate, not
    /// initialized.
    fn default() -> (record: CustomConversionRate)
        ensures
            record.user@ == Seq::new(32, |i: int| 0u8),
            record.conversion_rate == 0,
            !record.is_initialized,
            record.well_formed(),
    {
        CustomConversionRate { user: Identity::default(), conversion_rate: 0, is_initialized: false }
    }
}

/// One entry of a batch: the rate meant for one user.
#[derive(Clone, Copy, Debug, PartialEq, Eq)]
pub struct UserRate {
    pub user: Identity,
    pub rate: u64,
}

/// Rate assignments submitted together and kept until they are applied.
#[derive(Clone, Debug, PartialEq, Eq)]
pub struct BatchConversionRates {
    /// Who submitted the batch.
    pub authority: Identity,
    /// The assignments, in the order in which they were submitted.
    pub user_rates: Vec<UserRate>,
}

/// What a batch registry holds, as a mathematical value.
pub struct BatchView {
    pub authority: Identity,
    pub user_rates: Seq<UserRate>,
}

impl View for BatchConversionRates {
    type V = BatchView;

    open spec fn view(&self) -> BatchView {
        BatchView { authority: self.authority, user_rates: self.user_rates@ }
    }
}

impl BatchView {
    /// There are at most `MAX_BATCH_ENTRIES` entries, each with a positive rate.
    pub open spec fn well_formed(&self) -> bool {
        &&& self.user_rates.len() <= MAX_BATCH_ENTRIES
        &&& forall|i: int|
            0 <= i < self.user_rates.len() ==> (#[trigger] self.user_rates[i]).rate > 0
    }
}

impl BatchConversionRates {
    /// The registry holds at most `MAX_BATCH_ENTRIES` entries, each with a
    /// positive rate.
    pub open spec fn well_formed(&self) -> bool {
        self@.well_formed()
    }
}

} // verus!
