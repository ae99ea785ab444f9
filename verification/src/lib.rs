//! A ledger that converts points into tokens.
//!
//! Every user has a balance of points. Points convert into tokens at a rate: the
//! default rate of the token, or a custom rate that the authority has set for
//! the user. The authority may change the default rate, set custom rates one by
//! one, or stage them in a batch and apply them later.
//!
//! The ledger computes and checks; it neither stores records nor mints tokens.
//! Its callers hand it the records an operation works on, write back what it
//! changed, and ask the mint capability for the tokens it cleared.

pub mod authorization;
pub mod batch_registry;
pub mod conversion;
pub mod error;
pub mod identity;
pub mod laws;
pub mod operations;
pub mod points_ledger;
pub mod rate_store;
pub mod state;

pub use crate::authorization::AuthorityCapability;
pub use crate::error::ErrorCode;
pub use crate::identity::Identity;
pub use crate::operations::{
    apply_batch_rate, batch_set_custom_rates, convert_points, initialize, mint_token,
    set_custom_conversion_rate, update_default_conversion_rate, ApplyBatchRate,
    BatchSetCustomRates, ConvertPoints, Initialize, MintToken, SetCustomRate, UpdateDefaultRate,
};
pub use crate::state::{
    BatchConversionRates, CustomConversionRate, TokenInfo, UserPoints, UserRate,
    MAX_BATCH_ENTRIES,
};
