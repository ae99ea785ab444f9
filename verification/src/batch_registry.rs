//! The batch registry: rate assignments that are submitted together, checked
//! together, and kept until each is applied to the record of its user.
//!
//! Submitting a batch changes no custom rate. A staged assignment takes effect
//! only when it is applied, one user at a time, by `apply_staged_rate`.

use crate::authorization::AuthorityCapability;
use crate::error::ErrorCode;
use crate::identity::Identity;
use crate::rate_store::{after_set_custom_rate, rate_check, set_custom_rate};
use crate::state::{BatchConversionRates, BatchView, CustomConversionRate, UserRate};
use vstd::prelude::*;

verus! {

/// Some entry of the batch has a rate of zero.
pub open spec fn has_zero_rate(entries: Seq<(Identity, u64)>) -> bool {
    exists|i: int| 0 <= i < entries.len() && (#[trigger] entries[i]).1 == 0
}

/// The entries as the registry keeps them: one for one and in the same order.
pub open spec fn staged_entries(entries: Seq<(Identity, u64)>) -> Seq<UserRate> {
    Seq::new(entries.len(), |i: int| UserRate { user: entries[i].0, rate: entries[i].1 })
}

/// The answer to the submission of a batch: too many entries are refused
/// first, then any rate of zero.
pub open spec fn submission_result(entries: Seq<(Identity, u64)>, max_len: usize) -> Result<
    (),
    ErrorCode,
> {
    if entries.len() > max_len {
        Err(ErrorCode::BatchTooLarge)
    } else if has_zero_rate(entries) {
        Err(ErrorCode::InvalidConversionRate)
    } else {
        Ok(())
    }
}

/// The registry after the submission of a batch: replaced as a whole where the
/// batch is accepted, otherwise as it was.
pub open spec fn after_submission(
    before: BatchView,
    authority: Identity,
    entries: Seq<(Identity, u64)>,
    max_len: usize,
) -> BatchView {
    if submission_result(entries, max_len) is Ok {
        BatchView { authority, user_rates: staged_entries(entries) }
    } else {
        before
    }
}

/// Entry `i` is the one that counts for `user`: it names the user, and no later
/// entry does.
pub open spec fn is_staged_for(rates: Seq<UserRate>, i: int, user: Identity) -> bool {
    &&& 0 <= i < rates.len()
    &&& rates[i].user == user
    &&& forall|j: int| i < j < rates.len() ==> (#[trigger] rates[j]).user != user
}

/// The rate that the registry holds for `user`: that of the last entry naming
/// the user, as if the entries had been applied in the order of submission.
pub open spec fn staged_rate(rates: Seq<UserRate>, user: Identity) -> Option<u64>
    decreases rates.len(),
{
    if rates.len() == 0 {
        None
    } else if rates.last().user == user {
        Some(rates.last().rate)
    } else {
        staged_rate(rates.drop_last(), user)
    }
}

/// The custom-rate record of `user` after the entries were applied one by one,
/// in the order of submission, each as `set_custom_rate` applies it.
pub open spec fn applied_in_order(
    rates: Seq<UserRate>,
    record: CustomConversionRate,
    user: Identity,
) -> CustomConversionRate
    decreases rates.len(),
{
    if rates.len() == 0 {
        record
    } else {
        let before = applied_in_order(rates.drop_last(), record, user);
        if rates.last().user == user {
            after_set_custom_rate(before, user, rates.last().rate)
        } else {
            before
        }
    }
}

/// `staged_rate` finds the last entry that names the user, and finds none only
/// where no entry names the user.
pub proof fn lemma_staged_rate(rates: Seq<UserRate>, user: Identity)
    ensures
        match staged_rate(rates, user) {
            Some(rate) => exists|i: int| #[trigger]
                is_staged_for(rates, i, user) && rates[i].rate == rate,
            None => forall|i: int| 0 <= i < rates.len() ==> (#[trigger] rates[i]).user != user,
        },
    decreases rates.len(),
{
    if rates.len() == 0 {
    } else if rates.last().user == user {
        assert(is_staged_for(rates, rates.len() - 1, user));
    } else {
        let front = rates.drop_last();
        lemma_staged_rate(front, user);
        match staged_rate(front, user) {
            Some(rate) => {
                let i = choose|i: int| #[trigger]
                    is_staged_for(front, i, user) && front[i].rate == rate;
                assert forall|j: int| i < j < rates.len() implies (#[trigger] rates[j]).user
                    != user by {
                    if j < front.len() {
                        assert(front[j].user != user);
                    }
                }
                assert(is_staged_for(rates, i, user));
            },
            None => {
                assert forall|i: int| 0 <= i < rates.len() implies (#[trigger] rates[i]).user
                    != user by {
                    if i < front.len() {
                        assert(front[i].user != user);
                    }
                }
            },
        }
    }
}

/// Replaces the registry by a new batch.
///
/// Fails with `BatchTooLarge` when there are more than `max_len` entries, and
/// with `InvalidConversionRate` when any entry has a rate of zero. Every entry
/// is checked before anything is written: on failure the registry is as it was.
/// On success it holds the entries, in their order, under the authority that
/// holds the capability, and nothing of what it held before.
pub fn submit_batch(
    registry: &mut BatchConversionRates,
    capability: AuthorityCapability,
    entries: Vec<(Identity, u64)>,
    max_len: usize,
) -> (r: Result<(), ErrorCode>)
    ensures
        r == submission_result(entries@, max_len),
        final(registry)@ == after_submission(
            old(registry)@,
            capability.holder(),
            entries@,
            max_len,
        ),
        r is Ok && max_len <= crate::state::MAX_BATCH_ENTRIES ==> final(registry).well_formed(),
        r is Err ==> *final(registry) == *old(registry),
{
    if entries.len() > max_len {
        return Err(ErrorCode::BatchTooLarge);
    }
    let mut user_rates: Vec<UserRate> = Vec::new();
    let mut i: usize = 0;
    while i < entries.len()
        invariant
            i <= entries.len(),
            entries.len() <= max_len,
            user_rates@.len() == i,
            forall|j: int| 0 <= j < i ==> (#[trigger] entries@[j]).1 != 0,
            forall|j: int|
                0 <= j < i ==> #[trigger] user_rates@[j] == (UserRate {
                    user: entries@[j].0,
                    rate: entries@[j].1,
                }),
        decreases entries.len() - i,
    {
        let (user, rate) = entries[i];
        if rate == 0 {
            proof {
                assert(entries@[i as int].1 == 0);
            }
            return Err(ErrorCode::InvalidConversionRate);
        }
        user_rates.push(UserRate { user, rate });
        i += 1;
    }
    proof {
        assert(user_rates@ =~= staged_entries(entries@));
    }
    registry.authority = capability.holder_identity();
    registry.user_rates = user_rates;
    Ok(())
}

/// Looks up the rate that the registry holds for `user`.
pub fn find_staged_rate(registry: &BatchConversionRates, user: &Identity) -> (r: Option<u64>)
    ensures
        r == staged_rate(registry.user_rates@, *user),
        r matches Some(rate) ==> exists|i: int| #[trigger]
            is_staged_for(registry.user_rates@, i, *user) && registry.user_rates@[i].rate == rate,
        r is None ==> forall|i: int|
            0 <= i < registry.user_rates@.len() ==> (#[trigger] registry.user_rates@[i]).user
                != *user,
{
    proof {
        lemma_staged_rate(registry.user_rates@, *user);
        assert(registry.user_rates@.take(registry.user_rates@.len() as int)
            =~= registry.user_rates@);
    }
    let mut i: usize = registry.user_rates.len();
    while i > 0
        invariant
            i <= registry.user_rates@.len(),
            staged_rate(registry.user_rates@, *user) == staged_rate(
                registry.user_rates@.take(i as int),
                *user,
            ),
        decreases i,
    {
        let entry = registry.user_rates[i - 1];
        proof {
            let prefix = registry.user_rates@.take(i as int);
            assert(prefix.last() == entry);
            assert(prefix.drop_last() =~= registry.user_rates@.take(i - 1));
        }
        if entry.user == *user {
            proof {
                lemma_staged_rate(registry.user_rates@, *user);
            }
            return Some(entry.rate);
        }
        i -= 1;
    }
    proof {
        assert(registry.user_rates@.take(0).len() == 0);
    }
    None
}

/// The answer to applying what the registry holds for `user`: whether a rate
/// was written, or why the staged rate was refused.
pub open spec fn application_result(rates: Seq<UserRate>, user: Identity) -> Result<
    bool,
    ErrorCode,
> {
    match staged_rate(rates, user) {
        None => Ok(false),
        Some(rate) => match rate_check(rate) {
            Ok(()) => Ok(true),
            Err(e) => Err(e),
        },
    }
}

/// The custom-rate record after what the registry holds for `user` was applied
/// to it.
pub open spec fn after_application(
    rates: Seq<UserRate>,
    record: CustomConversionRate,
    user: Identity,
) -> CustomConversionRate {
    match staged_rate(rates, user) {
        None => record,
        Some(rate) => after_set_custom_rate(record, user, rate),
    }
}

/// Applies to `record` the rate that the registry holds for `user`.
///
/// Where the registry names the user, the record is written as `set_custom_rate`
/// writes it, and the result is `true`. Where it does not, the record is as it
/// was and the result is `false`. A staged rate of zero, which a well-formed
/// registry never holds, is refused with `InvalidConversionRate`. The registry
/// itself is not changed: an entry may be applied again. The capability shows
/// that the guard was passed; it is used up whether or not a rate is written.
pub fn apply_staged_rate(
    registry: &BatchConversionRates,
    record: &mut CustomConversionRate,
    user: Identity,
    capability: AuthorityCapability,
) -> (r: Result<bool, ErrorCode>)
    ensures
        r == application_result(registry.user_rates@, user),
        *final(record) == after_application(registry.user_rates@, *old(record), user),
        r != Ok::<bool, ErrorCode>(true) ==> *final(record) == *old(record),
        r == Ok::<bool, ErrorCode>(true) ==> final(record).well_formed(),
        r == Ok::<bool, ErrorCode>(true) ==> final(record).applies_to(user),
        registry.well_formed() ==> r is Ok,
{
    proof {
        lemma_staged_rate(registry.user_rates@, user);
    }
    match find_staged_rate(registry, &user) {
        None => Ok(false),
        Some(rate) => match set_custom_rate(record, user, rate, capability) {
            Ok(()) => Ok(true),
            Err(e) => Err(e),
        },
    }
}

} // verus!
