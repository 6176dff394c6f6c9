//! Rules of the competitor comparison that do not depend on the observed
//! values. Scoring, ranking and gap sizing are numeric and done by the
//! service around this crate.

use vstd::prelude::*;

use crate::error::AppError;
use crate::models::Competitor;

verus! {

/// How many of the worst weighted deficits are reported as the headline answer.
pub const LARGEST_GAP_COUNT: usize = 3;

/// Finds our own offering, which is held in the same table as the
/// competitors so that one set of rules produces every comparison: the first
/// provider flagged `is_us == 1`. Without one no comparison can be built.
pub fn find_our_offering(competitors: &Vec<Competitor>) -> (found: Result<usize, AppError>)
    ensures
        match found {
            Ok(i) => i < competitors@.len() && competitors@[i as int].is_us == 1 && forall|j: int|
                0 <= j < i ==> #[trigger] competitors@[j].is_us != 1,
            Err(e) => (e matches AppError::Internal(m) && m@
                == "no competitor row is flagged as our own offering"@) && forall|j: int|
                0 <= j < competitors@.len() ==> #[trigger] competitors@[j].is_us != 1,
        },
{
    let mut i: usize = 0;
    while i < competitors.len()
        invariant
            i <= competitors@.len(),
            forall|j: int| 0 <= j < i ==> #[trigger] competitors@[j].is_us != 1,
        decreases competitors@.len() - i,
    {
        if competitors[i].is_us == 1 {
            return Ok(i);
        }
        i = i + 1;
    }
    Err(AppError::Internal(String::from_str("no competitor row is flagged as our own offering")))
}

/// Ranks given in standing order: the provider in position `i` ranks `i + 1`.
pub fn ranks_in_order(provider_count: usize) -> (ranks: Vec<i64>)
    requires
        provider_count < i64::MAX,
    ensures
        ranks@.len() == provider_count,
        forall|i: int| 0 <= i < provider_count ==> #[trigger] ranks@[i] == i + 1,
{
    let mut ranks: Vec<i64> = Vec::new();
    let mut i: usize = 0;
    while i < provider_count
        invariant
            i <= provider_count,
            provider_count < i64::MAX,
            ranks@.len() == i,
            forall|j: int| 0 <= j < i ==> #[trigger] ranks@[j] == j + 1,
        decreases provider_count - i,
    {
        ranks.push(i as i64 + 1);
        i = i + 1;
    }
    ranks
}

} // verus!
