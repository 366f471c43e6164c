//! What holds of one call and of runs of calls, stated over the model that
//! the contract of `IncrementContractBy::increment` uses.

use crate::counter::counter_key;
use crate::counter::counter_slot;
use crate::counter::entries_after;
use crate::counter::next_count;
use crate::counter::CounterError;
use vstd::prelude::*;

verus! {

/// The number the counter stands at in `entries`: 0 while it was never
/// written. Meaningful only where `readable(entries)`.
pub open spec fn counter_value(entries: Map<Seq<char>, Option<u64>>) -> u64 {
    match counter_slot(entries) {
        Some(Some(count)) => count,
        _ => 0,
    }
}

/// The counter's entry is absent or a number.
pub open spec fn readable(entries: Map<Seq<char>, Option<u64>>) -> bool {
    counter_slot(entries) != Some(None::<u64>)
}

/// The storage after one call for each of `amounts`, in order, starting from
/// `entries`.
pub open spec fn entries_after_all(
    entries: Map<Seq<char>, Option<u64>>,
    amounts: Seq<u64>,
) -> Map<Seq<char>, Option<u64>>
    decreases amounts.len(),
{
    if amounts.len() == 0 {
        entries
    } else {
        entries_after(entries_after_all(entries, amounts.drop_last()), amounts.last())
    }
}

/// The sum of `amounts`, unbounded.
pub open spec fn total(amounts: Seq<u64>) -> int
    decreases amounts.len(),
{
    if amounts.len() == 0 {
        0
    } else {
        total(amounts.drop_last()) + amounts.last()
    }
}

/// A call on a counter that was never written returns the amount itself.
pub proof fn lemma_fresh_counter_returns_amount(entries: Map<Seq<char>, Option<u64>>, by: u64)
    requires
        !entries.contains_key(counter_key()),
    ensures
        next_count(counter_slot(entries), by) == Ok::<u64, CounterError>(by),
        counter_value(entries_after(entries, by)) == by,
{
}

/// After a run of calls whose amounts sum, with the counter's starting value,
/// to no more than `u64::MAX`, the counter stands at that sum.
pub proof fn lemma_run_reaches_total(entries: Map<Seq<char>, Option<u64>>, amounts: Seq<u64>)
    requires
        readable(entries),
        counter_value(entries) + total(amounts) <= u64::MAX,
    ensures
        readable(entries_after_all(entries, amounts)),
        counter_value(entries_after_all(entries, amounts)) == counter_value(entries) + total(
            amounts,
        ),
    decreases amounts.len(),
{
    if amounts.len() > 0 {
        lemma_total_not_negative(amounts.drop_last());
        lemma_run_reaches_total(entries, amounts.drop_last());
    }
}

/// A sum of amounts is never negative.
pub proof fn lemma_total_not_negative(amounts: Seq<u64>)
    ensures
        0 <= total(amounts),
    decreases amounts.len(),
{
    if amounts.len() > 0 {
        lemma_total_not_negative(amounts.drop_last());
    }
}

/// Accumulation: in a run of calls on a readable counter, the call with
/// `amounts[k]` returns the counter's starting value plus the sum of the
/// amounts up to and including that one, as long as this sum fits in 64 bits.
pub proof fn lemma_kth_call_returns_prefix_sum(
    entries: Map<Seq<char>, Option<u64>>,
    amounts: Seq<u64>,
    k: int,
)
    requires
        readable(entries),
        0 <= k < amounts.len(),
        counter_value(entries) + total(amounts.take(k + 1)) <= u64::MAX,
    ensures
        next_count(counter_slot(entries_after_all(entries, amounts.take(k))), amounts[k]) == Ok::<
            u64,
            CounterError,
        >((counter_value(entries) + total(amounts.take(k + 1))) as u64),
{
    let upto = amounts.take(k + 1);
    assert(upto.drop_last() =~= amounts.take(k));
    assert(upto.last() == amounts[k]);
    lemma_total_not_negative(amounts.take(k));
    lemma_run_reaches_total(entries, amounts.take(k));
}

/// The first call of a run whose sum would pass `u64::MAX` fails with
/// `ArithmeticOverflow`.
pub proof fn lemma_kth_call_overflows(
    entries: Map<Seq<char>, Option<u64>>,
    amounts: Seq<u64>,
    k: int,
)
    requires
        readable(entries),
        0 <= k < amounts.len(),
        counter_value(entries) + total(amounts.take(k)) <= u64::MAX,
        counter_value(entries) + total(amounts.take(k + 1)) > u64::MAX,
    ensures
        next_count(counter_slot(entries_after_all(entries, amounts.take(k))), amounts[k]) == Err::<
            u64,
            CounterError,
        >(CounterError::ArithmeticOverflow),
{
    let upto = amounts.take(k + 1);
    assert(upto.drop_last() =~= amounts.take(k));
    assert(upto.last() == amounts[k]);
    lemma_run_reaches_total(entries, amounts.take(k));
}

/// Persistence: after a call that returned `value`, a call with 0 returns
/// `value` again and leaves the storage as it is.
pub proof fn lemma_zero_reads_back(entries: Map<Seq<char>, Option<u64>>, by: u64, value: u64)
    requires
        next_count(counter_slot(entries), by) == Ok::<u64, CounterError>(value),
    ensures
        next_count(counter_slot(entries_after(entries, by)), 0) == Ok::<u64, CounterError>(value),
        entries_after(entries_after(entries, by), 0) == entries_after(entries, by),
{
    let stored = entries_after(entries, by);
    assert(entries_after(stored, 0) =~= stored);
}

/// Isolation: a call, whatever its outcome, leaves every key but the
/// counter's as it was, present or absent, with the value it had.
pub proof fn lemma_other_keys_untouched(
    entries: Map<Seq<char>, Option<u64>>,
    by: u64,
    key: Seq<char>,
)
    requires
        key != counter_key(),
    ensures
        entries_after(entries, by).contains_key(key) == entries.contains_key(key),
        entries_after(entries, by)[key] == entries[key],
{
}

/// Atomicity: a call that fails leaves the storage as it was, and a call
/// fails only on an entry that is no number or on a sum past `u64::MAX`.
pub proof fn lemma_failure_writes_nothing(entries: Map<Seq<char>, Option<u64>>, by: u64)
    requires
        next_count(counter_slot(entries), by) is Err,
    ensures
        entries_after(entries, by) == entries,
        !readable(entries) || counter_value(entries) + by > u64::MAX,
{
}

/// A call succeeds exactly when the counter is readable and the sum fits.
pub proof fn lemma_success_condition(entries: Map<Seq<char>, Option<u64>>, by: u64)
    ensures
        next_count(counter_slot(entries), by) is Ok <==> readable(entries) && counter_value(
            entries,
        ) + by <= u64::MAX,
{
}

} // verus!
