//! The counter and its one operation.

use crate::host::persistent_entries;
use crate::host::persistent_get;
use crate::host::persistent_set;
use crate::host::storage_served;
use crate::host::symbol_char;
use crate::host::valid_symbol;
use soroban_sdk::Env;
use vstd::prelude::*;

verus! {

/// Why a call left the counter as it was.
#[derive(Debug, Clone, Copy, PartialEq, Eq, Structural)]
pub enum CounterError {
    /// The entry under the counter's key is not an unsigned 64-bit number.
    StorageTypeMismatch,
    /// The sum does not fit in 64 bits.
    ArithmeticOverflow,
}

/// The contract: it has no state of its own, the counter lives in storage.
pub struct IncrementContractBy;

/// The symbol under which the counter is stored.
pub open spec fn counter_key() -> Seq<char> {
    "COUNTER"@
}

/// What a read of the counter finds in `entries`: `None` when it was never
/// written, `Some(Some(n))` when it holds `n`, `Some(None)` when the entry is
/// no number.
pub open spec fn counter_slot(entries: Map<Seq<char>, Option<u64>>) -> Option<Option<u64>> {
    if entries.contains_key(counter_key()) {
        Some(entries[counter_key()])
    } else {
        None
    }
}

/// The result of adding `by` to a counter read as `slot`. A counter never
/// written counts as 0. The sum is never wrapped: one past `u64::MAX` is an
/// error.
pub open spec fn next_count(slot: Option<Option<u64>>, by: u64) -> Result<u64, CounterError> {
    match slot {
        Some(None) => Err(CounterError::StorageTypeMismatch),
        Some(Some(count)) => sum_in_range(count, by),
        None => sum_in_range(0, by),
    }
}

/// `count + by` where it fits in 64 bits.
pub open spec fn sum_in_range(count: u64, by: u64) -> Result<u64, CounterError> {
    if count + by <= u64::MAX {
        Ok((count + by) as u64)
    } else {
        Err(CounterError::ArithmeticOverflow)
    }
}

/// The storage after a call with `by` on `entries`: the new value under the
/// counter's key where the call succeeds, `entries` itself where it fails.
pub open spec fn entries_after(entries: Map<Seq<char>, Option<u64>>, by: u64) -> Map<
    Seq<char>,
    Option<u64>,
> {
    match next_count(counter_slot(entries), by) {
        Ok(count) => entries.insert(counter_key(), Some(count)),
        Err(_) => entries,
    }
}

/// The counter's key is a text that the host takes as a symbol.
pub proof fn lemma_counter_key_is_symbol()
    ensures
        valid_symbol(counter_key()),
{
    reveal_strlit("COUNTER");
    let key = counter_key();
    assert(key.len() == 7);
    assert forall|i: int| 0 <= i < key.len() implies symbol_char(#[trigger] key[i]) by {
        if i == 0 {
        } else if i == 1 {
        } else if i == 2 {
        } else if i == 3 {
        } else if i == 4 {
        } else if i == 5 {
        } else {
        }
    }
}

/// Adds `by` to a counter that was read as `slot`.
pub fn advance(slot: Option<Option<u64>>, by: u64) -> (result: Result<u64, CounterError>)
    ensures
        result == next_count(slot, by),
{
    let count: u64 = match slot {
        None => 0,
        Some(Some(count)) => count,
        Some(None) => {
            return Err(CounterError::StorageTypeMismatch);
        },
    };
    match count.checked_add(by) {
        Some(sum) => Ok(sum),
        None => Err(CounterError::ArithmeticOverflow),
    }
}

impl IncrementContractBy {
    /// Adds `by` to the counter of the contract running in `env`, stores the
    /// sum and returns it.
    ///
    /// A counter never written counts as 0. Where the stored entry is no
    /// number, or the sum does not fit in 64 bits, the call fails and writes
    /// nothing. No other entry is ever touched.
    pub fn increment(env: &mut Env, by: u64) -> (result: Result<u64, CounterError>)
        requires
            storage_served(*old(env)),
        ensures
            result == next_count(counter_slot(persistent_entries(*old(env))), by),
            persistent_entries(*final(env)) == entries_after(persistent_entries(*old(env)), by),
            !persistent_entries(*old(env)).contains_key(counter_key()) ==> result == Ok::<
                u64,
                CounterError,
            >(by),
            result is Err ==> persistent_entries(*final(env)) == persistent_entries(*old(env)),
            forall|key: Seq<char>|
                key != counter_key() ==> {
                    &&& persistent_entries(*final(env)).contains_key(key) == persistent_entries(
                        *old(env),
                    ).contains_key(key)
                    &&& persistent_entries(*final(env))[key] == persistent_entries(*old(env))[key]
                },
            storage_served(*final(env)),
    {
        proof {
            lemma_counter_key_is_symbol();
        }
        let slot = persistent_get(env, "COUNTER");
        match advance(slot, by) {
            Ok(count) => {
                persistent_set(env, "COUNTER", count);
                Ok(count)
            },
            Err(error) => Err(error),
        }
    }
}

} // verus!
