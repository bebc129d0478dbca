//! Mutation of counters.

use vstd::prelude::*;

use crate::components::Counter;

verus! {

/// The entities of the counter workload: `count` counters at zero.
pub fn spawn_counter_entities(count: usize) -> (batch: Vec<Counter>)
    ensures
        batch@ == Seq::new(count as nat, |i: int| Counter { value: 0 }),
{
    crate::benchmark::workloads::iteration::spawn_simple_iteration_entities(count)
}

/// Counts one visit on every counter.
pub fn counter_increment_system(counters: &mut Vec<Counter>)
    ensures
        final(counters)@.len() == old(counters)@.len(),
        forall|i: int|
            0 <= i < old(counters)@.len() ==> final(counters)@[i] == (#[trigger] old(
                counters,
            )@[i]).incremented(),
{
    let n: usize = counters.len();
    let mut i: usize = 0;
    while i < n
        invariant
            i <= n,
            counters@.len() == n,
            n == old(counters)@.len(),
            forall|k: int| 0 <= k < i ==> counters@[k] == (#[trigger] old(counters)@[k]).incremented(),
            forall|k: int| i <= k < n ==> counters@[k] == #[trigger] old(counters)@[k],
        decreases n - i,
    {
        let mut counter: Counter = counters[i];
        counter.increment();
        counters.set(i, counter);
        i += 1;
    }
}

} // verus!
