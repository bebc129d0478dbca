//! Read-only iteration over counters.

use vstd::prelude::*;

use crate::components::Counter;

verus! {

/// Sum of the values of `counters`.
pub open spec fn counter_total(counters: Seq<Counter>) -> int
    decreases counters.len(),
{
    if counters.len() == 0 {
        0
    } else {
        counter_total(counters.drop_last()) + counters.last().value
    }
}

/// The entities of the simple iteration workload: `count` counters at
/// zero, computed in full before any is handed out.
pub fn spawn_simple_iteration_entities(count: usize) -> (batch: Vec<Counter>)
    ensures
        batch@ == Seq::new(count as nat, |i: int| Counter { value: 0 }),
{
    let mut batch: Vec<Counter> = Vec::with_capacity(count);
    let mut i: usize = 0;
    while i < count
        invariant
            i <= count,
            batch@ == Seq::new(i as nat, |k: int| Counter { value: 0 }),
        decreases count - i,
    {
        batch.push(Counter { value: 0 });
        assert(batch@ =~= Seq::new((i + 1) as nat, |k: int| Counter { value: 0 }));
        i += 1;
    }
    batch
}

/// Visits every counter and adds up the values, wrapping around at
/// `u64::MAX`.
pub fn simple_iteration_system(counters: &Vec<Counter>) -> (sum: u64)
    ensures
        sum == counter_total(counters@) % 0x1_0000_0000_0000_0000,
{
    let mut sum: u64 = 0;
    let mut i: usize = 0;
    while i < counters.len()
        invariant
            i <= counters.len(),
            sum == counter_total(counters@.take(i as int)) % 0x1_0000_0000_0000_0000,
        decreases counters.len() - i,
    {
        assert(counters@.take(i + 1).drop_last() == counters@.take(i as int));
        let ghost before = counter_total(counters@.take(i as int));
        let value: u64 = counters[i].value;
        assert((before % 0x1_0000_0000_0000_0000 + value) % 0x1_0000_0000_0000_0000 == (before
            + value) % 0x1_0000_0000_0000_0000) by (nonlinear_arith);
        sum = sum.wrapping_add(value);
        i += 1;
    }
    assert(counters@.take(counters.len() as int) == counters@);
    sum
}

} // verus!
