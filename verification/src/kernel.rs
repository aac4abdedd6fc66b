//! The loops that the suite times. Each one creates its accumulator, performs
//! its elementary operation a given number of times and hands back the
//! accumulator together with the number of operations performed.

use vstd::prelude::*;

verus! {

/// A record with a single integer field.
#[derive(Clone, Copy, Debug, PartialEq, Eq, Structural)]
pub struct Obj {
    pub val: i64,
}

/// What a loop leaves behind.
pub struct Run<A> {
    /// How many times the elementary operation was performed.
    pub operations: i64,
    /// The accumulator after the last operation.
    pub accumulator: A,
}

/// The character that the string workload appends.
pub const FILL: char = 'a';

/// Number of operations that a loop with the given limit performs: the
/// limit itself, or none where the limit is not positive.
pub open spec fn operations_for(limit: int) -> nat {
    if limit > 0 {
        limit as nat
    } else {
        0
    }
}

/// The string workload's accumulator after `count` operations.
pub open spec fn filled(count: nat) -> Seq<char> {
    Seq::new(count, |i: int| FILL)
}

/// The list workload's accumulator after `count` operations: the loop
/// indices in ascending order.
pub open spec fn ascending(count: nat) -> Seq<i64> {
    Seq::new(count, |i: int| i as i64)
}

/// The record workload's field after `count` operations: the last index
/// written, or the initial zero where nothing was written.
pub open spec fn last_written(count: nat) -> int {
    if count > 0 {
        count - 1
    } else {
        0
    }
}

/// Counts from zero up to `limit` in steps of one, passing every value of
/// the counter through the sink.
pub fn integer_add(limit: i64) -> (run: Run<i64>)
    ensures
        run.operations == operations_for(limit as int),
        run.accumulator == run.operations,
{
    let mut i: i64 = 0;
    while i < limit
        invariant
            0 <= i,
            i <= limit || i == 0,
        decreases limit - i,
    {
        std::hint::black_box(i);
        i += 1;
    }
    Run { operations: i, accumulator: i }
}

/// Appends `limit` characters, one at a time, to an empty string.
pub fn string_concat(limit: i64) -> (run: Run<String>)
    ensures
        run.operations == operations_for(limit as int),
        run.accumulator@ == filled(run.operations as nat),
{
    let mut s: String = String::new();
    let mut i: i64 = 0;
    while i < limit
        invariant
            0 <= i,
            i <= limit || i == 0,
            s@ == filled(i as nat),
        decreases limit - i,
    {
        s.push(FILL);
        i += 1;
    }
    Run { operations: i, accumulator: s }
}

/// Appends the loop indices `0, 1, .., limit - 1`, one at a time, to an
/// empty list.
pub fn array_push(limit: i64) -> (run: Run<Vec<i64>>)
    ensures
        run.operations == operations_for(limit as int),
        run.accumulator@ == ascending(run.operations as nat),
{
    let mut arr: Vec<i64> = Vec::new();
    let mut k: i64 = 0;
    while k < limit
        invariant
            0 <= k,
            k <= limit || k == 0,
            arr@ == ascending(k as nat),
        decreases limit - k,
    {
        arr.push(k);
        k += 1;
    }
    Run { operations: k, accumulator: arr }
}

/// Writes each loop index `0, 1, .., limit - 1` into the field of a record
/// that starts at zero, reading the field back through the sink after every
/// write.
pub fn struct_access(limit: i64) -> (run: Run<Obj>)
    ensures
        run.operations == operations_for(limit as int),
        run.accumulator.val == last_written(run.operations as nat),
{
    let mut o: Obj = Obj { val: 0 };
    let mut i: i64 = 0;
    while i < limit
        invariant
            0 <= i,
            i <= limit || i == 0,
            o.val == last_written(i as nat),
        decreases limit - i,
    {
        o.val = i;
        let x: i64 = o.val;
        std::hint::black_box(x);
        i += 1;
    }
    Run { operations: i, accumulator: o }
}

} // verus!
