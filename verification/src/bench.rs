//! The timed workloads: each starts a stopwatch, runs its loop for the
//! workload's fixed number of iterations and reads the stopwatch.

use crate::clock::Stopwatch;
use crate::kernel::{array_push, integer_add, string_concat, struct_access, Obj, Run};
use crate::measure::Measurement;
use crate::workload::Workload;
use vstd::prelude::*;

verus! {

/// Times the integer workload. Whatever the clock says, the measurement is
/// one of the full number of increments.
pub fn bench_int() -> (m: Measurement)
    ensures
        m.workload == Workload::IntegerAdd,
        m.operations == Workload::IntegerAdd.spec_iterations(),
{
    let limit: i64 = Workload::IntegerAdd.iterations();
    let watch: Stopwatch = Stopwatch::start();
    let run: Run<i64> = integer_add(limit);
    let nanos: u128 = watch.elapsed_nanos();
    Measurement::new(Workload::IntegerAdd, run.operations as u64, nanos)
}

/// Times the string workload. Whatever the clock says, the measurement is
/// one of the full number of appended characters.
pub fn bench_string() -> (m: Measurement)
    ensures
        m.workload == Workload::StringConcat,
        m.operations == Workload::StringConcat.spec_iterations(),
{
    let limit: i64 = Workload::StringConcat.iterations();
    let watch: Stopwatch = Stopwatch::start();
    let run: Run<String> = string_concat(limit);
    let nanos: u128 = watch.elapsed_nanos();
    std::hint::black_box(&run.accumulator);
    Measurement::new(Workload::StringConcat, run.operations as u64, nanos)
}

/// Times the list workload. Whatever the clock says, the measurement is one
/// of the full number of appended elements.
pub fn bench_array() -> (m: Measurement)
    ensures
        m.workload == Workload::ArrayPush,
        m.operations == Workload::ArrayPush.spec_iterations(),
{
    let limit: i64 = Workload::ArrayPush.iterations();
    let watch: Stopwatch = Stopwatch::start();
    let run: Run<Vec<i64>> = array_push(limit);
    let nanos: u128 = watch.elapsed_nanos();
    std::hint::black_box(&run.accumulator);
    Measurement::new(Workload::ArrayPush, run.operations as u64, nanos)
}

/// Times the record workload. Whatever the clock says, the measurement is
/// one of the full number of field writes.
pub fn bench_struct() -> (m: Measurement)
    ensures
        m.workload == Workload::StructAccess,
        m.operations == Workload::StructAccess.spec_iterations(),
{
    let limit: i64 = Workload::StructAccess.iterations();
    let watch: Stopwatch = Stopwatch::start();
    let run: Run<Obj> = struct_access(limit);
    let nanos: u128 = watch.elapsed_nanos();
    Measurement::new(Workload::StructAccess, run.operations as u64, nanos)
}

} // verus!
