use languagebench::bench::{bench_array, bench_int, bench_string, bench_struct};
use languagebench::clock::Stopwatch;
use languagebench::measure::Throughput;
use languagebench::report::result_line;
use languagebench::workload::Workload;

#[test]
fn bench_int_performs_its_full_count() {
    let m = bench_int();
    assert_eq!(m.workload, Workload::IntegerAdd);
    assert_eq!(m.operations, 1_000_000_000);
}

#[test]
fn bench_string_performs_its_full_count() {
    let m = bench_string();
    assert_eq!(m.workload, Workload::StringConcat);
    assert_eq!(m.operations, 50_000);
}

#[test]
fn bench_array_performs_its_full_count() {
    let m = bench_array();
    assert_eq!(m.workload, Workload::ArrayPush);
    assert_eq!(m.operations, 1_000_000);
}

#[test]
fn bench_struct_performs_its_full_count() {
    let m = bench_struct();
    assert_eq!(m.workload, Workload::StructAccess);
    assert_eq!(m.operations, 50_000_000);
}

#[test]
fn bench_array_takes_time_and_has_a_finite_throughput() {
    let m = bench_array();
    assert!(m.nanos > 0);
    assert!(matches!(m.throughput(), Throughput::Finite { hundredths } if hundredths > 0));
    assert!(result_line(&m).starts_with("  Array Push      | "));
    assert!(result_line(&m).ends_with("s"));
}

#[test]
fn benches_repeat_with_the_same_counts() {
    let first = bench_string();
    let second = bench_string();
    assert_eq!(first.workload, second.workload);
    assert_eq!(first.operations, second.operations);
}

#[test]
fn stopwatch_never_runs_backwards() {
    let watch = Stopwatch::start();
    let early = watch.elapsed_nanos();
    let late = watch.elapsed_nanos();
    assert!(early <= late);
}
