use languagebench::measure::{rounded_quotient, Measurement, Throughput, RATE_SCALE, TIME_UNIT};
use languagebench::workload::Workload;

#[test]
fn rounded_quotient_rounds_to_the_nearest() {
    assert_eq!(rounded_quotient(1, 3), Some(0));
    assert_eq!(rounded_quotient(2, 3), Some(1));
    assert_eq!(rounded_quotient(0, 5), Some(0));
    assert_eq!(rounded_quotient(12, 4), Some(3));
}

#[test]
fn rounded_quotient_rounds_halves_up() {
    assert_eq!(rounded_quotient(5, 2), Some(3));
    assert_eq!(rounded_quotient(7, 2), Some(4));
    assert_eq!(rounded_quotient(1, 2), Some(1));
}

#[test]
fn rounded_quotient_by_zero_is_nothing() {
    assert_eq!(rounded_quotient(5, 0), None);
    assert_eq!(rounded_quotient(0, 0), None);
}

#[test]
fn rounded_quotient_at_the_upper_end() {
    assert_eq!(rounded_quotient(u128::MAX, 1), Some(u128::MAX));
    assert_eq!(
        rounded_quotient(u128::MAX, 2),
        Some(170_141_183_460_469_231_731_687_303_715_884_105_728)
    );
    assert_eq!(rounded_quotient(u128::MAX, u128::MAX), Some(1));
    assert_eq!(rounded_quotient(u128::MAX - 1, u128::MAX), Some(1));
}

#[test]
fn the_scales_are_powers_of_ten() {
    assert_eq!(RATE_SCALE, 1_000_000_000 * 100);
    assert_eq!(TIME_UNIT * 10_000, 1_000_000_000);
}

#[test]
fn new_keeps_its_arguments() {
    let m = Measurement::new(Workload::ArrayPush, 1_000_000, 4_000_000);
    assert_eq!(m.workload, Workload::ArrayPush);
    assert_eq!(m.operations, 1_000_000);
    assert_eq!(m.nanos, 4_000_000);
}

#[test]
fn throughput_is_operations_per_second_in_hundredths() {
    let m = Measurement::new(Workload::ArrayPush, 1_000_000, 4_000_000);
    assert_eq!(m.throughput(), Throughput::Finite { hundredths: 25_000_000_000 });
    let n = Measurement::new(Workload::IntegerAdd, 1_000_000_000, 312_345_678);
    assert_eq!(n.throughput(), Throughput::Finite { hundredths: 320_158_103_804 });
}

#[test]
fn throughput_agrees_with_floating_point_division() {
    let m = Measurement::new(Workload::IntegerAdd, 1_000_000_000, 312_345_678);
    let ops: f64 = 1_000_000_000f64 / 0.312345678f64;
    match m.throughput() {
        Throughput::Finite { hundredths } => {
            assert_eq!(format!("{:.2}", ops), format!("{}.{:02}", hundredths / 100, hundredths % 100));
        }
        other => panic!("no finite throughput: {:?}", other),
    }
}

#[test]
fn throughput_of_a_slow_run_rounds_to_zero() {
    let m = Measurement::new(Workload::IntegerAdd, 1, 300_000_000_000);
    assert_eq!(m.throughput(), Throughput::Finite { hundredths: 0 });
    let edge = Measurement::new(Workload::IntegerAdd, 1, 200_000_000_000);
    assert_eq!(edge.throughput(), Throughput::Finite { hundredths: 1 });
    let below = Measurement::new(Workload::IntegerAdd, 1, 200_000_000_001);
    assert_eq!(below.throughput(), Throughput::Finite { hundredths: 0 });
}

#[test]
fn throughput_of_the_largest_count() {
    let m = Measurement::new(Workload::IntegerAdd, u64::MAX, 1);
    assert_eq!(
        m.throughput(),
        Throughput::Finite { hundredths: 1_844_674_407_370_955_161_500_000_000_000 }
    );
}

#[test]
fn throughput_without_elapsed_time_is_not_finite() {
    let some = Measurement::new(Workload::ArrayPush, 1_000_000, 0);
    assert_eq!(some.throughput(), Throughput::Infinite);
    let none = Measurement::new(Workload::ArrayPush, 0, 0);
    assert_eq!(none.throughput(), Throughput::Undefined);
}

#[test]
fn throughput_of_no_operations_is_zero() {
    let m = Measurement::new(Workload::ArrayPush, 0, 17);
    assert_eq!(m.throughput(), Throughput::Finite { hundredths: 0 });
}

#[test]
fn elapsed_is_in_ten_thousandths_of_a_second() {
    assert_eq!(Measurement::new(Workload::ArrayPush, 1, 4_000_000).elapsed(), 40);
    assert_eq!(Measurement::new(Workload::ArrayPush, 1, 312_345_678).elapsed(), 3_123);
    assert_eq!(Measurement::new(Workload::ArrayPush, 1, 0).elapsed(), 0);
}

#[test]
fn elapsed_rounds_halves_up() {
    assert_eq!(Measurement::new(Workload::ArrayPush, 1, 49_999).elapsed(), 0);
    assert_eq!(Measurement::new(Workload::ArrayPush, 1, 50_000).elapsed(), 1);
    assert_eq!(Measurement::new(Workload::ArrayPush, 1, 149_999).elapsed(), 1);
    assert_eq!(Measurement::new(Workload::ArrayPush, 1, 150_000).elapsed(), 2);
}
