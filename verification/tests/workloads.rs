use languagebench::workload::{Workload, WORKLOAD_COUNT};

#[test]
fn the_suite_runs_in_its_fixed_order() {
    assert_eq!(
        Workload::all(),
        vec![
            Workload::IntegerAdd,
            Workload::DoubleArith,
            Workload::StringConcat,
            Workload::ArrayPush,
            Workload::StructAccess,
        ]
    );
    assert_eq!(Workload::all().len(), WORKLOAD_COUNT);
}

#[test]
fn the_labels_follow_the_suite_order() {
    let labels: Vec<&str> = Workload::all().into_iter().map(|w| w.label()).collect();
    assert_eq!(
        labels,
        vec!["Integer Add", "Double Arithmetic", "String Concat", "Array Push", "Struct Access"]
    );
}

#[test]
fn each_workload_stands_at_its_index() {
    let suite = Workload::all();
    for (position, workload) in suite.iter().enumerate() {
        assert_eq!(workload.index(), position);
    }
    assert_eq!(Workload::StructAccess.index(), 4);
}

#[test]
fn the_iteration_counts_are_fixed() {
    assert_eq!(Workload::IntegerAdd.iterations(), 1_000_000_000);
    assert_eq!(Workload::DoubleArith.iterations(), 100_000_000);
    assert_eq!(Workload::StringConcat.iterations(), 50_000);
    assert_eq!(Workload::ArrayPush.iterations(), 1_000_000);
    assert_eq!(Workload::StructAccess.iterations(), 50_000_000);
}

#[test]
fn no_two_labels_are_equal() {
    let suite = Workload::all();
    for a in suite.iter() {
        for b in suite.iter() {
            assert_eq!(a == b, a.label() == b.label());
        }
    }
}
