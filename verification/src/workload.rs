//! The five workloads of the suite, their order, labels and iteration counts.

use vstd::prelude::*;

verus! {

/// One of the five workloads. The declaration order is the order in which
/// the suite runs and reports them.
#[derive(Clone, Copy, Debug, PartialEq, Eq, Structural)]
pub enum Workload {
    /// Increment an integer counter.
    IntegerAdd,
    /// Add a constant to a floating-point accumulator.
    DoubleArith,
    /// Append one character to a growable string.
    StringConcat,
    /// Append the loop index to a growable list.
    ArrayPush,
    /// Write the loop index into a record's field and read it back.
    StructAccess,
}

/// Number of workloads in the suite.
pub const WORKLOAD_COUNT: usize = 5;

impl Workload {
    /// Position of the workload in the suite, from zero.
    pub open spec fn spec_index(self) -> nat {
        match self {
            Workload::IntegerAdd => 0,
            Workload::DoubleArith => 1,
            Workload::StringConcat => 2,
            Workload::ArrayPush => 3,
            Workload::StructAccess => 4,
        }
    }

    /// The suite in running order.
    pub open spec fn spec_all() -> Seq<Workload> {
        seq![
            Workload::IntegerAdd,
            Workload::DoubleArith,
            Workload::StringConcat,
            Workload::ArrayPush,
            Workload::StructAccess,
        ]
    }

    /// How many times the workload performs its elementary operation.
    pub open spec fn spec_iterations(self) -> nat {
        match self {
            Workload::IntegerAdd => 1_000_000_000,
            Workload::DoubleArith => 100_000_000,
            Workload::StringConcat => 50_000,
            Workload::ArrayPush => 1_000_000,
            Workload::StructAccess => 50_000_000,
        }
    }

    /// The name under which the workload appears in the report.
    pub open spec fn spec_label(self) -> Seq<char> {
        match self {
            Workload::IntegerAdd => "Integer Add"@,
            Workload::DoubleArith => "Double Arithmetic"@,
            Workload::StringConcat => "String Concat"@,
            Workload::ArrayPush => "Array Push"@,
            Workload::StructAccess => "Struct Access"@,
        }
    }

    /// Position of the workload in the suite, from zero.
    pub fn index(self) -> (i: usize)
        ensures
            i == self.spec_index(),
            i < WORKLOAD_COUNT,
    {
        match self {
            Workload::IntegerAdd => 0,
            Workload::DoubleArith => 1,
            Workload::StringConcat => 2,
            Workload::ArrayPush => 3,
            Workload::StructAccess => 4,
        }
    }

    /// The suite in running order.
    pub fn all() -> (suite: Vec<Workload>)
        ensures
            suite@ == Workload::spec_all(),
    {
        let mut suite: Vec<Workload> = Vec::new();
        suite.push(Workload::IntegerAdd);
        suite.push(Workload::DoubleArith);
        suite.push(Workload::StringConcat);
        suite.push(Workload::ArrayPush);
        suite.push(Workload::StructAccess);
        suite
    }

    /// How many times the workload performs its elementary operation.
    pub fn iterations(self) -> (n: i64)
        ensures
            n == self.spec_iterations(),
    {
        match self {
            Workload::IntegerAdd => 1_000_000_000,
            Workload::DoubleArith => 100_000_000,
            Workload::StringConcat => 50_000,
            Workload::ArrayPush => 1_000_000,
            Workload::StructAccess => 50_000_000,
        }
    }

    /// The name under which the workload appears in the report.
    pub fn label(self) -> (name: &'static str)
        ensures
            name@ == self.spec_label(),
    {
        match self {
            Workload::IntegerAdd => "Integer Add",
            Workload::DoubleArith => "Double Arithmetic",
            Workload::StringConcat => "String Concat",
            Workload::ArrayPush => "Array Push",
            Workload::StructAccess => "Struct Access",
        }
    }
}

/// The suite's order is fixed and complete: it holds as many workloads as
/// there are, and each workload stands at the position that is its index,
/// so each stands in it exactly once.
pub proof fn lemma_suite_order(w: Workload)
    ensures
        Workload::spec_all().len() == WORKLOAD_COUNT,
        w.spec_index() < WORKLOAD_COUNT,
        Workload::spec_all()[w.spec_index() as int] == w,
        forall|i: int|
            0 <= i < WORKLOAD_COUNT && #[trigger] Workload::spec_all()[i] == w ==> i
                == w.spec_index(),
{
}

/// No two workloads share a label.
pub proof fn lemma_labels_distinct(a: Workload, b: Workload)
    requires
        a != b,
    ensures
        a.spec_label() != b.spec_label(),
{
    reveal_strlit("Integer Add");
    reveal_strlit("Double Arithmetic");
    reveal_strlit("String Concat");
    reveal_strlit("Array Push");
    reveal_strlit("Struct Access");
    if a.spec_label().len() == b.spec_label().len() {
        assert(a.spec_label()[3] != b.spec_label()[3]);
    }
}

} // verus!
