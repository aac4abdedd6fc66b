//! The plain-text report: a title, a table head, one row per measurement
//! and a closing rule followed by an empty line.

use crate::decimal::{fixed_point, is_fixed_point, lemma_fixed_point_shape, push_fixed_point};
use crate::measure::{rate_hundredths, time_ten_thousandths, Measurement, Throughput};
use crate::workload::{Workload, WORKLOAD_COUNT};
use vstd::prelude::*;
use vstd::string::{StrSliceExecFns, StringExecFns};

verus! {

/// Width to which a label is filled with spaces on its right.
pub const LABEL_WIDTH: usize = 15;

/// Width to which a throughput is filled with spaces on its left.
pub const RATE_WIDTH: usize = 15;

/// Digits behind the point of a throughput.
pub const RATE_PLACES: u8 = 2;

/// Digits behind the point of an elapsed time.
pub const TIME_PLACES: u8 = 4;

/// A run of `count` spaces.
pub open spec fn spaces(count: nat) -> Seq<char> {
    Seq::new(count, |i: int| ' ')
}

/// How many spaces fill a text of length `len` up to `width`. A text that is
/// already as wide or wider gets none and is never cut.
pub open spec fn padding(len: nat, width: nat) -> nat {
    if len < width {
        (width - len) as nat
    } else {
        0
    }
}

/// The throughput as it is printed: a number with two digits behind the
/// point, or `inf` or `NaN` for a run that took no measurable time.
pub open spec fn spec_throughput_text(m: Measurement) -> Seq<char> {
    if m.nanos > 0 {
        fixed_point(rate_hundredths(m.operations as nat, m.nanos as nat), RATE_PLACES as nat)
    } else if m.operations > 0 {
        "inf"@
    } else {
        "NaN"@
    }
}

/// The elapsed time as it is printed: seconds with four digits behind the
/// point.
pub open spec fn spec_elapsed_text(m: Measurement) -> Seq<char> {
    fixed_point(time_ten_thousandths(m.nanos as nat), TIME_PLACES as nat)
}

/// What stands between two cells of a row.
pub open spec fn separator() -> Seq<char> {
    " | "@
}

/// The first cell of a row: an indent and the label, filled up on its
/// right.
pub open spec fn label_cell(label: Seq<char>) -> Seq<char> {
    "  "@ + label + spaces(padding(label.len(), LABEL_WIDTH as nat))
}

/// The second cell of a row: the throughput, filled up on its left, and its
/// unit.
pub open spec fn rate_cell(rate: Seq<char>) -> Seq<char> {
    spaces(padding(rate.len(), RATE_WIDTH as nat)) + rate + " OPS/sec"@
}

/// The last cell of a row: the elapsed time and its unit.
pub open spec fn time_cell(time: Seq<char>) -> Seq<char> {
    time + "s"@
}

/// A row of three cells.
pub open spec fn row(label: Seq<char>, rate: Seq<char>, time: Seq<char>) -> Seq<char> {
    label_cell(label) + separator() + rate_cell(rate) + separator() + time_cell(time)
}

/// The row that reports one measurement.
pub open spec fn spec_result_line(m: Measurement) -> Seq<char> {
    row(m.workload.spec_label(), spec_throughput_text(m), spec_elapsed_text(m))
}

/// The title of the report for a suite of the given name.
pub open spec fn spec_title_line(suite: Seq<char>) -> Seq<char> {
    ">>> "@ + suite + " Benchmark Suite <<<"@
}

/// The horizontal rule that frames the table head and closes the table.
pub open spec fn spec_rule_line() -> Seq<char> {
    "  -------------------------------------------------------------"@
}

/// The table head.
pub open spec fn spec_column_line() -> Seq<char> {
    "  Benchmark       |     Performance | Time"@
}

/// The lines before the first row.
pub open spec fn spec_report_head(suite: Seq<char>) -> Seq<Seq<char>> {
    seq![spec_title_line(suite), spec_rule_line(), spec_column_line(), spec_rule_line()]
}

/// The lines behind the last row: the closing rule and an empty line.
pub open spec fn spec_report_tail() -> Seq<Seq<char>> {
    seq![spec_rule_line(), Seq::empty()]
}

/// The rows for a sequence of measurements, in the order given.
pub open spec fn spec_report_rows(results: Seq<Measurement>) -> Seq<Seq<char>> {
    Seq::new(results.len(), |i: int| spec_result_line(results[i]))
}

/// The whole report, line by line.
pub open spec fn spec_report(suite: Seq<char>, results: Seq<Measurement>) -> Seq<Seq<char>> {
    spec_report_head(suite) + spec_report_rows(results) + spec_report_tail()
}

/// Appends `count` spaces to `out`.
pub fn push_spaces(out: &mut String, count: usize)
    ensures
        final(out)@ == old(out)@ + spaces(count as nat),
{
    let mut done: usize = 0;
    while done < count
        invariant
            done <= count,
            out@ == old(out)@ + spaces(done as nat),
        decreases count - done,
    {
        out.push(' ');
        done += 1;
    }
}

/// The throughput of a measurement as it is printed.
pub fn throughput_text(m: &Measurement) -> (text: String)
    ensures
        text@ == spec_throughput_text(*m),
{
    match m.throughput() {
        Throughput::Finite { hundredths } => {
            let mut text: String = String::new();
            push_fixed_point(&mut text, hundredths, RATE_PLACES);
            text
        },
        Throughput::Infinite => String::from_str("inf"),
        Throughput::Undefined => String::from_str("NaN"),
    }
}

/// The elapsed time of a measurement as it is printed.
pub fn elapsed_text(m: &Measurement) -> (text: String)
    ensures
        text@ == spec_elapsed_text(*m),
{
    let mut text: String = String::new();
    push_fixed_point(&mut text, m.elapsed(), TIME_PLACES);
    text
}

/// The row that reports one measurement.
pub fn result_line(m: &Measurement) -> (line: String)
    ensures
        line@ == spec_result_line(*m),
{
    let label: &'static str = m.workload.label();
    let label_len: usize = label.unicode_len();
    let rate: String = throughput_text(m);
    let rate_len: usize = rate.as_str().unicode_len();
    let time: String = elapsed_text(m);

    let mut line: String = String::new();
    line.append("  ");
    line.append(label);
    if label_len < LABEL_WIDTH {
        push_spaces(&mut line, LABEL_WIDTH - label_len);
    }
    line.append(" | ");
    if rate_len < RATE_WIDTH {
        push_spaces(&mut line, RATE_WIDTH - rate_len);
    }
    line.append(rate.as_str());
    line.append(" OPS/sec");
    line.append(" | ");
    line.append(time.as_str());
    line.append("s");
    line
}

/// The title of the report for a suite of the given name.
pub fn title_line(suite: &str) -> (line: String)
    ensures
        line@ == spec_title_line(suite@),
{
    let mut line: String = String::new();
    line.append(">>> ");
    line.append(suite);
    line.append(" Benchmark Suite <<<");
    line
}

/// The horizontal rule that frames the table head and closes the table.
pub fn rule_line() -> (line: String)
    ensures
        line@ == spec_rule_line(),
{
    String::from_str("  -------------------------------------------------------------")
}

/// The table head.
pub fn column_line() -> (line: String)
    ensures
        line@ == spec_column_line(),
{
    String::from_str("  Benchmark       |     Performance | Time")
}

/// The lines before the first row.
pub fn report_head(suite: &str) -> (lines: Vec<String>)
    ensures
        lines.len() == spec_report_head(suite@).len(),
        forall|i: int| 0 <= i < lines.len() ==> (#[trigger] lines[i])@ == spec_report_head(suite@)[i],
{
    let mut lines: Vec<String> = Vec::new();
    lines.push(title_line(suite));
    lines.push(rule_line());
    lines.push(column_line());
    lines.push(rule_line());
    lines
}

/// The lines behind the last row.
pub fn report_tail() -> (lines: Vec<String>)
    ensures
        lines.len() == spec_report_tail().len(),
        forall|i: int| 0 <= i < lines.len() ==> (#[trigger] lines[i])@ == spec_report_tail()[i],
{
    let mut lines: Vec<String> = Vec::new();
    lines.push(rule_line());
    lines.push(String::new());
    lines
}

/// The whole report, line by line: the head, one row for each measurement
/// in the order given, and the tail.
pub fn report_lines(suite: &str, results: &Vec<Measurement>) -> (lines: Vec<String>)
    ensures
        lines.len() == spec_report(suite@, results@).len(),
        forall|i: int|
            0 <= i < lines.len() ==> (#[trigger] lines[i])@ == spec_report(suite@, results@)[i],
{
    let mut lines: Vec<String> = report_head(suite);
    let mut done: usize = 0;
    while done < results.len()
        invariant
            done <= results.len(),
            lines.len() == 4 + done,
            forall|i: int| 0 <= i < 4 ==> (#[trigger] lines[i])@ == spec_report_head(suite@)[i],
            forall|i: int|
                4 <= i < lines.len() ==> (#[trigger] lines[i])@ == spec_result_line(
                    results[i - 4],
                ),
        decreases results.len() - done,
    {
        lines.push(result_line(&results[done]));
        done += 1;
    }
    lines.push(rule_line());
    lines.push(String::new());
    lines
}

/// Whether `line` is a row for the given label: the label's cell, then a
/// throughput with two digits behind the point, then an elapsed time with
/// four.
pub open spec fn is_result_row(line: Seq<char>, label: Seq<char>) -> bool {
    exists|rate: Seq<char>, time: Seq<char>|
        {
            &&& is_fixed_point(rate, RATE_PLACES as nat)
            &&& is_fixed_point(time, TIME_PLACES as nat)
            &&& line == #[trigger] row(label, rate, time)
        }
}

/// Whether the measurements are those of the whole suite, each workload
/// once and in running order.
pub open spec fn in_suite_order(results: Seq<Measurement>) -> bool {
    &&& results.len() == WORKLOAD_COUNT
    &&& forall|i: int|
        0 <= i < results.len() ==> (#[trigger] results[i]).workload == Workload::spec_all()[i]
}

/// Whether every measurement took measurable time.
pub open spec fn all_timed(results: Seq<Measurement>) -> bool {
    forall|i: int| 0 <= i < results.len() ==> (#[trigger] results[i]).nanos > 0
}

/// The row of a measurement that took measurable time carries the label of
/// its workload and two numbers of the printed precision.
pub proof fn lemma_result_line_is_row(m: Measurement)
    requires
        m.nanos > 0,
    ensures
        is_result_row(spec_result_line(m), m.workload.spec_label()),
{
    lemma_fixed_point_shape(
        rate_hundredths(m.operations as nat, m.nanos as nat),
        RATE_PLACES as nat,
    );
    lemma_fixed_point_shape(time_ten_thousandths(m.nanos as nat), TIME_PLACES as nat);
    assert(spec_result_line(m) == row(
        m.workload.spec_label(),
        spec_throughput_text(m),
        spec_elapsed_text(m),
    ));
}

/// The layout of a report on the whole suite: title, rule, table head and
/// rule; then exactly one row for each workload, in running order, each
/// under its own label; then the closing rule and an empty line.
pub proof fn lemma_report_layout(suite: Seq<char>, results: Seq<Measurement>)
    requires
        in_suite_order(results),
        all_timed(results),
    ensures
        spec_report(suite, results).len() == WORKLOAD_COUNT + 6,
        spec_report(suite, results)[0] == spec_title_line(suite),
        spec_report(suite, results)[1] == spec_rule_line(),
        spec_report(suite, results)[2] == spec_column_line(),
        spec_report(suite, results)[3] == spec_rule_line(),
        forall|i: int|
            0 <= i < WORKLOAD_COUNT ==> is_result_row(
                #[trigger] spec_report(suite, results)[4 + i],
                Workload::spec_all()[i].spec_label(),
            ),
        spec_report(suite, results)[4 + WORKLOAD_COUNT] == spec_rule_line(),
        spec_report(suite, results)[5 + WORKLOAD_COUNT].len() == 0,
{
    let report = spec_report(suite, results);
    assert forall|i: int| 0 <= i < WORKLOAD_COUNT implies is_result_row(
        #[trigger] report[4 + i],
        Workload::spec_all()[i].spec_label(),
    ) by {
        assert(report[4 + i] == spec_result_line(results[i]));
        lemma_result_line_is_row(results[i]);
    }
}

/// Two reports on the whole suite differ in their numbers at most: they
/// have the same number of lines, the same lines around the rows, and at
/// each position a row under the same label.
pub proof fn lemma_reports_alike(
    suite: Seq<char>,
    first: Seq<Measurement>,
    second: Seq<Measurement>,
)
    requires
        in_suite_order(first),
        in_suite_order(second),
        all_timed(first),
        all_timed(second),
    ensures
        spec_report(suite, first).len() == spec_report(suite, second).len(),
        forall|i: int|
            0 <= i < 4 || 4 + WORKLOAD_COUNT <= i < 6 + WORKLOAD_COUNT ==> spec_report(
                suite,
                first,
            )[i] == spec_report(suite, second)[i],
        forall|i: int|
            #![trigger spec_report(suite, first)[4 + i]]
            #![trigger spec_report(suite, second)[4 + i]]
            0 <= i < WORKLOAD_COUNT ==> is_result_row(
                spec_report(suite, first)[4 + i],
                Workload::spec_all()[i].spec_label(),
            ) && is_result_row(
                spec_report(suite, second)[4 + i],
                Workload::spec_all()[i].spec_label(),
            ),
{
    lemma_report_layout(suite, first);
    lemma_report_layout(suite, second);
}

/// A label that fits its column fills it: the cell is as wide as the indent
/// and the column together and starts with the indent and the label.
pub proof fn lemma_label_cell_width(label: Seq<char>)
    requires
        label.len() <= LABEL_WIDTH,
    ensures
        label_cell(label).len() == LABEL_WIDTH + 2,
        label_cell(label).subrange(2, 2 + label.len() as int) == label,
        forall|i: int| 2 + label.len() <= i < LABEL_WIDTH + 2 ==> label_cell(label)[i] == ' ',
{
    reveal_strlit("  ");
    assert(label_cell(label).subrange(2, 2 + label.len() as int) =~= label);
}

/// A throughput that fits its column is right-justified in it: the cell is
/// as wide as the column and the unit together, and the text ends where the
/// column ends.
pub proof fn lemma_rate_cell_width(rate: Seq<char>)
    requires
        rate.len() <= RATE_WIDTH,
    ensures
        rate_cell(rate).len() == RATE_WIDTH + 8,
        rate_cell(rate).subrange(RATE_WIDTH - rate.len(), RATE_WIDTH as int) == rate,
        forall|i: int| 0 <= i < RATE_WIDTH - rate.len() ==> rate_cell(rate)[i] == ' ',
{
    reveal_strlit(" OPS/sec");
    assert(rate_cell(rate).subrange(RATE_WIDTH - rate.len(), RATE_WIDTH as int) =~= rate);
}

/// Where label and throughput fit their columns, the two separators of a
/// row stand at fixed places, whatever the numbers are.
pub proof fn lemma_row_separators(label: Seq<char>, rate: Seq<char>, time: Seq<char>)
    requires
        label.len() <= LABEL_WIDTH,
        rate.len() <= RATE_WIDTH,
    ensures
        row(label, rate, time).len() == LABEL_WIDTH + RATE_WIDTH + 17 + time.len(),
        row(label, rate, time)[LABEL_WIDTH + 3] == '|',
        row(label, rate, time)[LABEL_WIDTH + RATE_WIDTH + 14] == '|',
{
    lemma_label_cell_width(label);
    lemma_rate_cell_width(rate);
    reveal_strlit(" | ");
    reveal_strlit("s");
}

} // verus!
