//! The benchmark suite: five fixed workloads, their measurements, and the
//! three report formats.
//!
//! Times are whole nanoseconds. Every number in a report is rendered from
//! integers, so a report is an exact function of the measurements.

use crate::utils::text::{
    centered, decimal, fixed_point, push_centered, push_decimal, push_fixed_point,
    push_repeated, repeated, round_div, round_div_u128,
};
use crate::commands::workloads::{
    array_operations, array_workload_numbers, array_workload_sum, hash_operations,
    is_map_outcome, json_parsing, round_trip, sample_document, sample_document_text,
    string_manipulation, string_workload_text, MapOutcome,
};
use crate::utils::records::StringMap;
use std::time::{Duration, Instant};
use vstd::prelude::*;
use vstd::string::StringExecFns;

verus! {

/// The measurements of one workload.
#[derive(Debug, Clone, PartialEq, Eq)]
pub struct BenchmarkResult {
    pub name: String,
    pub iterations: usize,
    /// The time the whole workload took, in nanoseconds.
    pub total_time: u128,
    /// The time per iteration, in nanoseconds, rounded down.
    pub avg_time: u128,
}

/// The view of [`BenchmarkResult`] in specifications.
pub struct BenchmarkResultView {
    pub name: Seq<char>,
    pub iterations: nat,
    pub total_time: nat,
    pub avg_time: nat,
}

impl View for BenchmarkResult {
    type V = BenchmarkResultView;

    open spec fn view(&self) -> BenchmarkResultView {
        BenchmarkResultView {
            name: self.name@,
            iterations: self.iterations as nat,
            total_time: self.total_time as nat,
            avg_time: self.avg_time as nat,
        }
    }
}

/// The views of a list of results.
pub open spec fn result_views(results: Seq<BenchmarkResult>) -> Seq<BenchmarkResultView> {
    Seq::new(results.len(), |i: int| results[i]@)
}

/// The measurement of a workload called `name` that ran `iterations`
/// times in `total_time` nanoseconds.
pub open spec fn measurement(name: Seq<char>, iterations: nat, total_time: nat) -> BenchmarkResultView {
    BenchmarkResultView {
        name,
        iterations,
        total_time,
        avg_time: total_time / iterations,
    }
}

/// The longest time a `Duration` of std can hold, in nanoseconds: all
/// the seconds of a `u64` and just under one second more.
pub const MAX_DURATION_NANOS: u128 = 18_446_744_073_709_551_615_999_999_999;

/// The nanoseconds in a second.
pub const NANOS_PER_SECOND: u128 = 1_000_000_000;

/// The nanoseconds in a millisecond.
pub const NANOS_PER_MILLI: u128 = 1_000_000;

/// The nanoseconds in a microsecond.
pub const NANOS_PER_MICRO: u128 = 1_000;

/// The nanoseconds in one hundredth of the unit that a duration is shown
/// in: seconds from one second up, milliseconds from one millisecond up,
/// microseconds below.
pub open spec fn duration_step(nanos: nat) -> nat {
    if nanos >= 1_000_000_000 {
        10_000_000
    } else if nanos >= 1_000_000 {
        10_000
    } else {
        10
    }
}

/// The hundredths of its unit that a duration is shown as: the nearest,
/// halves rounded up.
pub open spec fn duration_hundredths(nanos: nat) -> nat {
    round_div(nanos, duration_step(nanos))
}

/// A duration for a reader: seconds from one second up, milliseconds from
/// one millisecond up, microseconds below; in each unit to two decimals,
/// rounded to the nearest hundredth, halves up.
pub open spec fn duration_text(nanos: nat) -> Seq<char> {
    if nanos >= 1_000_000_000 {
        fixed_point(round_div(nanos, 10_000_000), 2) + " s"@
    } else if nanos >= 1_000_000 {
        fixed_point(round_div(nanos, 10_000), 2) + " ms"@
    } else {
        fixed_point(round_div(nanos, 10), 2) + " \u{3bc}s"@
    }
}

/// Operations per second, to two decimals, halves rounded up. A workload
/// that took no measurable time has unbounded throughput, written `inf`.
pub open spec fn throughput_text(iterations: nat, total_time: nat) -> Seq<char> {
    if total_time == 0 {
        "inf"@
    } else {
        fixed_point(round_div(iterations * 100_000_000_000, total_time), 2)
    }
}

impl BenchmarkResultView {
    /// The five fields of the result's row in the comma-separated
    /// report: name, iterations, total time in seconds to six decimals,
    /// time per iteration in seconds to nine decimals, operations per
    /// second to two decimals.
    pub open spec fn csv_fields(self) -> Seq<Seq<char>> {
        seq![
            self.name,
            decimal(self.iterations),
            fixed_point(round_div(self.total_time, 1_000), 6),
            fixed_point(self.avg_time, 9),
            throughput_text(self.iterations, self.total_time),
        ]
    }

    /// The result's row in the comma-separated report.
    pub open spec fn csv_line(self) -> Seq<char> {
        let f = self.csv_fields();
        f[0] + ","@ + f[1] + ","@ + f[2] + ","@ + f[3] + ","@ + f[4]
    }

    /// The result's block in the console report.
    pub open spec fn console_lines(self) -> Seq<Seq<char>> {
        seq![
            Seq::empty(),
            self.name + ":"@,
            "  Iterations:     "@ + decimal(self.iterations),
            "  Total time:     "@ + duration_text(self.total_time),
            "  Avg time/op:    "@ + duration_text(self.avg_time),
            "  Ops/second:     "@ + throughput_text(self.iterations, self.total_time),
        ]
    }
}

/// The sum of the total times of `results`.
pub open spec fn total_time_sum(results: Seq<BenchmarkResultView>) -> nat
    decreases results.len(),
{
    if results.len() == 0 {
        0
    } else {
        total_time_sum(results.drop_last()) + results.last().total_time
    }
}

/// The blocks of `results` in the console report, one after another.
pub open spec fn console_blocks(results: Seq<BenchmarkResultView>) -> Seq<Seq<char>>
    decreases results.len(),
{
    if results.len() == 0 {
        Seq::empty()
    } else {
        console_blocks(results.drop_last()) + results.last().console_lines()
    }
}

/// The console report: a banner, one block per result, and the sum of the
/// total times between two rules.
pub open spec fn console_report(results: Seq<BenchmarkResultView>) -> Seq<Seq<char>> {
    seq![
        Seq::empty(),
        repeated('=', 60),
        centered("BENCHMARK RESULTS"@, 60),
        repeated('=', 60),
    ] + console_blocks(results) + seq![
        Seq::empty(),
        repeated('=', 60),
        "Total benchmark time: "@ + duration_text(total_time_sum(results)),
        repeated('=', 60),
    ]
}

/// The comma-separated report: the header row, then one row per result.
pub open spec fn csv_report(results: Seq<BenchmarkResultView>) -> Seq<Seq<char>> {
    seq!["Benchmark,Iterations,Total Time (s),Avg Time (s),Ops/Second"@] + Seq::new(
        results.len(),
        |i: int| results[i].csv_line(),
    )
}

/// Appends the reader's form of a duration of `nanos` nanoseconds.
pub fn push_duration(out: &mut String, nanos: u128)
    ensures
        final(out)@ == old(out)@ + duration_text(nanos as nat),
{
    if nanos >= NANOS_PER_SECOND {
        push_fixed_point(out, round_div_u128(nanos, 10_000_000), 2);
        out.append(" s");
    } else if nanos >= NANOS_PER_MILLI {
        push_fixed_point(out, round_div_u128(nanos, 10_000), 2);
        out.append(" ms");
    } else {
        push_fixed_point(out, round_div_u128(nanos, 10), 2);
        out.append(" \u{3bc}s");
    }
}

/// The reader's form of a duration of `nanos` nanoseconds.
pub fn format_duration(nanos: u128) -> (s: String)
    ensures
        s@ == duration_text(nanos as nat),
{
    let mut s = String::new();
    push_duration(&mut s, nanos);
    s
}

/// Appends the operations per second of `iterations` runs in
/// `total_time` nanoseconds.
pub fn push_throughput(out: &mut String, iterations: usize, total_time: u128)
    ensures
        final(out)@ == old(out)@ + throughput_text(iterations as nat, total_time as nat),
{
    if total_time == 0 {
        out.append("inf");
    } else {
        let scaled: u128 = (iterations as u128) * 100_000_000_000;
        push_fixed_point(out, round_div_u128(scaled, total_time), 2);
    }
}

impl BenchmarkResult {
    /// The result of a workload that ran `iterations` times in
    /// `total_time` nanoseconds: the time per iteration is the total
    /// divided by the iterations.
    pub fn measured(name: &str, iterations: usize, total_time: u128) -> (r: BenchmarkResult)
        requires
            iterations >= 1,
        ensures
            r@ == measurement(name@, iterations as nat, total_time as nat),
    {
        BenchmarkResult {
            name: String::from_str(name),
            iterations,
            total_time,
            avg_time: total_time / (iterations as u128),
        }
    }

    /// The result's row in the comma-separated report.
    pub fn csv_line(&self) -> (s: String)
        ensures
            s@ == self@.csv_line(),
    {
        let mut s = self.name.clone();
        s.append(",");
        push_decimal(&mut s, self.iterations as u128);
        s.append(",");
        push_fixed_point(&mut s, round_div_u128(self.total_time, NANOS_PER_MICRO), 6);
        s.append(",");
        push_fixed_point(&mut s, self.avg_time, 9);
        s.append(",");
        push_throughput(&mut s, self.iterations, self.total_time);
        s
    }

    /// Appends the result's block in the console report to `lines`.
    pub fn push_console_lines(&self, lines: &mut Vec<String>)
        ensures
            final(lines).deep_view() == old(lines).deep_view() + self@.console_lines(),
    {
        let ghost before = lines.deep_view();
        lines.push(String::new());
        let mut title = self.name.clone();
        title.append(":");
        lines.push(title);
        let mut iterations = String::from_str("  Iterations:     ");
        push_decimal(&mut iterations, self.iterations as u128);
        lines.push(iterations);
        let mut total = String::from_str("  Total time:     ");
        push_duration(&mut total, self.total_time);
        lines.push(total);
        let mut average = String::from_str("  Avg time/op:    ");
        push_duration(&mut average, self.avg_time);
        lines.push(average);
        let mut rate = String::from_str("  Ops/second:     ");
        push_throughput(&mut rate, self.iterations, self.total_time);
        lines.push(rate);
        assert(lines.deep_view() =~= before + self@.console_lines());
    }
}

/// One workload's record in the JSON report, in whole units: the total
/// time in milliseconds and the time per iteration in microseconds, both
/// rounded down.
#[derive(Debug, Clone, PartialEq, Eq)]
pub struct JsonEntry {
    pub name: String,
    pub iterations: usize,
    pub total_time_ms: u128,
    pub avg_time_us: u128,
}

/// The view of [`JsonEntry`] in specifications.
pub struct JsonEntryView {
    pub name: Seq<char>,
    pub iterations: nat,
    pub total_time_ms: nat,
    pub avg_time_us: nat,
}

impl View for JsonEntry {
    type V = JsonEntryView;

    open spec fn view(&self) -> JsonEntryView {
        JsonEntryView {
            name: self.name@,
            iterations: self.iterations as nat,
            total_time_ms: self.total_time_ms as nat,
            avg_time_us: self.avg_time_us as nat,
        }
    }
}

impl BenchmarkResultView {
    /// The result's record in the JSON report.
    pub open spec fn json_entry(self) -> JsonEntryView {
        JsonEntryView {
            name: self.name,
            iterations: self.iterations,
            total_time_ms: self.total_time / 1_000_000,
            avg_time_us: self.avg_time / 1_000,
        }
    }
}

/// The sum of the total times of `results`, where it fits.
pub fn total_time(results: &Vec<BenchmarkResult>) -> (sum: u128)
    requires
        total_time_sum(result_views(results@)) <= u128::MAX,
    ensures
        sum == total_time_sum(result_views(results@)),
{
    let ghost views = result_views(results@);
    let mut sum: u128 = 0;
    let mut i: usize = 0;
    assert(views.take(0) =~= Seq::<BenchmarkResultView>::empty());
    while i < results.len()
        invariant
            i <= results.len(),
            views == result_views(results@),
            sum == total_time_sum(views.take(i as int)),
            total_time_sum(views) <= u128::MAX,
        decreases results.len() - i,
    {
        proof {
            assert(views.take(i + 1).drop_last() =~= views.take(i as int));
            lemma_total_time_sum_prefix(views, i + 1);
        }
        sum = sum + results[i].total_time;
        i = i + 1;
    }
    assert(views.take(i as int) =~= views);
    sum
}

/// The times of the first results never add up to more than the times
/// of all of them.
pub proof fn lemma_total_time_sum_prefix(results: Seq<BenchmarkResultView>, n: int)
    requires
        0 <= n <= results.len(),
    ensures
        total_time_sum(results.take(n)) <= total_time_sum(results),
    decreases results.len() - n,
{
    if n < results.len() {
        assert(results.take(n + 1).drop_last() =~= results.take(n));
        lemma_total_time_sum_prefix(results, n + 1);
    } else {
        assert(results.take(n) =~= results);
    }
}

/// The console report, line by line.
pub fn output_console(results: &Vec<BenchmarkResult>) -> (lines: Vec<String>)
    requires
        total_time_sum(result_views(results@)) <= u128::MAX,
    ensures
        lines.deep_view() == console_report(result_views(results@)),
{
    let ghost views = result_views(results@);
    let mut rule = String::new();
    push_repeated(&mut rule, '=', 60);
    let mut banner = String::new();
    push_centered(&mut banner, "BENCHMARK RESULTS", 60);
    let mut lines: Vec<String> = Vec::new();
    lines.push(String::new());
    lines.push(rule.clone());
    lines.push(banner);
    lines.push(rule.clone());
    let ghost head = lines.deep_view();
    assert(head =~= seq![
        Seq::empty(),
        repeated('=', 60),
        centered("BENCHMARK RESULTS"@, 60),
        repeated('=', 60),
    ]);
    let mut i: usize = 0;
    assert(views.take(0) =~= Seq::<BenchmarkResultView>::empty());
    while i < results.len()
        invariant
            i <= results.len(),
            views == result_views(results@),
            lines.deep_view() == head + console_blocks(views.take(i as int)),
        decreases results.len() - i,
    {
        assert(views.take(i + 1).drop_last() =~= views.take(i as int));
        results[i].push_console_lines(&mut lines);
        i = i + 1;
    }
    assert(views.take(i as int) =~= views);
    let ghost body = lines.deep_view();
    let mut total = String::from_str("Total benchmark time: ");
    push_duration(&mut total, total_time(results));
    lines.push(String::new());
    lines.push(rule.clone());
    lines.push(total);
    lines.push(rule);
    assert(lines.deep_view() =~= body + seq![
        Seq::empty(),
        repeated('=', 60),
        "Total benchmark time: "@ + duration_text(total_time_sum(views)),
        repeated('=', 60),
    ]);
    lines
}

/// The comma-separated report, line by line.
pub fn output_csv(results: &Vec<BenchmarkResult>) -> (lines: Vec<String>)
    ensures
        lines.deep_view() == csv_report(result_views(results@)),
{
    let mut lines: Vec<String> = Vec::new();
    lines.push(String::from_str("Benchmark,Iterations,Total Time (s),Avg Time (s),Ops/Second"));
    let mut i: usize = 0;
    while i < results.len()
        invariant
            i <= results.len(),
            lines@.len() == i + 1,
            lines@[0]@ == "Benchmark,Iterations,Total Time (s),Avg Time (s),Ops/Second"@,
            forall|k: int| 0 <= k < i ==> (#[trigger] lines@[k + 1])@ == results@[k]@.csv_line(),
        decreases results.len() - i,
    {
        lines.push(results[i].csv_line());
        i = i + 1;
    }
    let ghost report = csv_report(result_views(results@));
    assert(report.len() == lines@.len());
    assert forall|k: int| 0 <= k < report.len() implies lines.deep_view()[k] == report[k] by {
        if k > 0 {
            assert(lines@[(k - 1) + 1]@ == results@[k - 1]@.csv_line());
        }
    }
    assert(lines.deep_view() =~= report);
    lines
}

/// The records of the JSON report, one per result.
pub fn output_json(results: &Vec<BenchmarkResult>) -> (entries: Vec<JsonEntry>)
    ensures
        entries@.len() == results@.len(),
        forall|i: int| 0 <= i < results@.len() ==> (#[trigger] entries@[i])@ == results@[i]@.json_entry(),
{
    let mut entries: Vec<JsonEntry> = Vec::new();
    let mut i: usize = 0;
    while i < results.len()
        invariant
            i <= results.len(),
            entries@.len() == i,
            forall|k: int| 0 <= k < i ==> (#[trigger] entries@[k])@ == results@[k]@.json_entry(),
        decreases results.len() - i,
    {
        entries.push(
            JsonEntry {
                name: results[i].name.clone(),
                iterations: results[i].iterations,
                total_time_ms: results[i].total_time / NANOS_PER_MILLI,
                avg_time_us: results[i].avg_time / NANOS_PER_MICRO,
            },
        );
        i = i + 1;
    }
    entries
}

/// `std::time::Instant`, carried through as an opaque value.
#[verifier::external_type_specification]
#[verifier::external_body]
pub struct ExInstant(Instant);

/// `Instant::now` reads the monotonic clock. Nothing is claimed of the
/// reading.
pub assume_specification[ Instant::now ]() -> Instant;

/// `Instant::elapsed` is the time since the instant was taken. Nothing is
/// claimed of it.
pub assume_specification[ Instant::elapsed ](start: &Instant) -> Duration;

/// `Duration::as_nanos` is the duration in whole nanoseconds, which is
/// never more than a `Duration` can hold.
pub assume_specification[ Duration::as_nanos ](duration: &Duration) -> (nanos: u128)
    ensures
        nanos <= MAX_DURATION_NANOS,
;

/// The format of a report.
#[derive(Debug, Clone, Copy, PartialEq, Eq, Structural)]
pub enum OutputFormat {
    Console,
    Json,
    Csv,
}

impl OutputFormat {
    /// The format that `name` selects: `json` and `csv` select their
    /// formats, anything else the console format.
    pub open spec fn named(name: Seq<char>) -> OutputFormat {
        if name == "json"@ {
            OutputFormat::Json
        } else if name == "csv"@ {
            OutputFormat::Csv
        } else {
            OutputFormat::Console
        }
    }

    /// The format that `name` selects.
    pub fn from_name(name: &str) -> (format: OutputFormat)
        ensures
            format == OutputFormat::named(name@),
    {
        if str::eq(name, "json") {
            OutputFormat::Json
        } else if str::eq(name, "csv") {
            OutputFormat::Csv
        } else {
            OutputFormat::Console
        }
    }
}

/// The names of the five workloads, in the order they run and report.
pub open spec fn workload_names() -> Seq<Seq<char>> {
    seq![
        "String Manipulation"@,
        "Array Operations"@,
        "File I/O"@,
        "JSON Parsing"@,
        "Hash Operations"@,
    ]
}

/// Whether `results` are the results of one run of the suite with
/// `iterations` iterations: five of them, under the workloads' names, each
/// with that many iterations, a total time that a clock can give, and the
/// total divided by the iterations as the time per iteration.
pub open spec fn suite_results(results: Seq<BenchmarkResultView>, iterations: nat) -> bool {
    &&& results.len() == 5
    &&& forall|i: int|
        0 <= i < 5 ==> {
            &&& (#[trigger] results[i]) == measurement(
                workload_names()[i],
                iterations,
                results[i].total_time,
            )
            &&& results[i].total_time <= MAX_DURATION_NANOS
        }
}

/// The times of a run of the suite add up within `u128`.
pub proof fn lemma_suite_total_fits(results: Seq<BenchmarkResultView>, iterations: nat)
    requires
        suite_results(results, iterations),
    ensures
        total_time_sum(results) <= 5 * MAX_DURATION_NANOS,
        total_time_sum(results) <= u128::MAX,
{
    reveal_with_fuel(total_time_sum, 6);
}

/// A run of the suite with at least one iteration gives exactly five
/// results. Each has the run's iterations, which are above zero, so that
/// its throughput, iterations over total time, is above zero too; and its
/// time per iteration is no more than its total time.
pub proof fn lemma_suite_shape(results: Seq<BenchmarkResultView>, iterations: nat)
    requires
        suite_results(results, iterations),
        iterations >= 1,
    ensures
        results.len() == 5,
        forall|i: int|
            0 <= i < 5 ==> {
                &&& (#[trigger] results[i]).iterations == iterations
                &&& results[i].iterations > 0
                &&& results[i].total_time >= 0
                &&& results[i].avg_time == results[i].total_time / iterations
                &&& results[i].avg_time <= results[i].total_time
            },
{
    assert forall|i: int| 0 <= i < 5 implies (#[trigger] results[i]).avg_time
        <= results[i].total_time by {
        let t = results[i].total_time as int;
        let n = iterations as int;
        assert(results[i].avg_time == t / n);
        assert(t / n <= t) by (nonlinear_arith)
            requires
                t >= 0,
                n >= 1,
        ;
    }
}

/// A duration is shown as the hundredths of its unit that are nearest to
/// it: the text is those hundredths with the unit's name, and they differ
/// from the nanoseconds by no more than half a hundredth of the unit.
pub proof fn lemma_duration_shown(nanos: nat)
    ensures
        duration_text(nanos) == fixed_point(duration_hundredths(nanos), 2) + (if nanos
            >= 1_000_000_000 {
            " s"@
        } else if nanos >= 1_000_000 {
            " ms"@
        } else {
            " \u{3bc}s"@
        }),
        nanos - duration_step(nanos) / 2 < duration_hundredths(nanos) * duration_step(nanos)
            <= nanos + duration_step(nanos) / 2,
{
    if nanos >= 1_000_000_000 {
        assert(nanos == 10_000_000 * (nanos / 10_000_000) + nanos % 10_000_000);
    } else if nanos >= 1_000_000 {
        assert(nanos == 10_000 * (nanos / 10_000) + nanos % 10_000);
    } else {
        assert(nanos == 10 * (nanos / 10) + nanos % 10);
    }
}

/// The three formats show the same measurements of a result. The name and
/// the iterations are the same text or number in each. The console and the
/// comma-separated report give the same throughput. The console gives the
/// total time and the time per iteration of the same nanoseconds that the
/// other two give, each to the nearest hundredth of its unit. The JSON
/// report gives the total time in whole milliseconds and the time per
/// iteration in whole microseconds, rounded down; the comma-separated
/// report gives the total time to the nearest microsecond and the time
/// per iteration exactly.
pub proof fn lemma_formats_agree(result: BenchmarkResultView)
    ensures
        result.csv_fields()[0] == result.json_entry().name,
        result.console_lines()[1] == result.json_entry().name + ":"@,
        result.csv_fields()[1] == decimal(result.json_entry().iterations),
        result.console_lines()[2] == "  Iterations:     "@ + result.csv_fields()[1],
        result.console_lines()[5] == "  Ops/second:     "@ + result.csv_fields()[4],
        result.console_lines()[3] == "  Total time:     "@ + duration_text(result.total_time),
        result.console_lines()[4] == "  Avg time/op:    "@ + duration_text(result.avg_time),
        result.total_time - duration_step(result.total_time) / 2 < duration_hundredths(
            result.total_time,
        ) * duration_step(result.total_time) <= result.total_time + duration_step(
            result.total_time,
        ) / 2,
        result.avg_time - duration_step(result.avg_time) / 2 < duration_hundredths(result.avg_time)
            * duration_step(result.avg_time) <= result.avg_time + duration_step(result.avg_time)
            / 2,
        result.json_entry().total_time_ms * 1_000_000 <= result.total_time < (
        result.json_entry().total_time_ms + 1) * 1_000_000,
        result.json_entry().avg_time_us * 1_000 <= result.avg_time < (
        result.json_entry().avg_time_us + 1) * 1_000,
        result.csv_fields()[2] == fixed_point(round_div(result.total_time, 1_000), 6),
        result.total_time - 500 < round_div(result.total_time, 1_000) * 1_000 <= result.total_time
            + 500,
        result.csv_fields()[3] == fixed_point(result.avg_time, 9),
{
    lemma_duration_shown(result.total_time);
    lemma_duration_shown(result.avg_time);
}

/// What a report consists of.
#[derive(Debug, Clone, PartialEq, Eq)]
pub enum ReportBody {
    /// The lines of a console or comma-separated report.
    Lines(Vec<String>),
    /// The records of a JSON report.
    Json(Vec<JsonEntry>),
}

/// The benchmark command: how often each workload runs and how the
/// results are reported.
#[derive(Debug, Clone, PartialEq, Eq)]
pub struct BenchmarkCommand {
    pub iterations: usize,
    pub output_format: String,
    pub verbose: bool,
}

/// The line that a verbose run starts with.
pub open spec fn banner_text(iterations: nat) -> Seq<char> {
    "Running benchmarks with "@ + decimal(iterations) + " iterations..."@
}

impl BenchmarkCommand {
    pub fn new(iterations: usize, output_format: String, verbose: bool) -> (command: Self)
        ensures
            command.iterations == iterations,
            command.output_format == output_format,
            command.verbose == verbose,
    {
        Self { iterations, output_format, verbose }
    }

    /// The format of this command's report.
    pub fn format(&self) -> (format: OutputFormat)
        ensures
            format == OutputFormat::named(self.output_format@),
    {
        OutputFormat::from_name(self.output_format.as_str())
    }

    /// The line that announces the run, where the command is verbose.
    pub fn banner(&self) -> (line: Option<String>)
        ensures
            match line {
                Some(text) => self.verbose && text@ == banner_text(self.iterations as nat),
                None => !self.verbose,
            },
    {
        if self.verbose {
            let mut text = String::from_str("Running benchmarks with ");
            push_decimal(&mut text, self.iterations as u128);
            text.append(" iterations...");
            Some(text)
        } else {
            None
        }
    }

    /// Runs and times the string workload. Gives the measurements and what
    /// the last iteration built.
    pub fn benchmark_string_manipulation(&self) -> (r: (BenchmarkResult, String))
        requires
            self.iterations >= 1,
        ensures
            r.0@ == measurement("String Manipulation"@, self.iterations as nat, r.0@.total_time),
            r.0@.total_time <= MAX_DURATION_NANOS,
            r.1@ == string_workload_text((self.iterations - 1) as nat),
    {
        let start = Instant::now();
        let mut last = String::new();
        let mut i: usize = 0;
        while i < self.iterations
            invariant
                i <= self.iterations,
                i > 0 ==> last@ == string_workload_text((i - 1) as nat),
            decreases self.iterations - i,
        {
            last = string_manipulation(i);
            i = i + 1;
        }
        let total: u128 = start.elapsed().as_nanos();
        (BenchmarkResult::measured("String Manipulation", self.iterations, total), last)
    }

    /// Runs and times the array workload. Gives the measurements and what
    /// the last iteration was left with and added up.
    pub fn benchmark_array_operations(&self) -> (r: (BenchmarkResult, (Vec<i32>, i32)))
        requires
            self.iterations >= 1,
        ensures
            r.0@ == measurement("Array Operations"@, self.iterations as nat, r.0@.total_time),
            r.0@.total_time <= MAX_DURATION_NANOS,
            r.1.0@ == array_workload_numbers(100),
            r.1.1 == array_workload_sum(100),
    {
        let start = Instant::now();
        let mut last: (Vec<i32>, i32) = (Vec::new(), 0);
        let mut i: usize = 0;
        while i < self.iterations
            invariant
                i <= self.iterations,
                i > 0 ==> last.0@ == array_workload_numbers(100) && last.1 == array_workload_sum(
                    100,
                ),
            decreases self.iterations - i,
        {
            last = array_operations(100);
            i = i + 1;
        }
        let total: u128 = start.elapsed().as_nanos();
        (BenchmarkResult::measured("Array Operations", self.iterations, total), last)
    }

    /// The result of the file workload, which the host runs and times:
    /// it opens one temporary file, writes the line of each iteration to
    /// it and flushes after each.
    pub fn benchmark_file_io(&self, total_time: u128) -> (r: BenchmarkResult)
        requires
            self.iterations >= 1,
        ensures
            r@ == measurement("File I/O"@, self.iterations as nat, total_time as nat),
    {
        BenchmarkResult::measured("File I/O", self.iterations, total_time)
    }

    /// Runs and times the JSON workload. The sample document is built
    /// before the clock starts. Gives the measurements and what the last
    /// iteration wrote back.
    pub fn benchmark_json_parsing(&self) -> (r: (BenchmarkResult, Option<String>))
        requires
            self.iterations >= 1,
        ensures
            r.0@ == measurement("JSON Parsing"@, self.iterations as nat, r.0@.total_time),
            r.0@.total_time <= MAX_DURATION_NANOS,
            match r.1 {
                Some(text) => round_trip(sample_document_text()) == Some(text@),
                None => round_trip(sample_document_text()) is None,
            },
    {
        let document = sample_document();
        let start = Instant::now();
        let mut last: Option<String> = None;
        let mut i: usize = 0;
        while i < self.iterations
            invariant
                i <= self.iterations,
                document@ == sample_document_text(),
                i > 0 ==> match last {
                    Some(text) => round_trip(sample_document_text()) == Some(text@),
                    None => round_trip(sample_document_text()) is None,
                },
            decreases self.iterations - i,
        {
            last = json_parsing(document.as_str());
            i = i + 1;
        }
        let total: u128 = start.elapsed().as_nanos();
        (BenchmarkResult::measured("JSON Parsing", self.iterations, total), last)
    }

    /// Runs and times the map workload. Gives the measurements and what
    /// the last iteration computed.
    pub fn benchmark_hash_operations(&self) -> (r: (BenchmarkResult, MapOutcome))
        requires
            self.iterations >= 1,
        ensures
            r.0@ == measurement("Hash Operations"@, self.iterations as nat, r.0@.total_time),
            r.0@.total_time <= MAX_DURATION_NANOS,
            is_map_outcome(r.1, 100),
    {
        let start = Instant::now();
        let mut last = MapOutcome { sorted_keys: Vec::new(), value_sum: 0, kept: StringMap::new() };
        let mut i: usize = 0;
        while i < self.iterations
            invariant
                i <= self.iterations,
                i > 0 ==> is_map_outcome(last, 100),
            decreases self.iterations - i,
        {
            last = hash_operations(100);
            i = i + 1;
        }
        let total: u128 = start.elapsed().as_nanos();
        (BenchmarkResult::measured("Hash Operations", self.iterations, total), last)
    }

    /// Runs the suite: the five workloads, each as often as the command
    /// says, in their fixed order. `file_io_time` is the time the host
    /// measured for the file workload, in nanoseconds.
    pub fn run_benchmarks(&self, file_io_time: u128) -> (results: Vec<BenchmarkResult>)
        requires
            self.iterations >= 1,
            file_io_time <= MAX_DURATION_NANOS,
        ensures
            suite_results(result_views(results@), self.iterations as nat),
            results@[2]@.total_time == file_io_time,
    {
        let mut results: Vec<BenchmarkResult> = Vec::new();
        results.push(self.benchmark_string_manipulation().0);
        results.push(self.benchmark_array_operations().0);
        results.push(self.benchmark_file_io(file_io_time));
        results.push(self.benchmark_json_parsing().0);
        results.push(self.benchmark_hash_operations().0);
        results
    }

    /// The report of `results` in the command's format.
    pub fn report(&self, results: &Vec<BenchmarkResult>) -> (body: ReportBody)
        requires
            total_time_sum(result_views(results@)) <= u128::MAX,
        ensures
            match OutputFormat::named(self.output_format@) {
                OutputFormat::Console => body matches ReportBody::Lines(lines)
                    && lines.deep_view() == console_report(result_views(results@)),
                OutputFormat::Csv => body matches ReportBody::Lines(lines) && lines.deep_view()
                    == csv_report(result_views(results@)),
                OutputFormat::Json => body matches ReportBody::Json(entries) && entries@.len()
                    == results@.len() && forall|i: int|
                    0 <= i < results@.len() ==> (#[trigger] entries@[i])@
                        == results@[i]@.json_entry(),
            },
    {
        match self.format() {
            OutputFormat::Console => ReportBody::Lines(output_console(results)),
            OutputFormat::Csv => ReportBody::Lines(output_csv(results)),
            OutputFormat::Json => ReportBody::Json(output_json(results)),
        }
    }

    /// Runs the suite and reports it: the results, and their report in the
    /// command's format.
    pub fn execute(&self, file_io_time: u128) -> (r: (Vec<BenchmarkResult>, ReportBody))
        requires
            self.iterations >= 1,
            file_io_time <= MAX_DURATION_NANOS,
        ensures
            suite_results(result_views(r.0@), self.iterations as nat),
            match OutputFormat::named(self.output_format@) {
                OutputFormat::Console => r.1 matches ReportBody::Lines(lines) && lines.deep_view()
                    == console_report(result_views(r.0@)),
                OutputFormat::Csv => r.1 matches ReportBody::Lines(lines) && lines.deep_view()
                    == csv_report(result_views(r.0@)),
                OutputFormat::Json => r.1 matches ReportBody::Json(entries) && entries@.len() == 5
                    && forall|i: int|
                    0 <= i < 5 ==> (#[trigger] entries@[i])@ == r.0@[i]@.json_entry(),
            },
    {
        let results = self.run_benchmarks(file_io_time);
        proof {
            lemma_suite_total_fits(result_views(results@), self.iterations as nat);
        }
        let body = self.report(&results);
        (results, body)
    }
}

} // verus!
