//! The line that tells a human reader what a run computed: the workload
//! written as a call, an equals sign, and the output.

use vstd::prelude::*;
use vstd::string::StringExecFns;
use crate::decimal::{decimal, to_decimal};
use crate::workload::{Output, OutputView, Workload, WorkloadView};

verus! {

/// A text as Rust's `Debug` formatting writes it: between double quotes,
/// with the characters escaped that `Debug` escapes.
pub uninterp spec fn debug_quoted(text: Seq<char>) -> Seq<char>;

/// Formats a text with `format!("{:?}", ..)`, which is `Debug` for `str`.
/// The contract gives the result its name and claims nothing else of it.
#[verifier::external_body]
fn quote(text: &str) -> (quoted: String)
    ensures
        quoted@ == debug_quoted(text@),
{
    format!("{:?}", text)
}

/// A call of `name` on one argument.
pub open spec fn call_of_one(name: Seq<char>, argument: Seq<char>) -> Seq<char> {
    name + "("@ + argument + ")"@
}

/// A call of `name` on two arguments.
pub open spec fn call_of_two(name: Seq<char>, first: Seq<char>, second: Seq<char>) -> Seq<char> {
    name + "("@ + first + ", "@ + second + ")"@
}

/// The workload written as a call: a number in decimal, the summation's
/// input as the range from zero, a text as `Debug` quotes it.
pub open spec fn call_text(workload: WorkloadView) -> Seq<char> {
    match workload {
        WorkloadView::Fib { n } => call_of_one("fib"@, decimal(n as nat)),
        WorkloadView::FastFib { n } => call_of_one("fastfib"@, decimal(n as nat)),
        WorkloadView::Lcs { a, b } => call_of_two("lcs"@, debug_quoted(a), debug_quoted(b)),
        WorkloadView::Lcs2 { a, b } => call_of_two("lcs2"@, debug_quoted(a), debug_quoted(b)),
        WorkloadView::Sum { n } => call_of_one("sum"@, "0.."@ + decimal(n as nat)),
    }
}

/// The output as it is shown: a number in decimal, a text as it is.
pub open spec fn shown(output: OutputView) -> Seq<char> {
    match output {
        OutputView::Number(n) => decimal(n as nat),
        OutputView::Text(text) => text,
    }
}

/// The line for a workload and an output.
pub open spec fn progress_text(workload: WorkloadView, output: OutputView) -> Seq<char> {
    call_text(workload) + " = "@ + shown(output)
}

/// Writes a call of `name` on one argument.
pub fn write_call_of_one(name: &str, argument: &str) -> (text: String)
    ensures
        text@ == call_of_one(name@, argument@),
{
    let mut text = String::from_str(name);
    text.append("(");
    text.append(argument);
    text.append(")");
    text
}

/// Writes a call of `name` on two arguments.
pub fn write_call_of_two(name: &str, first: &str, second: &str) -> (text: String)
    ensures
        text@ == call_of_two(name@, first@, second@),
{
    let mut text = String::from_str(name);
    text.append("(");
    text.append(first);
    text.append(", ");
    text.append(second);
    text.append(")");
    text
}

/// Writes the line that tells what a run computed.
pub fn progress_line(workload: &Workload, output: &Output) -> (line: String)
    ensures
        line@ == progress_text(workload@, output@),
{
    let mut line: String = match workload {
        Workload::Fib { n } => write_call_of_one("fib", to_decimal(*n).as_str()),
        Workload::FastFib { n } => write_call_of_one("fastfib", to_decimal(*n).as_str()),
        Workload::Lcs { a, b } => write_call_of_two(
            "lcs",
            quote(a.as_str()).as_str(),
            quote(b.as_str()).as_str(),
        ),
        Workload::Lcs2 { a, b } => write_call_of_two(
            "lcs2",
            quote(a.as_str()).as_str(),
            quote(b.as_str()).as_str(),
        ),
        Workload::Sum { n } => {
            let mut range = String::from_str("0..");
            range.append(to_decimal(*n).as_str());
            write_call_of_one("sum", range.as_str())
        },
    };
    line.append(" = ");
    match output {
        Output::Number(n) => {
            line.append(to_decimal(*n).as_str());
        },
        Output::Text(text) => {
            line.append(text.as_str());
        },
    }
    line
}

} // verus!
