//! Workloads and their outputs: what can be run, and what running it yields.

use vstd::prelude::*;
use crate::fastfib::{fastfib, fastfib_word};
use crate::fib::{fib, fib_word};
use crate::sum::{below, sum_below, sum_word};
use crate::text::same_text;

verus! {

/// The computations on the menu.
#[derive(Clone, Copy, Debug, PartialEq, Eq, Structural)]
pub enum WorkloadKind {
    /// Fibonacci by the linear recurrence.
    Fib,
    /// Fibonacci by powers of a matrix.
    FastFib,
    /// Longest common subsequence, read off a table of lengths.
    Lcs,
    /// Longest common subsequence, read off a table of subsequences.
    Lcs2,
    /// The total of the numbers below a bound.
    Sum,
}

/// A computation together with its input.
#[derive(Debug, PartialEq, Eq)]
pub enum Workload {
    Fib { n: u64 },
    FastFib { n: u64 },
    Lcs { a: String, b: String },
    Lcs2 { a: String, b: String },
    Sum { n: u64 },
}

/// A workload as a mathematical value.
pub ghost enum WorkloadView {
    Fib { n: u64 },
    FastFib { n: u64 },
    Lcs { a: Seq<char>, b: Seq<char> },
    Lcs2 { a: Seq<char>, b: Seq<char> },
    Sum { n: u64 },
}

impl View for Workload {
    type V = WorkloadView;

    open spec fn view(&self) -> WorkloadView {
        match self {
            Workload::Fib { n } => WorkloadView::Fib { n: *n },
            Workload::FastFib { n } => WorkloadView::FastFib { n: *n },
            Workload::Lcs { a, b } => WorkloadView::Lcs { a: a@, b: b@ },
            Workload::Lcs2 { a, b } => WorkloadView::Lcs2 { a: a@, b: b@ },
            Workload::Sum { n } => WorkloadView::Sum { n: *n },
        }
    }
}

/// What a workload yields: a word or a text.
#[derive(Debug, PartialEq, Eq)]
pub enum Output {
    Number(u64),
    Text(String),
}

/// An output as a mathematical value.
pub ghost enum OutputView {
    Number(u64),
    Text(Seq<char>),
}

impl View for Output {
    type V = OutputView;

    open spec fn view(&self) -> OutputView {
        match self {
            Output::Number(n) => OutputView::Number(*n),
            Output::Text(t) => OutputView::Text(t@),
        }
    }
}

impl WorkloadView {
    /// The computation that the workload asks for.
    pub open spec fn kind(self) -> WorkloadKind {
        match self {
            WorkloadView::Fib { .. } => WorkloadKind::Fib,
            WorkloadView::FastFib { .. } => WorkloadKind::FastFib,
            WorkloadView::Lcs { .. } => WorkloadKind::Lcs,
            WorkloadView::Lcs2 { .. } => WorkloadKind::Lcs2,
            WorkloadView::Sum { .. } => WorkloadKind::Sum,
        }
    }

    /// The output of the workload's kernel on its input: what a sound run
    /// must commit to.
    pub open spec fn expected(self) -> OutputView {
        match self {
            WorkloadView::Fib { n } => OutputView::Number(fib_word(n as nat) as u64),
            WorkloadView::FastFib { n } => OutputView::Number(fastfib_word(n as nat) as u64),
            WorkloadView::Lcs { a, b } => OutputView::Text(crate::lcs::lcs(a, b)),
            WorkloadView::Lcs2 { a, b } => OutputView::Text(crate::lcs2::lcs(a, b)),
            WorkloadView::Sum { n } => OutputView::Number(sum_word(below(n as nat)) as u64),
        }
    }
}

impl WorkloadKind {
    /// The kind's name, as it shows in program names.
    pub open spec fn name_spec(self) -> Seq<char> {
        match self {
            WorkloadKind::Fib => "fib"@,
            WorkloadKind::FastFib => "fastfib"@,
            WorkloadKind::Lcs => "lcs"@,
            WorkloadKind::Lcs2 => "lcs2"@,
            WorkloadKind::Sum => "sum"@,
        }
    }

    /// Returns the kind's name.
    pub fn name(self) -> (name: &'static str)
        ensures
            name@ == self.name_spec(),
    {
        match self {
            WorkloadKind::Fib => "fib",
            WorkloadKind::FastFib => "fastfib",
            WorkloadKind::Lcs => "lcs",
            WorkloadKind::Lcs2 => "lcs2",
            WorkloadKind::Sum => "sum",
        }
    }

    /// Returns the kind of the given name, if there is one.
    pub fn from_name(name: &str) -> (kind: Option<WorkloadKind>)
        ensures
            match kind {
                Some(k) => k.name_spec() == name@,
                None => forall|k: WorkloadKind| k.name_spec() != name@,
            },
    {
        if same_text(name, "fib") {
            Some(WorkloadKind::Fib)
        } else if same_text(name, "fastfib") {
            Some(WorkloadKind::FastFib)
        } else if same_text(name, "lcs") {
            Some(WorkloadKind::Lcs)
        } else if same_text(name, "lcs2") {
            Some(WorkloadKind::Lcs2)
        } else if same_text(name, "sum") {
            Some(WorkloadKind::Sum)
        } else {
            None
        }
    }

    /// Whether the kind takes two texts, rather than one number, as input.
    pub open spec fn takes_texts(self) -> bool {
        self == WorkloadKind::Lcs || self == WorkloadKind::Lcs2
    }
}

/// No two kinds share a name: a name tells the kind.
pub proof fn lemma_kind_names_differ(a: WorkloadKind, b: WorkloadKind)
    requires
        a.name_spec() == b.name_spec(),
    ensures
        a == b,
{
    reveal_strlit("fib");
    reveal_strlit("fastfib");
    reveal_strlit("lcs");
    reveal_strlit("lcs2");
    reveal_strlit("sum");
    let (x, y) = (a.name_spec(), b.name_spec());
    assert(x.len() == y.len());
    assert(x[0] == y[0]);
}

impl Workload {
    /// Returns the computation that the workload asks for.
    pub fn kind(&self) -> (kind: WorkloadKind)
        ensures
            kind == self@.kind(),
    {
        match self {
            Workload::Fib { .. } => WorkloadKind::Fib,
            Workload::FastFib { .. } => WorkloadKind::FastFib,
            Workload::Lcs { .. } => WorkloadKind::Lcs,
            Workload::Lcs2 { .. } => WorkloadKind::Lcs2,
            Workload::Sum { .. } => WorkloadKind::Sum,
        }
    }

    /// Runs the workload's kernel on its input, outside of any proving
    /// backend.
    pub fn evaluate(&self) -> (out: Output)
        ensures
            out@ == self@.expected(),
    {
        match self {
            Workload::Fib { n } => Output::Number(fib(*n)),
            Workload::FastFib { n } => Output::Number(fastfib(*n)),
            Workload::Lcs { a, b } => Output::Text(crate::lcs::lcs_dyn(a.as_str(), b.as_str())),
            Workload::Lcs2 { a, b } => Output::Text(crate::lcs2::lcs_dyn(a.as_str(), b.as_str())),
            Workload::Sum { n } => Output::Number(sum_below(*n)),
        }
    }

    /// Tells whether two workloads are the same computation on the same
    /// input.
    pub fn same(&self, other: &Workload) -> (same: bool)
        ensures
            same == (self@ == other@),
    {
        match self {
            Workload::Fib { n } => match other {
                Workload::Fib { n: m } => *n == *m,
                _ => false,
            },
            Workload::FastFib { n } => match other {
                Workload::FastFib { n: m } => *n == *m,
                _ => false,
            },
            Workload::Lcs { a, b } => match other {
                Workload::Lcs { a: c, b: d } => *a == *c && *b == *d,
                _ => false,
            },
            Workload::Lcs2 { a, b } => match other {
                Workload::Lcs2 { a: c, b: d } => *a == *c && *b == *d,
                _ => false,
            },
            Workload::Sum { n } => match other {
                Workload::Sum { n: m } => *n == *m,
                _ => false,
            },
        }
    }

    /// Returns a copy of the workload.
    pub fn duplicate(&self) -> (copy: Workload)
        ensures
            copy@ == self@,
    {
        match self {
            Workload::Fib { n } => Workload::Fib { n: *n },
            Workload::FastFib { n } => Workload::FastFib { n: *n },
            Workload::Lcs { a, b } => Workload::Lcs { a: a.clone(), b: b.clone() },
            Workload::Lcs2 { a, b } => Workload::Lcs2 { a: a.clone(), b: b.clone() },
            Workload::Sum { n } => Workload::Sum { n: *n },
        }
    }
}

impl Output {
    /// Tells whether two outputs are the same value.
    pub fn same(&self, other: &Output) -> (same: bool)
        ensures
            same == (self@ == other@),
    {
        match self {
            Output::Number(x) => match other {
                Output::Number(y) => *x == *y,
                Output::Text(_) => false,
            },
            Output::Text(s) => match other {
                Output::Number(_) => false,
                Output::Text(t) => *s == *t,
            },
        }
    }

    /// Returns a copy of the output.
    pub fn duplicate(&self) -> (copy: Output)
        ensures
            copy@ == self@,
    {
        match self {
            Output::Number(n) => Output::Number(*n),
            Output::Text(t) => Output::Text(t.clone()),
        }
    }
}

} // verus!
