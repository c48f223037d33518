//! Workload parameters: the keys under which a run looks for overrides, the
//! defaults it falls back to, and how it reads what it finds.

use vstd::prelude::*;
use vstd::string::StringExecFns;
use crate::decimal::{parse, parse_u64};
use crate::workload::{Workload, WorkloadKind, WorkloadView};

verus! {

/// The parameter of the linear Fibonacci workload where none is set.
pub const DEFAULT_FIB_ARG: u64 = 100000;

/// The parameter of the fast Fibonacci workload where none is set.
pub const DEFAULT_FASTFIB_ARG: u64 = u64::MAX - 1;

/// The parameter of the summation workload where none is set.
pub const DEFAULT_SUM_ARG: u64 = 100000;

/// The first text of a longest common subsequence workload where none is set.
pub const DEFAULT_LCS_ARG1: &'static str =
    "When in the Course of human events, it becomes necessary for one people to dissolve the political bands which have connected them with another";

/// The second text of a longest common subsequence workload where none is
/// set.
pub const DEFAULT_LCS_ARG2: &'static str =
    "There must be some kind of way outta here Said the joker to the thief. There's too much confusion. I can't get no relief.";

/// Why a workload's parameters could not be had.
#[derive(Clone, Copy, Debug, PartialEq, Eq, Structural)]
pub enum ConfigError {
    /// The override for a number is set to something that is no number.
    Unparsable { kind: WorkloadKind },
}

/// The views of an optional string.
pub open spec fn text_of(value: Option<String>) -> Option<Seq<char>> {
    match value {
        Some(s) => Some(s@),
        None => None,
    }
}

impl WorkloadKind {
    /// The key of the kind's first, or only, parameter.
    pub open spec fn first_key_spec(self) -> Seq<char> {
        match self {
            WorkloadKind::Fib => "FIB_ARG"@,
            WorkloadKind::FastFib => "FASTFIB_ARG"@,
            WorkloadKind::Lcs => "LCS_ARG1"@,
            WorkloadKind::Lcs2 => "LCS2_ARG1"@,
            WorkloadKind::Sum => "SUM_ARG"@,
        }
    }

    /// The key of the kind's second parameter, for the kinds that take two.
    pub open spec fn second_key_spec(self) -> Option<Seq<char>> {
        match self {
            WorkloadKind::Lcs => Some("LCS_ARG2"@),
            WorkloadKind::Lcs2 => Some("LCS2_ARG2"@),
            _ => None,
        }
    }

    /// Returns the key of the kind's first, or only, parameter.
    pub fn first_key(self) -> (key: &'static str)
        ensures
            key@ == self.first_key_spec(),
    {
        match self {
            WorkloadKind::Fib => "FIB_ARG",
            WorkloadKind::FastFib => "FASTFIB_ARG",
            WorkloadKind::Lcs => "LCS_ARG1",
            WorkloadKind::Lcs2 => "LCS2_ARG1",
            WorkloadKind::Sum => "SUM_ARG",
        }
    }

    /// Returns the key of the kind's second parameter, if it takes two.
    pub fn second_key(self) -> (key: Option<&'static str>)
        ensures
            match key {
                Some(k) => self.second_key_spec() == Some(k@),
                None => self.second_key_spec() is None,
            },
    {
        match self {
            WorkloadKind::Lcs => Some("LCS_ARG2"),
            WorkloadKind::Lcs2 => Some("LCS2_ARG2"),
            _ => None,
        }
    }

    /// The number that a kind with one numeric parameter falls back to.
    pub open spec fn default_number(self) -> u64
        recommends
            !self.takes_texts(),
    {
        match self {
            WorkloadKind::Fib => DEFAULT_FIB_ARG,
            WorkloadKind::FastFib => DEFAULT_FASTFIB_ARG,
            _ => DEFAULT_SUM_ARG,
        }
    }

    /// The workload of this kind with the given number as its parameter.
    pub open spec fn with_number(self, n: u64) -> WorkloadView
        recommends
            !self.takes_texts(),
    {
        match self {
            WorkloadKind::Fib => WorkloadView::Fib { n },
            WorkloadKind::FastFib => WorkloadView::FastFib { n },
            _ => WorkloadView::Sum { n },
        }
    }

    /// The workload of this kind with the given texts as its parameters.
    pub open spec fn with_texts(self, a: Seq<char>, b: Seq<char>) -> WorkloadView
        recommends
            self.takes_texts(),
    {
        match self {
            WorkloadKind::Lcs => WorkloadView::Lcs { a, b },
            _ => WorkloadView::Lcs2 { a, b },
        }
    }
}

/// The workload that a run of the given kind works on, given what is set
/// under the kind's keys. A text is taken as it is. A number must be a
/// numeral; one that is not is an error, never a reason to use the default.
/// What is not set falls back to the default. A kind with a single numeric
/// parameter ignores `second`.
pub open spec fn resolved(
    kind: WorkloadKind,
    first: Option<Seq<char>>,
    second: Option<Seq<char>>,
) -> Result<WorkloadView, ConfigError> {
    if kind.takes_texts() {
        let a = match first {
            Some(text) => text,
            None => DEFAULT_LCS_ARG1@,
        };
        let b = match second {
            Some(text) => text,
            None => DEFAULT_LCS_ARG2@,
        };
        Ok(kind.with_texts(a, b))
    } else {
        match first {
            None => Ok(kind.with_number(kind.default_number())),
            Some(text) => match parse(text) {
                Some(n) => Ok(kind.with_number(n)),
                None => Err(ConfigError::Unparsable { kind }),
            },
        }
    }
}

/// Whatever is set, the workload that comes out is of the kind asked for.
pub proof fn lemma_resolved_kind(
    kind: WorkloadKind,
    first: Option<Seq<char>>,
    second: Option<Seq<char>>,
)
    ensures
        resolved(kind, first, second) matches Ok(workload) ==> workload.kind() == kind,
{
}

/// With nothing set, every kind has a workload: the one with its defaults.
pub proof fn lemma_defaults_resolve(kind: WorkloadKind)
    ensures
        resolved(kind, None, None) is Ok,
{
}

/// Works out the workload of a run from what is set under the kind's keys.
pub fn resolve(kind: WorkloadKind, first: Option<String>, second: Option<String>) -> (outcome:
    Result<Workload, ConfigError>)
    ensures
        match outcome {
            Ok(workload) => resolved(kind, text_of(first), text_of(second)) == Ok::<
                WorkloadView,
                ConfigError,
            >(workload@),
            Err(error) => resolved(kind, text_of(first), text_of(second)) == Err::<
                WorkloadView,
                ConfigError,
            >(error),
        },
{
    match kind {
        WorkloadKind::Lcs | WorkloadKind::Lcs2 => {
            let a: String = match first {
                Some(text) => text,
                None => String::from_str(DEFAULT_LCS_ARG1),
            };
            let b: String = match second {
                Some(text) => text,
                None => String::from_str(DEFAULT_LCS_ARG2),
            };
            match kind {
                WorkloadKind::Lcs => Ok(Workload::Lcs { a, b }),
                _ => Ok(Workload::Lcs2 { a, b }),
            }
        },
        _ => {
            let n: u64 = match first {
                None => match kind {
                    WorkloadKind::Fib => DEFAULT_FIB_ARG,
                    WorkloadKind::FastFib => DEFAULT_FASTFIB_ARG,
                    _ => DEFAULT_SUM_ARG,
                },
                Some(text) => match parse_u64(text.as_str()) {
                    Some(n) => n,
                    None => {
                        return Err(ConfigError::Unparsable { kind });
                    },
                },
            };
            match kind {
                WorkloadKind::Fib => Ok(Workload::Fib { n }),
                WorkloadKind::FastFib => Ok(Workload::FastFib { n }),
                _ => Ok(Workload::Sum { n }),
            }
        },
    }
}

impl ConfigError {
    /// The error in words.
    pub open spec fn message_spec(self) -> Seq<char> {
        match self {
            ConfigError::Unparsable { kind } => "Could not parse "@ + kind.first_key_spec(),
        }
    }

    /// Returns the error in words: that the value under the kind's key could
    /// not be parsed.
    pub fn message(self) -> (text: String)
        ensures
            text@ == self.message_spec(),
    {
        match self {
            ConfigError::Unparsable { kind } => {
                let mut text = String::from_str("Could not parse ");
                text.append(kind.first_key());
                text
            },
        }
    }
}

} // verus!
