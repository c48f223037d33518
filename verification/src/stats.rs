//! The record of a verified run: which program ran on what, how long each
//! phase took, and what the backend tells of its execution trace.

use vstd::prelude::*;
use vstd::string::StringExecFns;
use crate::text::{push_char, same_text};
use crate::workload::{Workload, WorkloadKind, WorkloadView};

verus! {

/// The proving engines that a run can drive.
#[derive(Clone, Copy, Debug, PartialEq, Eq, Structural)]
pub enum Backend {
    Jolt,
    Risc0,
    Sp1,
    Sphinx,
    Lurk,
    Loam,
}

impl Backend {
    /// The backend's name, as it shows in program names.
    pub open spec fn name_spec(self) -> Seq<char> {
        match self {
            Backend::Jolt => "jolt"@,
            Backend::Risc0 => "risc0"@,
            Backend::Sp1 => "sp1"@,
            Backend::Sphinx => "sphinx"@,
            Backend::Lurk => "lurk"@,
            Backend::Loam => "loam"@,
        }
    }

    /// Returns the backend's name.
    pub fn name(self) -> (name: &'static str)
        ensures
            name@ == self.name_spec(),
    {
        match self {
            Backend::Jolt => "jolt",
            Backend::Risc0 => "risc0",
            Backend::Sp1 => "sp1",
            Backend::Sphinx => "sphinx",
            Backend::Lurk => "lurk",
            Backend::Loam => "loam",
        }
    }

    /// Returns the backend of the given name, if there is one.
    pub fn from_name(name: &str) -> (backend: Option<Backend>)
        ensures
            match backend {
                Some(b) => b.name_spec() == name@,
                None => forall|b: Backend| b.name_spec() != name@,
            },
    {
        if same_text(name, "jolt") {
            Some(Backend::Jolt)
        } else if same_text(name, "risc0") {
            Some(Backend::Risc0)
        } else if same_text(name, "sp1") {
            Some(Backend::Sp1)
        } else if same_text(name, "sphinx") {
            Some(Backend::Sphinx)
        } else if same_text(name, "lurk") {
            Some(Backend::Lurk)
        } else if same_text(name, "loam") {
            Some(Backend::Loam)
        } else {
            None
        }
    }

    /// Whether the backend's records tell the shard size, whether
    /// commitments are reconstructed, and the shard batch size.
    pub open spec fn tells_shards(self) -> bool {
        self != Backend::Jolt && self != Backend::Risc0
    }

    /// Whether the backend's records tell the shard chunking multiplier.
    pub open spec fn tells_chunking(self) -> bool {
        self == Backend::Sphinx || self == Backend::Lurk || self == Backend::Loam
    }

    /// Whether the backend's records for the given kind of workload tell
    /// the number of evaluation steps.
    pub open spec fn tells_iterations(self, kind: WorkloadKind) -> bool {
        self == Backend::Lurk && (kind == WorkloadKind::FastFib || kind == WorkloadKind::Sum)
    }
}

/// No two backends share a name: a name tells the backend.
pub proof fn lemma_backend_names_differ(a: Backend, b: Backend)
    requires
        a.name_spec() == b.name_spec(),
    ensures
        a == b,
{
    reveal_strlit("jolt");
    reveal_strlit("risc0");
    reveal_strlit("sp1");
    reveal_strlit("sphinx");
    reveal_strlit("lurk");
    reveal_strlit("loam");
    let (x, y) = (a.name_spec(), b.name_spec());
    assert(x.len() == y.len());
    assert(x[0] == y[0]);
    assert(x[1] == y[1]);
}

/// The name under which a run reports: the workload's name, a hyphen, the
/// backend's name.
pub open spec fn program_name_spec(kind: WorkloadKind, backend: Backend) -> Seq<char> {
    kind.name_spec().push('-') + backend.name_spec()
}

/// Returns the name under which a run of the given kind on the given
/// backend reports.
pub fn program_name(kind: WorkloadKind, backend: Backend) -> (name: String)
    ensures
        name@ == program_name_spec(kind, backend),
{
    let mut name = String::from_str(kind.name());
    push_char(&mut name, '-');
    name.append(backend.name());
    name
}

/// How a prover cuts an execution into shards.
#[derive(Clone, Copy, Debug, PartialEq, Eq, Structural)]
pub struct ShardOptions {
    pub shard_size: usize,
    pub reconstruct_commitments: bool,
    pub shard_batch_size: usize,
}

/// What a backend tells of its execution trace. A field is `None` where the
/// backend has nothing to tell.
#[derive(Clone, Copy, Debug, PartialEq, Eq, Structural)]
pub struct Metadata {
    pub shard_size: Option<usize>,
    pub reconstruct_commitments: Option<bool>,
    pub shard_batch_size: Option<usize>,
    pub shard_chunking_multiplier: Option<usize>,
    pub iterations: Option<usize>,
}

impl Metadata {
    /// The metadata that tells nothing.
    pub open spec fn nothing() -> Metadata {
        Metadata {
            shard_size: None,
            reconstruct_commitments: None,
            shard_batch_size: None,
            shard_chunking_multiplier: None,
            iterations: None,
        }
    }

    /// Returns the metadata that tells nothing.
    pub fn none() -> (meta: Metadata)
        ensures
            meta == Metadata::nothing(),
    {
        Metadata {
            shard_size: None,
            reconstruct_commitments: None,
            shard_batch_size: None,
            shard_chunking_multiplier: None,
            iterations: None,
        }
    }

    /// The metadata that tells of shards and of nothing else.
    pub open spec fn of_shards_spec(options: ShardOptions) -> Metadata {
        Metadata {
            shard_size: Some(options.shard_size),
            reconstruct_commitments: Some(options.reconstruct_commitments),
            shard_batch_size: Some(options.shard_batch_size),
            shard_chunking_multiplier: None,
            iterations: None,
        }
    }

    /// Returns the metadata that tells of shards and of nothing else.
    pub fn of_shards(options: ShardOptions) -> (meta: Metadata)
        ensures
            meta == Metadata::of_shards_spec(options),
    {
        Metadata {
            shard_size: Some(options.shard_size),
            reconstruct_commitments: Some(options.reconstruct_commitments),
            shard_batch_size: Some(options.shard_batch_size),
            shard_chunking_multiplier: None,
            iterations: None,
        }
    }

    /// The part of the metadata that belongs in a record of the given
    /// backend and kind: every other field is dropped.
    pub open spec fn kept_for(self, backend: Backend, kind: WorkloadKind) -> Metadata {
        Metadata {
            shard_size: if backend.tells_shards() {
                self.shard_size
            } else {
                None
            },
            reconstruct_commitments: if backend.tells_shards() {
                self.reconstruct_commitments
            } else {
                None
            },
            shard_batch_size: if backend.tells_shards() {
                self.shard_batch_size
            } else {
                None
            },
            shard_chunking_multiplier: if backend.tells_chunking() {
                self.shard_chunking_multiplier
            } else {
                None
            },
            iterations: if backend.tells_iterations(kind) {
                self.iterations
            } else {
                None
            },
        }
    }

    /// Drops the fields that do not belong in a record of the given backend
    /// and kind.
    pub fn keep_for(self, backend: Backend, kind: WorkloadKind) -> (kept: Metadata)
        ensures
            kept == self.kept_for(backend, kind),
    {
        let shards: bool = match backend {
            Backend::Jolt | Backend::Risc0 => false,
            _ => true,
        };
        let chunking: bool = match backend {
            Backend::Sphinx | Backend::Lurk | Backend::Loam => true,
            _ => false,
        };
        let iterations: bool = match backend {
            Backend::Lurk => match kind {
                WorkloadKind::FastFib | WorkloadKind::Sum => true,
                _ => false,
            },
            _ => false,
        };
        Metadata {
            shard_size: if shards {
                self.shard_size
            } else {
                None
            },
            reconstruct_commitments: if shards {
                self.reconstruct_commitments
            } else {
                None
            },
            shard_batch_size: if shards {
                self.shard_batch_size
            } else {
                None
            },
            shard_chunking_multiplier: if chunking {
                self.shard_chunking_multiplier
            } else {
                None
            },
            iterations: if iterations {
                self.iterations
            } else {
                None
            },
        }
    }
}

/// Filtering the metadata a second time changes nothing.
pub proof fn lemma_kept_for_idempotent(meta: Metadata, backend: Backend, kind: WorkloadKind)
    ensures
        meta.kept_for(backend, kind).kept_for(backend, kind) == meta.kept_for(backend, kind),
{
}

/// The record of one verified run. Durations are in nanoseconds.
#[derive(Debug, PartialEq, Eq)]
pub struct Stats {
    pub program: String,
    pub workload: Workload,
    pub metadata: Metadata,
    pub prove_nanos: u128,
    pub verify_nanos: u128,
    pub setup_nanos: u128,
}

/// A record as a mathematical value.
pub ghost struct StatsView {
    pub program: Seq<char>,
    pub workload: WorkloadView,
    pub metadata: Metadata,
    pub prove_nanos: u128,
    pub verify_nanos: u128,
    pub setup_nanos: u128,
}

impl View for Stats {
    type V = StatsView;

    open spec fn view(&self) -> StatsView {
        StatsView {
            program: self.program@,
            workload: self.workload@,
            metadata: self.metadata,
            prove_nanos: self.prove_nanos,
            verify_nanos: self.verify_nanos,
            setup_nanos: self.setup_nanos,
        }
    }
}

/// The record of a run of `workload` on `backend` with the given phase
/// durations and what the backend told of its trace.
pub open spec fn record_of(
    backend: Backend,
    workload: WorkloadView,
    setup_nanos: u128,
    prove_nanos: u128,
    verify_nanos: u128,
    told: Metadata,
) -> StatsView {
    StatsView {
        program: program_name_spec(workload.kind(), backend),
        workload,
        metadata: told.kept_for(backend, workload.kind()),
        prove_nanos,
        verify_nanos,
        setup_nanos,
    }
}

impl Stats {
    /// Puts the record of a run together.
    pub fn assemble(
        backend: Backend,
        workload: Workload,
        setup_nanos: u128,
        prove_nanos: u128,
        verify_nanos: u128,
        told: Metadata,
    ) -> (stats: Stats)
        ensures
            stats@ == record_of(backend, workload@, setup_nanos, prove_nanos, verify_nanos, told),
    {
        let kind = workload.kind();
        Stats {
            program: program_name(kind, backend),
            workload,
            metadata: told.keep_for(backend, kind),
            prove_nanos,
            verify_nanos,
            setup_nanos,
        }
    }

    /// Returns a copy of the record.
    pub fn duplicate(&self) -> (copy: Stats)
        ensures
            copy@ == self@,
    {
        Stats {
            program: self.program.clone(),
            workload: self.workload.duplicate(),
            metadata: self.metadata,
            prove_nanos: self.prove_nanos,
            verify_nanos: self.verify_nanos,
            setup_nanos: self.setup_nanos,
        }
    }
}

} // verus!
