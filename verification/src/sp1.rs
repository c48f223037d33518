//! What a run on SP1 tells of its trace.

use vstd::prelude::*;
use crate::stats::{Backend, Metadata, ShardOptions};
use crate::workload::WorkloadKind;

verus! {

/// Returns what a run on SP1 tells of its trace, given the shard options
/// that its core prover works with: the shard size, whether commitments are
/// reconstructed, and the shard batch size, and nothing else. All of it
/// belongs in the record of an SP1 run, whatever the workload.
pub fn trace_metadata(options: ShardOptions) -> (told: Metadata)
    ensures
        told == Metadata::of_shards_spec(options),
        forall|kind: WorkloadKind| #[trigger] told.kept_for(Backend::Sp1, kind) == told,
{
    Metadata::of_shards(options)
}

} // verus!
