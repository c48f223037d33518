use zkbench::stats::{program_name, Backend, Metadata, ShardOptions, Stats};
use zkbench::workload::{Output, Workload, WorkloadKind};

const BACKENDS: [Backend; 6] =
    [Backend::Jolt, Backend::Risc0, Backend::Sp1, Backend::Sphinx, Backend::Lurk, Backend::Loam];

const KINDS: [WorkloadKind; 5] = [
    WorkloadKind::Fib,
    WorkloadKind::FastFib,
    WorkloadKind::Lcs,
    WorkloadKind::Lcs2,
    WorkloadKind::Sum,
];

fn everything() -> Metadata {
    Metadata {
        shard_size: Some(1 << 22),
        reconstruct_commitments: Some(true),
        shard_batch_size: Some(16),
        shard_chunking_multiplier: Some(1),
        iterations: Some(4242),
    }
}

#[test]
fn names() {
    assert_eq!(WorkloadKind::Fib.name(), "fib");
    assert_eq!(WorkloadKind::FastFib.name(), "fastfib");
    assert_eq!(WorkloadKind::Lcs.name(), "lcs");
    assert_eq!(WorkloadKind::Lcs2.name(), "lcs2");
    assert_eq!(WorkloadKind::Sum.name(), "sum");
    assert_eq!(Backend::Jolt.name(), "jolt");
    assert_eq!(Backend::Risc0.name(), "risc0");
    assert_eq!(Backend::Sp1.name(), "sp1");
    assert_eq!(Backend::Sphinx.name(), "sphinx");
    assert_eq!(Backend::Lurk.name(), "lurk");
    assert_eq!(Backend::Loam.name(), "loam");
}

#[test]
fn program_names() {
    assert_eq!(program_name(WorkloadKind::Fib, Backend::Jolt), "fib-jolt");
    assert_eq!(program_name(WorkloadKind::FastFib, Backend::Jolt), "fastfib-jolt");
    assert_eq!(program_name(WorkloadKind::Lcs, Backend::Jolt), "lcs-jolt");
    assert_eq!(program_name(WorkloadKind::Sum, Backend::Jolt), "sum-jolt");
    assert_eq!(program_name(WorkloadKind::Fib, Backend::Loam), "fib-loam");
    assert_eq!(program_name(WorkloadKind::FastFib, Backend::Lurk), "fastfib-lurk");
    assert_eq!(program_name(WorkloadKind::Lcs, Backend::Lurk), "lcs-lurk");
    assert_eq!(program_name(WorkloadKind::Sum, Backend::Lurk), "sum-lurk");
    assert_eq!(program_name(WorkloadKind::Fib, Backend::Risc0), "fib-risc0");
    assert_eq!(program_name(WorkloadKind::Lcs2, Backend::Risc0), "lcs2-risc0");
    assert_eq!(program_name(WorkloadKind::Sum, Backend::Risc0), "sum-risc0");
    assert_eq!(program_name(WorkloadKind::Fib, Backend::Sp1), "fib-sp1");
    assert_eq!(program_name(WorkloadKind::Lcs2, Backend::Sp1), "lcs2-sp1");
    assert_eq!(program_name(WorkloadKind::Sum, Backend::Sp1), "sum-sp1");
    assert_eq!(program_name(WorkloadKind::Fib, Backend::Sphinx), "fib-sphinx");
    assert_eq!(program_name(WorkloadKind::Sum, Backend::Sphinx), "sum-sphinx");
}

#[test]
fn program_name_is_kind_hyphen_backend() {
    for kind in KINDS {
        for backend in BACKENDS {
            assert_eq!(program_name(kind, backend), format!("{}-{}", kind.name(), backend.name()));
        }
    }
}

#[test]
fn metadata_none_tells_nothing() {
    let none = Metadata::none();
    assert_eq!(none.shard_size, None);
    assert_eq!(none.reconstruct_commitments, None);
    assert_eq!(none.shard_batch_size, None);
    assert_eq!(none.shard_chunking_multiplier, None);
    assert_eq!(none.iterations, None);
}

#[test]
fn jolt_and_risc0_records_tell_nothing_of_the_trace() {
    for backend in [Backend::Jolt, Backend::Risc0] {
        for kind in KINDS {
            assert_eq!(everything().keep_for(backend, kind), Metadata::none());
        }
    }
}

#[test]
fn sp1_records_tell_of_shards() {
    for kind in KINDS {
        assert_eq!(
            everything().keep_for(Backend::Sp1, kind),
            Metadata {
                shard_size: Some(1 << 22),
                reconstruct_commitments: Some(true),
                shard_batch_size: Some(16),
                shard_chunking_multiplier: None,
                iterations: None,
            }
        );
    }
}

#[test]
fn sphinx_and_loam_records_tell_of_chunking_too() {
    for backend in [Backend::Sphinx, Backend::Loam] {
        for kind in KINDS {
            assert_eq!(
                everything().keep_for(backend, kind),
                Metadata { iterations: None, ..everything() }
            );
        }
    }
}

#[test]
fn lurk_records_tell_of_iterations_for_fastfib_and_sum() {
    for kind in [WorkloadKind::FastFib, WorkloadKind::Sum] {
        assert_eq!(everything().keep_for(Backend::Lurk, kind), everything());
    }
    for kind in [WorkloadKind::Fib, WorkloadKind::Lcs, WorkloadKind::Lcs2] {
        assert_eq!(
            everything().keep_for(Backend::Lurk, kind),
            Metadata { iterations: None, ..everything() }
        );
    }
}

#[test]
fn what_was_not_told_stays_untold() {
    for backend in BACKENDS {
        for kind in KINDS {
            assert_eq!(Metadata::none().keep_for(backend, kind), Metadata::none());
        }
    }
}

#[test]
fn assemble_puts_the_record_together() {
    let stats = Stats::assemble(Backend::Sp1, Workload::Fib { n: 10 }, 1, 2, 3, everything());
    assert_eq!(
        stats,
        Stats {
            program: "fib-sp1".to_string(),
            workload: Workload::Fib { n: 10 },
            metadata: Metadata {
                shard_size: Some(1 << 22),
                reconstruct_commitments: Some(true),
                shard_batch_size: Some(16),
                shard_chunking_multiplier: None,
                iterations: None,
            },
            prove_nanos: 2,
            verify_nanos: 3,
            setup_nanos: 1,
        }
    );
    assert_eq!(stats.duplicate(), stats);
}

#[test]
fn evaluate_runs_the_kernel() {
    assert_eq!(Workload::Fib { n: 10 }.evaluate(), Output::Number(55));
    assert_eq!(Workload::FastFib { n: 94 }.evaluate(), Output::Number(1293530146158671551));
    assert_eq!(Workload::Sum { n: 100000 }.evaluate(), Output::Number(4999950000));
    assert_eq!(
        Workload::Lcs { a: "ABCBDAB".to_string(), b: "BDCABA".to_string() }.evaluate(),
        Output::Text("BDAB".to_string())
    );
    assert_eq!(
        Workload::Lcs2 { a: "ABCBDAB".to_string(), b: "BDCABA".to_string() }.evaluate(),
        Output::Text("BCBA".to_string())
    );
}

#[test]
fn outputs_compare_by_value() {
    assert!(Output::Number(5).same(&Output::Number(5)));
    assert!(!Output::Number(5).same(&Output::Number(6)));
    assert!(Output::Text("ab".to_string()).same(&Output::Text("ab".to_string())));
    assert!(!Output::Text("ab".to_string()).same(&Output::Text("ba".to_string())));
    assert!(!Output::Text("5".to_string()).same(&Output::Number(5)));
    assert!(!Output::Number(5).same(&Output::Text("5".to_string())));
}

#[test]
fn duplicates_are_equal() {
    for workload in [
        Workload::Fib { n: 1 },
        Workload::FastFib { n: 2 },
        Workload::Lcs { a: "x".to_string(), b: "y".to_string() },
        Workload::Lcs2 { a: "x".to_string(), b: "y".to_string() },
        Workload::Sum { n: 3 },
    ] {
        assert_eq!(workload.duplicate(), workload);
    }
    assert_eq!(Output::Number(7).duplicate(), Output::Number(7));
    assert_eq!(Output::Text("t".to_string()).duplicate(), Output::Text("t".to_string()));
}

#[test]
fn workloads_compare_by_value() {
    let texts = |a: &str, b: &str| Workload::Lcs { a: a.to_string(), b: b.to_string() };
    assert!(Workload::Fib { n: 5 }.same(&Workload::Fib { n: 5 }));
    assert!(!Workload::Fib { n: 5 }.same(&Workload::Fib { n: 6 }));
    assert!(!Workload::Fib { n: 5 }.same(&Workload::FastFib { n: 5 }));
    assert!(!Workload::Sum { n: 5 }.same(&Workload::Fib { n: 5 }));
    assert!(Workload::Sum { n: 0 }.same(&Workload::Sum { n: 0 }));
    assert!(texts("a", "b").same(&texts("a", "b")));
    assert!(!texts("a", "b").same(&texts("b", "a")));
    assert!(!texts("a", "b").same(&texts("a", "")));
    assert!(!texts("a", "b").same(&Workload::Lcs2 { a: "a".to_string(), b: "b".to_string() }));
}

#[test]
fn metadata_of_shards() {
    let options = ShardOptions { shard_size: 1 << 20, reconstruct_commitments: false, shard_batch_size: 8 };
    assert_eq!(
        Metadata::of_shards(options),
        Metadata {
            shard_size: Some(1 << 20),
            reconstruct_commitments: Some(false),
            shard_batch_size: Some(8),
            shard_chunking_multiplier: None,
            iterations: None,
        }
    );
}

#[test]
fn sp1_tells_of_its_shards() {
    let options = ShardOptions { shard_size: 1 << 21, reconstruct_commitments: true, shard_batch_size: 4 };
    let told = zkbench::sp1::trace_metadata(options);
    assert_eq!(
        told,
        Metadata {
            shard_size: Some(2097152),
            reconstruct_commitments: Some(true),
            shard_batch_size: Some(4),
            shard_chunking_multiplier: None,
            iterations: None,
        }
    );
    for kind in KINDS {
        assert_eq!(told.keep_for(Backend::Sp1, kind), told);
        assert_eq!(told.keep_for(Backend::Risc0, kind), Metadata::none());
    }
    let options = ShardOptions { shard_size: 0, reconstruct_commitments: false, shard_batch_size: usize::MAX };
    let told = zkbench::sp1::trace_metadata(options);
    assert_eq!(told.shard_size, Some(0));
    assert_eq!(told.reconstruct_commitments, Some(false));
    assert_eq!(told.shard_batch_size, Some(usize::MAX));
}

#[test]
fn names_are_found_again() {
    for kind in KINDS {
        assert_eq!(WorkloadKind::from_name(kind.name()), Some(kind));
    }
    for backend in BACKENDS {
        assert_eq!(Backend::from_name(backend.name()), Some(backend));
    }
    for name in ["", "Fib", "fib ", "lcs3", "fibonacci", "risc0"] {
        assert_eq!(WorkloadKind::from_name(name), None, "{:?}", name);
    }
    for name in ["", "Jolt", "risc", "risc00", "sp2", "fib"] {
        assert_eq!(Backend::from_name(name), None, "{:?}", name);
    }
}
