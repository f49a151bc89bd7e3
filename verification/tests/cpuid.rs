use intel_features::model::Status;
use intel_features::probes::cpuid::{
    aggregate, build_identity, eligible_cpus, identity_with, parse_cpu_list, physical_core_key,
    physical_counts, read_leaves, read_microcode, scan_core, summarize_types, CoreIdent, CoreScan, CoreType, CpuidProbe,
};
use intel_features::probes::cpuid_table::{bit, CoreLeaves, Regs};
use intel_features::probes::{IoErrorKind, IoFailure, Probe};

fn scan_of(cpu: u32, kind: CoreType, key: Option<u64>) -> CoreScan {
    CoreScan {
        logical_cpu: cpu,
        core_type: kind,
        physical_key: key,
        feats: Vec::new(),
        ident: CoreIdent {
            vendor: String::new(),
            brand: String::new(),
            family: 0,
            model: 0,
            stepping: 0,
        },
    }
}

#[test]
fn cpu_list_supports_sparse_and_high_ids() {
    assert_eq!(
        parse_cpu_list("2-3,1024,4096"),
        Some(vec![2, 3, 1024, 4096])
    );
    assert_eq!(parse_cpu_list("4-2"), None);
    assert_eq!(parse_cpu_list("garbage"), None);
}

#[test]
fn smt_siblings_are_counted_as_one_physical_core() {
    let cores = vec![
        scan_of(2, CoreType::Performance, Some(10)),
        scan_of(6, CoreType::Performance, Some(10)),
        scan_of(9, CoreType::Efficiency, Some(11)),
    ];
    assert_eq!(physical_counts(&cores), (1, 1));
}

#[test]
fn missing_topology_key_does_not_merge_logical_cpus() {
    let cores = vec![
        scan_of(1024, CoreType::Performance, None),
        scan_of(4096, CoreType::Performance, None),
    ];
    assert_eq!(physical_counts(&cores), (2, 0));
}

#[test]
fn cpu_list_edge_cases() {
    assert_eq!(parse_cpu_list(" 0-3,8-11\n"), Some(vec![0, 1, 2, 3, 8, 9, 10, 11]));
    assert_eq!(parse_cpu_list("5,,7"), Some(vec![5, 7]));
    assert_eq!(parse_cpu_list(""), None);
    assert_eq!(parse_cpu_list("1-"), None);
}

fn text(s: &str) -> Result<String, IoFailure> {
    Ok(s.to_string())
}

fn missing() -> Result<String, IoFailure> {
    Err(IoFailure {
        kind: IoErrorKind::NotFound,
        message: "No such file or directory (os error 2)".to_string(),
    })
}

#[test]
fn eligible_cpus_are_allowed_and_online() {
    let status = text("Name:\tx\nCpus_allowed_list:\t0-3\nMems_allowed_list:\t0\n");
    assert_eq!(eligible_cpus(&status, &text("0-1,3\n")), vec![0, 1, 3]);
    assert_eq!(eligible_cpus(&status, &missing()), Vec::<u32>::new());
    assert_eq!(eligible_cpus(&text("Name:\tx\n"), &text("0-3")), Vec::<u32>::new());
}

#[test]
fn microcode_prefers_sysfs_then_cpuinfo() {
    assert_eq!(
        read_microcode(&text("0x11b\n"), &missing()).as_deref(),
        Some("0x11b")
    );
    let cpuinfo = text("processor\t: 0\nmicrocode\t: 0x2b000603\n");
    assert_eq!(
        read_microcode(&missing(), &cpuinfo).as_deref(),
        Some("0x2b000603")
    );
    assert_eq!(read_microcode(&missing(), &text("flags : sse\n")), None);
}

fn zero(leaf: u32, sub: u32) -> Regs {
    Regs {
        leaf,
        sub,
        eax: 0,
        ebx: 0,
        ecx: 0,
        edx: 0,
    }
}

/// Leaves of a GenuineIntel core with leaf 7 and leaf 0x1A available.
fn intel_leaves() -> CoreLeaves {
    // "GenuineIntel" = EBX "Genu", EDX "ineI", ECX "ntel".
    let leaf0 = Regs {
        leaf: 0,
        sub: 0,
        eax: 0x1f,
        ebx: u32::from_le_bytes(*b"Genu"),
        ecx: u32::from_le_bytes(*b"ntel"),
        edx: u32::from_le_bytes(*b"ineI"),
    };
    CoreLeaves {
        leaf0,
        // family 6, model 0xc6 (base 6, extended 0xc), stepping 2; SSE (EDX 25), AES (ECX 25).
        leaf1: Regs {
            leaf: 1,
            sub: 0,
            eax: 0x000c_0662,
            ebx: 0,
            ecx: 1 << 25,
            edx: 1 << 25,
        },
        leaf6: zero(6, 0),
        // AVX2 (EBX 5), hybrid (EDX 15).
        leaf7: Regs {
            leaf: 7,
            sub: 0,
            eax: 0,
            ebx: 1 << 5,
            ecx: 0,
            edx: 1 << 15,
        },
        leaf7_1: zero(7, 1),
        leaf_a: zero(0xa, 0),
        leaf_d_1: zero(0xd, 1),
        leaf_f: zero(0xf, 0),
        leaf_f_1: zero(0xf, 1),
        leaf_10: zero(0x10, 0),
        leaf_10_1: zero(0x10, 1),
        leaf_14: zero(0x14, 0),
        leaf_1a: Regs {
            leaf: 0x1a,
            sub: 0,
            eax: 0x4000_0000,
            ebx: 0,
            ecx: 0,
            edx: 0,
        },
        ext0: Regs {
            leaf: 0x80000000,
            sub: 0,
            eax: 0x8000_0008,
            ebx: 0,
            ecx: 0,
            edx: 0,
        },
        ext1: zero(0x80000001, 0),
        brand0: Regs {
            leaf: 0x80000002,
            sub: 0,
            eax: u32::from_le_bytes(*b"  Te"),
            ebx: u32::from_le_bytes(*b"st C"),
            ecx: u32::from_le_bytes(*b"PU\0\0"),
            edx: 0,
        },
        brand1: zero(0x80000003, 0),
        brand2: zero(0x80000004, 0),
        // SMT level (ECX[15:8] = 1) with shift 1, then the core level; x2APIC id 6.
        topology: vec![
            Regs {
                leaf: 0x1f,
                sub: 0,
                eax: 1,
                ebx: 2,
                ecx: 0x100,
                edx: 6,
            },
            Regs {
                leaf: 0x1f,
                sub: 1,
                eax: 4,
                ebx: 8,
                ecx: 0x201,
                edx: 6,
            },
            zero(0x1f, 2),
        ],
    }
}

#[test]
fn scan_decodes_identity_features_and_core_type() {
    let scan = scan_core(3, &intel_leaves(), &missing(), &missing());
    assert_eq!(scan.logical_cpu, 3);
    assert_eq!(scan.core_type, CoreType::Performance);
    assert_eq!(scan.ident.vendor, "GenuineIntel");
    assert_eq!(scan.ident.brand, "Test CPU");
    assert_eq!((scan.ident.family, scan.ident.model, scan.ident.stepping), (6, 0xc6, 2));
    assert_eq!(scan.physical_key, Some(3));
    let has = |id: &str| scan.feats.iter().find(|f| f.0 == id).unwrap().1;
    assert!(has("sse"));
    assert!(has("aes"));
    assert!(has("avx2"));
    assert!(has("hybrid"));
    assert!(!has("sse2"));
    assert!(!has("avx512f"));
    assert_eq!(scan.feats.len(), CpuidProbe.feature_ids().len());
}

#[test]
fn topology_falls_back_to_sysfs_ids() {
    let mut leaves = intel_leaves();
    leaves.topology = vec![zero(0x1f, 0)];
    assert_eq!(
        physical_core_key(&leaves, &text("1\n"), &text("7\n")),
        Some((1u64 << 32) | 7)
    );
    assert_eq!(physical_core_key(&leaves, &text("x"), &text("7")), None);
}

#[test]
fn unsupported_leaves_read_as_absent() {
    let mut leaves = intel_leaves();
    leaves.leaf0.eax = 1;
    // Without leaf 0xB or 0x1F there is no topology walk.
    leaves.topology = vec![];
    let scan = scan_core(0, &leaves, &missing(), &missing());
    let has = |id: &str| scan.feats.iter().find(|f| f.0 == id).unwrap().1;
    // Leaf 7 features need the leaf; the hybrid bit is read from leaf 7 directly.
    assert!(!has("avx2"));
    assert!(has("hybrid"));
    assert_eq!(scan.core_type, CoreType::Other);
}

#[test]
fn asymmetric_features_name_the_core_types() {
    let p = scan_core(0, &intel_leaves(), &missing(), &missing());
    let mut e_leaves = intel_leaves();
    e_leaves.leaf7.ebx = 0;
    e_leaves.leaf_1a.eax = 0x2000_0000;
    let e = scan_core(1, &e_leaves, &missing(), &missing());
    let out = aggregate(&vec![p, e]);
    let avx2 = out.iter().find(|(id, _)| *id == "avx2").unwrap();
    assert_eq!(avx2.1.status, Status::Present);
    assert_eq!(
        avx2.1.detail.as_deref(),
        Some("leaf 7; asymmetric: 1/2 cores (P-cores only)")
    );
    let sse = out.iter().find(|(id, _)| *id == "sse").unwrap();
    assert_eq!(sse.1.detail.as_deref(), Some("leaf 1"));
    let sse2 = out.iter().find(|(id, _)| *id == "sse2").unwrap();
    assert_eq!(sse2.1.status, Status::Absent);
}

#[test]
fn type_summaries() {
    assert_eq!(summarize_types(&vec![CoreType::Efficiency]), "E-cores only");
    assert_eq!(
        summarize_types(&vec![CoreType::Performance, CoreType::Other]),
        "P-cores only"
    );
    assert_eq!(
        summarize_types(&vec![CoreType::Other, CoreType::Performance, CoreType::Efficiency]),
        "?PE"
    );
}

#[test]
fn no_scanned_core_means_unknown() {
    let out = CpuidProbe.decide(&vec![]);
    assert_eq!(out.len(), CpuidProbe.feature_ids().len());
    assert!(out.iter().all(|(_, d)| d.status == Status::Unknown
        && d.detail.as_deref() == Some("no eligible logical CPU could be scanned")));
}

#[test]
fn identity_of_hybrid_client() {
    let p = scan_core(0, &intel_leaves(), &missing(), &missing());
    let mut e_leaves = intel_leaves();
    e_leaves.leaf_1a.eax = 0x2000_0000;
    e_leaves.topology[0].edx = 16;
    e_leaves.topology[1].edx = 16;
    let e = scan_core(8, &e_leaves, &missing(), &missing());
    let id = build_identity(&vec![p, e], Some("0x11b".to_string()));
    assert_eq!(id.vendor, "GenuineIntel");
    assert_eq!(id.logical_cpus, 2);
    assert_eq!((id.p_cores, id.e_cores), (1, 1));
    assert!(id.hybrid);
    assert_eq!(id.model_info.unwrap().codename, "Arrow Lake");
    assert_eq!(id.max_memory_channels, Some(2));
    assert_eq!(id.microcode.as_deref(), Some("0x11b"));
}

#[test]
fn bit_reads_one_bit() {
    assert!(bit(0b100, 2));
    assert!(!bit(0b100, 1));
    assert!(bit(0x8000_0000, 31));
}

#[test]
fn read_leaves_tags_each_query() {
    let l = read_leaves();
    assert_eq!((l.leaf0.leaf, l.leaf0.sub), (0, 0));
    assert_eq!((l.leaf7.leaf, l.leaf7.sub), (7, 0));
    assert_eq!((l.leaf7_1.leaf, l.leaf7_1.sub), (7, 1));
    assert_eq!((l.leaf_d_1.leaf, l.leaf_d_1.sub), (0xd, 1));
    assert_eq!((l.ext0.leaf, l.ext0.sub), (0x8000_0000, 0));
    assert_eq!((l.brand2.leaf, l.brand2.sub), (0x8000_0004, 0));
    let walked = if l.leaf0.eax >= 0x1f {
        Some(0x1f)
    } else if l.leaf0.eax >= 0xb {
        Some(0xb)
    } else {
        None
    };
    match walked {
        None => assert!(l.topology.is_empty()),
        Some(leaf) => {
            assert!(!l.topology.is_empty() && l.topology.len() <= 32);
            for (k, r) in l.topology.iter().enumerate() {
                assert_eq!((r.leaf, r.sub), (leaf, k as u32));
            }
        }
    }
}

#[test]
fn core_counts_never_exceed_logical_cpus() {
    // Two SMT siblings of one P-core, an E-core, and a CPU of unknown type.
    let cores = vec![
        scan_of(0, CoreType::Performance, Some(1)),
        scan_of(1, CoreType::Performance, Some(1)),
        scan_of(2, CoreType::Efficiency, Some(2)),
        scan_of(3, CoreType::Other, None),
    ];
    let id = identity_with(&cores, None).unwrap();
    assert_eq!((id.p_cores, id.e_cores, id.logical_cpus), (1, 1, 4));
    assert!(id.p_cores + id.e_cores <= id.logical_cpus);
    assert!(identity_with(&Vec::new(), None).is_none());
}
