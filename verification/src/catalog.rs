//! The feature registry: the static list of features the tool knows about.
//!
//! Features carry an optional `/proc/cpuinfo` flag name so the procfs probe can
//! corroborate CPUID and the reporter can flag silicon-vs-kernel disparities. Value
//! features (vulnerability states, MSR readings) render their detail inline.

use vstd::prelude::*;

use crate::model::{Category, FeatureDef, Privilege};

verus! {

/// Number of features in the catalog.
pub const CATALOG_LEN: usize = 208;

pub open spec fn spec_feature(
    id: &'static str,
    name: &'static str,
    category: Category,
    description: &'static str,
    cpuinfo_flag: Option<&'static str>,
    inline_detail: bool,
    min_privilege: Privilege,
) -> FeatureDef {
    FeatureDef { id, name, category, description, min_privilege, cpuinfo_flag, inline_detail }
}

fn feature(
    id: &'static str,
    name: &'static str,
    category: Category,
    description: &'static str,
    cpuinfo_flag: Option<&'static str>,
    inline_detail: bool,
    min_privilege: Privilege,
) -> (r: FeatureDef)
    ensures
        r == spec_feature(id, name, category, description, cpuinfo_flag, inline_detail, min_privilege),
{
    FeatureDef { id, name, category, description, min_privilege, cpuinfo_flag, inline_detail }
}

pub open spec fn catalog_part_0() -> Seq<FeatureDef> {
    seq![
        spec_feature("sse", "SSE", Category::Isa, "128-bit SIMD", Some("sse"), false, Privilege::User),
        spec_feature("sse2", "SSE2", Category::Isa, "128-bit SIMD (x86-64 baseline)", Some("sse2"), false, Privilege::User),
        spec_feature("sse3", "SSE3", Category::Isa, "SIMD3", Some("pni"), false, Privilege::User),
        spec_feature("ssse3", "SSSE3", Category::Isa, "Supplemental SSE3", Some("ssse3"), false, Privilege::User),
        spec_feature("sse4_1", "SSE4.1", Category::Isa, "SIMD4.1", Some("sse4_1"), false, Privilege::User),
        spec_feature("sse4_2", "SSE4.2", Category::Isa, "String/text SIMD + CRC32", Some("sse4_2"), false, Privilege::User),
        spec_feature("avx", "AVX", Category::Isa, "256-bit FP SIMD", Some("avx"), false, Privilege::User),
        spec_feature("avx2", "AVX2", Category::Isa, "256-bit integer SIMD", Some("avx2"), false, Privilege::User),
        spec_feature("fma", "FMA3", Category::Isa, "Fused multiply-add", Some("fma"), false, Privilege::User),
        spec_feature("f16c", "F16C", Category::Isa, "Half-precision float conversion", Some("f16c"), false, Privilege::User),
        spec_feature("avx512f", "AVX-512F", Category::Isa, "512-bit SIMD foundation", Some("avx512f"), false, Privilege::User),
        spec_feature("avx512cd", "AVX-512CD", Category::Isa, "Conflict detection", Some("avx512cd"), false, Privilege::User),
        spec_feature("avx512vl", "AVX-512VL", Category::Isa, "Vector length extensions", Some("avx512vl"), false, Privilege::User),
        spec_feature("avx512dq", "AVX-512DQ", Category::Isa, "Doubleword/quadword", Some("avx512dq"), false, Privilege::User),
        spec_feature("avx512bw", "AVX-512BW", Category::Isa, "Byte/word", Some("avx512bw"), false, Privilege::User),
        spec_feature("avx512ifma", "AVX-512IFMA", Category::Isa, "Integer FMA", Some("avx512ifma"), false, Privilege::User),
    ]
}

pub open spec fn catalog_part_1() -> Seq<FeatureDef> {
    seq![
        spec_feature("avx512vbmi", "AVX-512VBMI", Category::Isa, "Vector byte manipulation", Some("avx512vbmi"), false, Privilege::User),
        spec_feature("avx512vbmi2", "AVX-512VBMI2", Category::Isa, "Vector byte manipulation 2", Some("avx512_vbmi2"), false, Privilege::User),
        spec_feature("avx512vnni", "AVX-512VNNI", Category::Isa, "Vector neural-net instructions", Some("avx512_vnni"), false, Privilege::User),
        spec_feature("avx512bitalg", "AVX-512BITALG", Category::Isa, "Bit algorithms", Some("avx512_bitalg"), false, Privilege::User),
        spec_feature("avx512vpopcntdq", "AVX-512VPOPCNTDQ", Category::Isa, "Vector popcount", Some("avx512_vpopcntdq"), false, Privilege::User),
        spec_feature("avx512vp2intersect", "AVX-512VP2INTERSECT", Category::Isa, "Vector pair intersection", None, false, Privilege::User),
        spec_feature("avx512bf16", "AVX-512BF16", Category::Isa, "bfloat16", None, false, Privilege::User),
        spec_feature("avx512fp16", "AVX-512FP16", Category::Isa, "IEEE half-precision", None, false, Privilege::User),
        spec_feature("avx10", "AVX10", Category::Isa, "Unified AVX successor ISA", None, false, Privilege::User),
        spec_feature("avx_vnni", "AVX-VNNI", Category::Isa, "VEX-encoded VNNI", Some("avx_vnni"), false, Privilege::User),
        spec_feature("avx_vnni_int8", "AVX-VNNI-INT8", Category::Isa, "VEX VNNI int8", None, false, Privilege::User),
        spec_feature("avx_vnni_int16", "AVX-VNNI-INT16", Category::Isa, "VEX VNNI int16", None, false, Privilege::User),
        spec_feature("avx_ifma", "AVX-IFMA", Category::Isa, "VEX integer FMA", None, false, Privilege::User),
        spec_feature("avx_ne_convert", "AVX-NE-CONVERT", Category::Isa, "VEX no-exception convert", None, false, Privilege::User),
        spec_feature("amx_tile", "AMX-TILE", Category::Isa, "Tile architecture", None, false, Privilege::User),
        spec_feature("amx_int8", "AMX-INT8", Category::Isa, "Tile int8 matmul", None, false, Privilege::User),
    ]
}

pub open spec fn catalog_part_2() -> Seq<FeatureDef> {
    seq![
        spec_feature("amx_bf16", "AMX-BF16", Category::Isa, "Tile bfloat16 matmul", None, false, Privilege::User),
        spec_feature("popcnt", "POPCNT", Category::Isa, "Population count", Some("popcnt"), false, Privilege::User),
        spec_feature("lzcnt", "LZCNT/ABM", Category::Isa, "Leading-zero count", Some("abm"), false, Privilege::User),
        spec_feature("bmi1", "BMI1", Category::Isa, "Bit-manipulation 1", Some("bmi1"), false, Privilege::User),
        spec_feature("bmi2", "BMI2", Category::Isa, "Bit-manipulation 2", Some("bmi2"), false, Privilege::User),
        spec_feature("adx", "ADX", Category::Isa, "Multi-precision add-carry", Some("adx"), false, Privilege::User),
        spec_feature("movbe", "MOVBE", Category::Isa, "Big-endian move", Some("movbe"), false, Privilege::User),
        spec_feature("aes", "AES-NI", Category::Isa, "AES encryption/decryption rounds and key generation", Some("aes"), false, Privilege::User),
        spec_feature("vaes", "VAES", Category::Isa, "Vector AES", Some("vaes"), false, Privilege::User),
        spec_feature("pclmulqdq", "PCLMULQDQ", Category::Isa, "Carry-less multiply", Some("pclmulqdq"), false, Privilege::User),
        spec_feature("vpclmulqdq", "VPCLMULQDQ", Category::Isa, "Vector carry-less multiply", Some("vpclmulqdq"), false, Privilege::User),
        spec_feature("sha", "SHA-NI", Category::Isa, "Hardware SHA-1/256", Some("sha_ni"), false, Privilege::User),
        spec_feature("gfni", "GFNI", Category::Isa, "Galois-field new instructions", Some("gfni"), false, Privilege::User),
        spec_feature("rdrand", "RDRAND", Category::Isa, "On-chip DRBG", Some("rdrand"), false, Privilege::User),
        spec_feature("rdseed", "RDSEED", Category::Isa, "On-chip entropy source", Some("rdseed"), false, Privilege::User),
        spec_feature("rtm", "RTM (TSX)", Category::Isa, "Restricted transactional memory", Some("rtm"), false, Privilege::User),
    ]
}

pub open spec fn catalog_part_3() -> Seq<FeatureDef> {
    seq![
        spec_feature("hle", "HLE (TSX)", Category::Isa, "Hardware lock elision (deprecated)", Some("hle"), false, Privilege::User),
        spec_feature("clflushopt", "CLFLUSHOPT", Category::Isa, "Optimized cache-line flush", Some("clflushopt"), false, Privilege::User),
        spec_feature("clwb", "CLWB", Category::Isa, "Cache-line write-back", Some("clwb"), false, Privilege::User),
        spec_feature("movdiri", "MOVDIRI", Category::Isa, "Direct-store doubleword", Some("movdiri"), false, Privilege::User),
        spec_feature("movdir64b", "MOVDIR64B", Category::Isa, "64-byte direct store", Some("movdir64b"), false, Privilege::User),
        spec_feature("serialize", "SERIALIZE", Category::Isa, "Serializing instruction", Some("serialize"), false, Privilege::User),
        spec_feature("waitpkg", "WAITPKG", Category::Isa, "UMONITOR/UMWAIT/TPAUSE", Some("waitpkg"), false, Privilege::User),
        spec_feature("hreset", "HRESET", Category::Isa, "History reset (Thread Director)", None, false, Privilege::User),
        spec_feature("prefetchi", "PREFETCHI", Category::Isa, "Code prefetch to L2", None, false, Privilege::User),
        spec_feature("fsrm", "FSRM", Category::Isa, "Fast short REP MOVSB", Some("fsrm"), false, Privilege::User),
        spec_feature("rdpid", "RDPID", Category::Isa, "Read processor ID", Some("rdpid"), false, Privilege::User),
        spec_feature("cmpxchg16b", "CMPXCHG16B", Category::Isa, "128-bit compare-exchange", Some("cx16"), false, Privilege::User),
        spec_feature("fsgsbase", "FSGSBASE", Category::Isa, "User FS/GS base access", Some("fsgsbase"), false, Privilege::User),
        spec_feature("xsave", "XSAVE", Category::Isa, "Extended state save/restore", Some("xsave"), false, Privilege::User),
        spec_feature("xsaveopt", "XSAVEOPT", Category::Isa, "Optimized XSAVE", Some("xsaveopt"), false, Privilege::User),
        spec_feature("xsavec", "XSAVEC", Category::Isa, "Compacted XSAVE", Some("xsavec"), false, Privilege::User),
    ]
}

pub open spec fn catalog_part_4() -> Seq<FeatureDef> {
    seq![
        spec_feature("xsaves", "XSAVES", Category::Isa, "Supervisor XSAVE", Some("xsaves"), false, Privilege::User),
        spec_feature("nx", "NX / XD", Category::Security, "No-execute page protection", Some("nx"), false, Privilege::User),
        spec_feature("smep", "SMEP", Category::Security, "Supervisor-mode exec prevention", Some("smep"), false, Privilege::User),
        spec_feature("smap", "SMAP", Category::Security, "Supervisor-mode access prevention", Some("smap"), false, Privilege::User),
        spec_feature("umip", "UMIP", Category::Security, "User-mode instruction prevention", Some("umip"), false, Privilege::User),
        spec_feature("pku", "PKU", Category::Security, "User-mode protection keys", Some("pku"), false, Privilege::User),
        spec_feature("ospke", "OSPKE", Category::Security, "OS-enabled protection keys", Some("ospke"), false, Privilege::User),
        spec_feature("cet_ss", "CET Shadow Stack", Category::Security, "Return-address protection", Some("user_shstk"), false, Privilege::User),
        spec_feature("cet_ibt", "CET-IBT", Category::Security, "Indirect branch tracking", Some("ibt"), false, Privilege::User),
        spec_feature("cet_sss", "CET SSS", Category::Security, "Supervisor shadow-stack safe", None, false, Privilege::User),
        spec_feature("mpx", "MPX", Category::Security, "Memory protection extensions (removed)", Some("mpx"), false, Privilege::User),
        spec_feature("sgx", "SGX", Category::Security, "Software Guard Extensions", Some("sgx"), false, Privilege::User),
        spec_feature("sgx_lc", "SGX Launch Control", Category::Security, "Flexible launch control", None, false, Privilege::User),
        spec_feature("tme", "TME", Category::Security, "Total Memory Encryption", None, false, Privilege::User),
        spec_feature("lam", "LAM", Category::Security, "Linear Address Masking", Some("lam"), false, Privilege::User),
        spec_feature("tpm", "TPM", Category::Security, "Trusted Platform Module device present", None, false, Privilege::User),
    ]
}

pub open spec fn catalog_part_5() -> Seq<FeatureDef> {
    seq![
        spec_feature("meltdown", "Meltdown", Category::Vulnerabilities, "Rogue data cache load (CVE-2017-5754)", None, true, Privilege::User),
        spec_feature("spectre_v1", "Spectre v1", Category::Vulnerabilities, "Bounds-check bypass", None, true, Privilege::User),
        spec_feature("spectre_v2", "Spectre v2", Category::Vulnerabilities, "Branch-target injection", None, true, Privilege::User),
        spec_feature("spec_store_bypass", "Spectre v4 (SSB)", Category::Vulnerabilities, "Speculative store bypass", None, true, Privilege::User),
        spec_feature("l1tf", "L1TF", Category::Vulnerabilities, "L1 Terminal Fault / Foreshadow", None, true, Privilege::User),
        spec_feature("mds", "MDS", Category::Vulnerabilities, "Microarchitectural Data Sampling", None, true, Privilege::User),
        spec_feature("tsx_async_abort", "TAA", Category::Vulnerabilities, "TSX Asynchronous Abort", None, true, Privilege::User),
        spec_feature("itlb_multihit", "iTLB Multihit", Category::Vulnerabilities, "Instruction-TLB multihit", None, true, Privilege::User),
        spec_feature("srbds", "SRBDS", Category::Vulnerabilities, "Special Register Buffer Data Sampling", None, true, Privilege::User),
        spec_feature("mmio_stale_data", "MMIO Stale Data", Category::Vulnerabilities, "Processor MMIO stale data", None, true, Privilege::User),
        spec_feature("retbleed", "Retbleed", Category::Vulnerabilities, "Return-stack-buffer underflow", None, true, Privilege::User),
        spec_feature("gather_data_sampling", "GDS (Downfall)", Category::Vulnerabilities, "Gather Data Sampling", None, true, Privilege::User),
        spec_feature("reg_file_data_sampling", "RFDS", Category::Vulnerabilities, "Register File Data Sampling", None, true, Privilege::User),
        spec_feature("spec_rstack_overflow", "SRSO", Category::Vulnerabilities, "Speculative return-stack overflow", None, true, Privilege::User),
        spec_feature("indirect_target_selection", "ITS", Category::Vulnerabilities, "Indirect Target Selection", None, true, Privilege::User),
        spec_feature("ghostwrite", "GhostWrite", Category::Vulnerabilities, "Architectural write vulnerability", None, true, Privilege::User),
    ]
}

pub open spec fn catalog_part_6() -> Seq<FeatureDef> {
    seq![
        spec_feature("old_microcode", "Old Microcode", Category::Vulnerabilities, "Running outdated microcode", None, true, Privilege::User),
        spec_feature("tsa", "TSA", Category::Vulnerabilities, "Transient Scheduler Attack", None, true, Privilege::User),
        spec_feature("vmscape", "VMScape", Category::Vulnerabilities, "Guest-to-host branch-predictor leak", None, true, Privilege::User),
        spec_feature("vuln_other", "Other (uncatalogued)", Category::Vulnerabilities, "Kernel-listed vulns not yet in catalog", None, true, Privilege::User),
        spec_feature("rdcl_no", "RDCL_NO", Category::ArchCapabilities, "Not susceptible to rogue data cache load", None, false, Privilege::Root),
        spec_feature("eibrs", "eIBRS", Category::ArchCapabilities, "Enhanced IBRS (IBRS_ALL)", None, false, Privilege::Root),
        spec_feature("rsba", "RSBA", Category::ArchCapabilities, "RSB alternate prediction on underflow", None, false, Privilege::Root),
        spec_feature("ssb_no", "SSB_NO", Category::ArchCapabilities, "Not susceptible to speculative store bypass", None, false, Privilege::Root),
        spec_feature("mds_no", "MDS_NO", Category::ArchCapabilities, "Not susceptible to MDS", None, false, Privilege::Root),
        spec_feature("if_pschange_no", "PSCHANGE_MC_NO", Category::ArchCapabilities, "No machine check on page-size change", None, false, Privilege::Root),
        spec_feature("tsx_ctrl", "TSX_CTRL", Category::ArchCapabilities, "TSX control MSR available", None, false, Privilege::Root),
        spec_feature("taa_no", "TAA_NO", Category::ArchCapabilities, "Not susceptible to TSX async abort", None, false, Privilege::Root),
        spec_feature("misc_package_ctls", "MISC_PACKAGE_CTLS", Category::ArchCapabilities, "Package-level controls MSR", None, false, Privilege::Root),
        spec_feature("fb_clear", "FB_CLEAR", Category::ArchCapabilities, "VERW clears fill buffers", None, false, Privilege::Root),
        spec_feature("rrsba", "RRSBA", Category::ArchCapabilities, "Restricted RSB alternate prediction", None, false, Privilege::Root),
        spec_feature("bhi_no", "BHI_NO", Category::ArchCapabilities, "Not susceptible to branch history injection", None, false, Privilege::Root),
    ]
}

pub open spec fn catalog_part_7() -> Seq<FeatureDef> {
    seq![
        spec_feature("pbrsb_no", "PBRSB_NO", Category::ArchCapabilities, "Not susceptible to post-barrier RSB predictions", None, false, Privilege::Root),
        spec_feature("gds_no", "GDS_NO", Category::ArchCapabilities, "Not susceptible to gather data sampling", None, false, Privilege::Root),
        spec_feature("rfds_no", "RFDS_NO", Category::ArchCapabilities, "Not susceptible to register file data sampling", None, false, Privilege::Root),
        spec_feature("vmx", "VT-x (VMX)", Category::Virtualization, "Hardware virtualization", Some("vmx"), false, Privilege::User),
        spec_feature("smx", "SMX (TXT)", Category::Virtualization, "Safer Mode Extensions", Some("smx"), false, Privilege::User),
        spec_feature("hypervisor", "Running under hypervisor", Category::Virtualization, "Guest/VM detection", Some("hypervisor"), false, Privilege::User),
        spec_feature("kvm", "KVM usable", Category::Virtualization, "/dev/kvm present and openable", None, false, Privilege::User),
        spec_feature("ept", "EPT", Category::Virtualization, "Extended page tables", None, false, Privilege::Root),
        spec_feature("ept_ad", "EPT A/D bits", Category::Virtualization, "EPT accessed/dirty flags", None, false, Privilege::Root),
        spec_feature("ept_1gb", "EPT 1 GB pages", Category::Virtualization, "1 GB EPT mappings", None, false, Privilege::Root),
        spec_feature("vpid", "VPID", Category::Virtualization, "Virtual-processor identifiers", None, false, Privilege::Root),
        spec_feature("unrestricted_guest", "Unrestricted guest", Category::Virtualization, "Real-mode guest execution", None, false, Privilege::Root),
        spec_feature("apicv", "APICv", Category::Virtualization, "Virtual-interrupt delivery", None, false, Privilege::Root),
        spec_feature("posted_intr", "Posted interrupts", Category::Virtualization, "Posted-interrupt processing", None, false, Privilege::Root),
        spec_feature("vmcs_shadow", "VMCS shadowing", Category::Virtualization, "Nested VMREAD/VMWRITE acceleration", None, false, Privilege::Root),
        spec_feature("vt_d", "VT-d (IOMMU)", Category::Virtualization, "DMA remapping (ACPI DMAR)", None, false, Privilege::User),
    ]
}

pub open spec fn catalog_part_8() -> Seq<FeatureDef> {
    seq![
        spec_feature("eist", "Enhanced SpeedStep", Category::Power, "Software P-state control", Some("est"), false, Privilege::User),
        spec_feature("hwp", "HWP / Speed Shift", Category::Power, "Hardware-managed P-states", Some("hwp"), false, Privilege::User),
        spec_feature("hwp_notification", "HWP Notification", Category::Power, "Interrupt on HWP change", Some("hwp_notify"), false, Privilege::User),
        spec_feature("hwp_epp", "HWP EPP", Category::Power, "Energy/perf preference", Some("hwp_epp"), false, Privilege::User),
        spec_feature("hwp_activity_window", "HWP Activity Window", Category::Power, "HWP window hint", Some("hwp_act_window"), false, Privilege::User),
        spec_feature("hwp_package", "HWP Package Request", Category::Power, "Package-level HWP", Some("hwp_pkg_req"), false, Privilege::User),
        spec_feature("turbo", "Turbo Boost", Category::Power, "Opportunistic frequency boost", Some("ida"), false, Privilege::User),
        spec_feature("turbo3", "Turbo Boost Max 3.0", Category::Power, "Favored-core boost", None, false, Privilege::User),
        spec_feature("arat", "ARAT", Category::Power, "Always-running APIC timer", Some("arat"), false, Privilege::User),
        spec_feature("hdc", "HDC", Category::Power, "Hardware Duty Cycling", Some("hdc"), false, Privilege::User),
        spec_feature("dts", "Digital Thermal Sensor", Category::Power, "On-die thermal sensor", Some("dts"), false, Privilege::User),
        spec_feature("ptm", "Package Thermal Mgmt", Category::Power, "Package-level thermal", Some("pts"), false, Privilege::User),
        spec_feature("epb", "Energy Perf Bias", Category::Power, "IA32_ENERGY_PERF_BIAS", Some("epb"), false, Privilege::User),
        spec_feature("tm2", "Thermal Monitor 2", Category::Power, "TM2 throttling", Some("tm2"), false, Privilege::User),
        spec_feature("pln", "Power Limit Notification", Category::Power, "PLN interrupt", Some("pln"), false, Privilege::User),
        spec_feature("intel_pstate", "intel_pstate driver", Category::Power, "P-state governor driver active", None, false, Privilege::User),
    ]
}

pub open spec fn catalog_part_9() -> Seq<FeatureDef> {
    seq![
        spec_feature("intel_idle", "intel_idle driver", Category::Power, "C-state idle driver active", None, false, Privilege::User),
        spec_feature("rapl", "RAPL powercap", Category::Power, "Running Average Power Limit domains exposed", None, false, Privilege::User),
        spec_feature("s0ix", "S0ix / s2idle", Category::Power, "Low-power S0 idle", None, false, Privilege::User),
        spec_feature("tjmax", "TjMax", Category::Power, "Thermal junction maximum (MSR 0x1A2)", None, true, Privilege::Root),
        spec_feature("pkg_tdp", "Package TDP", Category::Power, "Thermal design power (MSR 0x614)", None, true, Privilege::Root),
        spec_feature("pkg_power_limit", "Package power limits", Category::Power, "PL1/PL2 (MSR 0x610)", None, true, Privilege::Root),
        spec_feature("x2apic", "x2APIC", Category::Topology, "Extended APIC addressing", Some("x2apic"), false, Privilege::User),
        spec_feature("htt", "HTT (multi-logical)", Category::Topology, "Multiple logical CPUs/package", Some("ht"), false, Privilege::User),
        spec_feature("hybrid", "Hybrid cores", Category::Topology, "P-core / E-core hybrid topology", None, false, Privilege::User),
        spec_feature("smt", "SMT / Hyper-Threading", Category::Topology, "Simultaneous multithreading", None, false, Privilege::User),
        spec_feature("invariant_tsc", "Invariant TSC", Category::Topology, "Constant-rate TSC", Some("constant_tsc"), false, Privilege::User),
        spec_feature("tsc_deadline", "TSC-Deadline Timer", Category::Topology, "One-shot APIC deadline", Some("tsc_deadline_timer"), false, Privilege::User),
        spec_feature("monitor", "MONITOR/MWAIT", Category::Topology, "Address-monitor wait", Some("monitor"), false, Privilege::User),
        spec_feature("numa", "NUMA", Category::Topology, "Multiple memory domains (ACPI SRAT)", None, false, Privilege::User),
        spec_feature("hmat", "HMAT", Category::Topology, "Heterogeneous memory attributes (ACPI HMAT)", None, false, Privilege::User),
        spec_feature("arch_perfmon", "Arch PerfMon", Category::Perf, "Architectural PMU", Some("arch_perfmon"), false, Privilege::User),
    ]
}

pub open spec fn catalog_part_10() -> Seq<FeatureDef> {
    seq![
        spec_feature("pdcm", "PDCM", Category::Perf, "Perf/debug capabilities MSR", Some("pdcm"), false, Privilege::User),
        spec_feature("pebs", "PEBS", Category::Perf, "Precise event-based sampling", Some("pebs"), false, Privilege::User),
        spec_feature("bts", "BTS", Category::Perf, "Branch trace store", Some("bts"), false, Privilege::User),
        spec_feature("intel_pt", "Intel PT", Category::Perf, "Processor Trace", Some("intel_pt"), false, Privilege::User),
        spec_feature("arch_lbr", "Arch LBR", Category::Perf, "Architectural last-branch records", Some("arch_lbr"), false, Privilege::User),
        spec_feature("ptwrite", "PTWRITE", Category::Perf, "Write to PT stream", None, false, Privilege::User),
        spec_feature("smi_count", "SMI count", Category::Perf, "System-management interrupts since reset (MSR 0x34)", None, true, Privilege::Root),
        spec_feature("rdt_m", "RDT Monitoring", Category::Rdt, "Cache/bandwidth monitoring (leaf 0xF)", Some("cqm"), false, Privilege::User),
        spec_feature("cmt", "CMT", Category::Rdt, "Cache occupancy (L3) monitoring", None, false, Privilege::User),
        spec_feature("mbm_local", "MBM Local", Category::Rdt, "Local memory-bandwidth monitoring", None, false, Privilege::User),
        spec_feature("mbm_total", "MBM Total", Category::Rdt, "Total memory-bandwidth monitoring", None, false, Privilege::User),
        spec_feature("rdt_a", "RDT Allocation", Category::Rdt, "Cache/bandwidth allocation (leaf 0x10)", Some("rdt_a"), false, Privilege::User),
        spec_feature("cat_l3", "L3 CAT", Category::Rdt, "L3 cache allocation", None, false, Privilege::User),
        spec_feature("cat_l2", "L2 CAT", Category::Rdt, "L2 cache allocation", None, false, Privilege::User),
        spec_feature("cdp_l3", "L3 CDP", Category::Rdt, "L3 code/data prioritization", None, false, Privilege::User),
        spec_feature("mba", "MBA", Category::Rdt, "Memory-bandwidth allocation", None, false, Privilege::User),
    ]
}

pub open spec fn catalog_part_11() -> Seq<FeatureDef> {
    seq![
        spec_feature("resctrl", "resctrl mounted", Category::Rdt, "/sys/fs/resctrl available for use", None, false, Privilege::User),
        spec_feature("igpu", "Integrated GPU", Category::Accelerators, "On-die graphics and media engines", None, false, Privilege::User),
        spec_feature("npu", "NPU / VPU", Category::Accelerators, "Neural processing unit (AI engine)", None, false, Privilege::User),
        spec_feature("gna", "GNA", Category::Accelerators, "Gaussian & Neural Accelerator", None, false, Privilege::User),
        spec_feature("dsa", "DSA", Category::Accelerators, "Data Streaming Accelerator", None, false, Privilege::User),
        spec_feature("iaa", "IAA", Category::Accelerators, "In-Memory Analytics Accelerator", None, false, Privilege::User),
        spec_feature("qat", "QAT", Category::Accelerators, "QuickAssist crypto/compression", None, false, Privilege::User),
        spec_feature("dlb", "DLB", Category::Accelerators, "Dynamic Load Balancer", None, false, Privilege::User),
        spec_feature("pch", "Chipset (PCH)", Category::Platform, "Platform controller hub LPC/eSPI bridge", None, false, Privilege::User),
        spec_feature("csme", "CSME / MEI", Category::Platform, "Management engine interface", None, false, Privilege::User),
        spec_feature("ethernet", "Intel Ethernet", Category::Platform, "Integrated or discrete Intel NIC", None, false, Privilege::User),
        spec_feature("wifi", "Intel Wi-Fi", Category::Platform, "Intel wireless adapter", None, false, Privilege::User),
        spec_feature("bluetooth", "Bluetooth", Category::Platform, "Bluetooth HCI present", None, false, Privilege::User),
        spec_feature("audio", "HD Audio", Category::Platform, "Intel audio controller", None, false, Privilege::User),
        spec_feature("smbus", "SMBus", Category::Platform, "SMBus host controller", None, false, Privilege::User),
        spec_feature("spi_flash", "SPI flash controller", Category::Platform, "Firmware flash controller", None, false, Privilege::User),
    ]
}

pub open spec fn catalog_part_12() -> Seq<FeatureDef> {
    seq![
        spec_feature("thunderbolt", "Thunderbolt / USB4", Category::Platform, "Thunderbolt controller", None, false, Privilege::User),
        spec_feature("vmd", "VMD", Category::Platform, "Volume Management Device", None, false, Privilege::User),
        spec_feature("ipmi", "IPMI BMC", Category::Platform, "Baseboard management controller interface", None, false, Privilege::User),
        spec_feature("pmem", "Persistent memory", Category::Platform, "NVDIMM / Optane (ACPI NFIT)", None, false, Privilege::User),
        spec_feature("cxl", "CXL", Category::Platform, "Compute Express Link (ACPI CEDT)", None, false, Privilege::User),
        spec_feature("hpet", "HPET", Category::Platform, "High Precision Event Timer", None, false, Privilege::User),
        spec_feature("memory_ecc", "ECC memory", Category::Platform, "Error-correcting memory arrays (SMBIOS type 16)", None, false, Privilege::User),
        spec_feature("memory_dimms", "Memory devices", Category::Platform, "Populated DIMMs (SMBIOS type 17)", None, true, Privilege::User),
        spec_feature("uefi_boot", "UEFI boot", Category::Firmware, "Booted via UEFI firmware", None, false, Privilege::User),
        spec_feature("secure_boot", "Secure Boot", Category::Firmware, "UEFI Secure Boot enforcement", None, false, Privilege::User),
        spec_feature("setup_mode", "Setup Mode", Category::Firmware, "UEFI Setup Mode (keys not enrolled)", None, false, Privilege::User),
        spec_feature("esrt", "ESRT", Category::Firmware, "Capsule firmware updates (fwupd)", None, false, Privilege::User),
        spec_feature("wsmt", "WSMT", Category::Firmware, "Windows SMM Security Mitigations table", None, false, Privilege::User),
        spec_feature("msr", "MSR access", Category::Firmware, "Model-specific registers readable", None, false, Privilege::Root),
        spec_feature("feature_control_locked", "FEATURE_CONTROL lock", Category::Firmware, "IA32_FEATURE_CONTROL locked by firmware", None, false, Privilege::Root),
        spec_feature("boot_guard", "Boot Guard", Category::Firmware, "Boot Guard ACM info (MSR 0x13A)", None, true, Privilege::Root),
    ]
}

/// All features known to the tool, in catalog order (the reporter groups and orders
/// them by [`Category`]).
pub open spec fn catalog() -> Seq<FeatureDef> {
    catalog_part_0()
        + catalog_part_1()
        + catalog_part_2()
        + catalog_part_3()
        + catalog_part_4()
        + catalog_part_5()
        + catalog_part_6()
        + catalog_part_7()
        + catalog_part_8()
        + catalog_part_9()
        + catalog_part_10()
        + catalog_part_11()
        + catalog_part_12()
}

fn part_0() -> (r: Vec<FeatureDef>)
    ensures
        r@ == catalog_part_0(),
{
    let mut v: Vec<FeatureDef> = Vec::new();
    v.push(feature("sse", "SSE", Category::Isa, "128-bit SIMD", Some("sse"), false, Privilege::User));
    v.push(feature("sse2", "SSE2", Category::Isa, "128-bit SIMD (x86-64 baseline)", Some("sse2"), false, Privilege::User));
    v.push(feature("sse3", "SSE3", Category::Isa, "SIMD3", Some("pni"), false, Privilege::User));
    v.push(feature("ssse3", "SSSE3", Category::Isa, "Supplemental SSE3", Some("ssse3"), false, Privilege::User));
    v.push(feature("sse4_1", "SSE4.1", Category::Isa, "SIMD4.1", Some("sse4_1"), false, Privilege::User));
    v.push(feature("sse4_2", "SSE4.2", Category::Isa, "String/text SIMD + CRC32", Some("sse4_2"), false, Privilege::User));
    v.push(feature("avx", "AVX", Category::Isa, "256-bit FP SIMD", Some("avx"), false, Privilege::User));
    v.push(feature("avx2", "AVX2", Category::Isa, "256-bit integer SIMD", Some("avx2"), false, Privilege::User));
    v.push(feature("fma", "FMA3", Category::Isa, "Fused multiply-add", Some("fma"), false, Privilege::User));
    v.push(feature("f16c", "F16C", Category::Isa, "Half-precision float conversion", Some("f16c"), false, Privilege::User));
    v.push(feature("avx512f", "AVX-512F", Category::Isa, "512-bit SIMD foundation", Some("avx512f"), false, Privilege::User));
    v.push(feature("avx512cd", "AVX-512CD", Category::Isa, "Conflict detection", Some("avx512cd"), false, Privilege::User));
    v.push(feature("avx512vl", "AVX-512VL", Category::Isa, "Vector length extensions", Some("avx512vl"), false, Privilege::User));
    v.push(feature("avx512dq", "AVX-512DQ", Category::Isa, "Doubleword/quadword", Some("avx512dq"), false, Privilege::User));
    v.push(feature("avx512bw", "AVX-512BW", Category::Isa, "Byte/word", Some("avx512bw"), false, Privilege::User));
    v.push(feature("avx512ifma", "AVX-512IFMA", Category::Isa, "Integer FMA", Some("avx512ifma"), false, Privilege::User));
    assert(v@ =~= catalog_part_0());
    v
}

fn part_1() -> (r: Vec<FeatureDef>)
    ensures
        r@ == catalog_part_1(),
{
    let mut v: Vec<FeatureDef> = Vec::new();
    v.push(feature("avx512vbmi", "AVX-512VBMI", Category::Isa, "Vector byte manipulation", Some("avx512vbmi"), false, Privilege::User));
    v.push(feature("avx512vbmi2", "AVX-512VBMI2", Category::Isa, "Vector byte manipulation 2", Some("avx512_vbmi2"), false, Privilege::User));
    v.push(feature("avx512vnni", "AVX-512VNNI", Category::Isa, "Vector neural-net instructions", Some("avx512_vnni"), false, Privilege::User));
    v.push(feature("avx512bitalg", "AVX-512BITALG", Category::Isa, "Bit algorithms", Some("avx512_bitalg"), false, Privilege::User));
    v.push(feature("avx512vpopcntdq", "AVX-512VPOPCNTDQ", Category::Isa, "Vector popcount", Some("avx512_vpopcntdq"), false, Privilege::User));
    v.push(feature("avx512vp2intersect", "AVX-512VP2INTERSECT", Category::Isa, "Vector pair intersection", None, false, Privilege::User));
    v.push(feature("avx512bf16", "AVX-512BF16", Category::Isa, "bfloat16", None, false, Privilege::User));
    v.push(feature("avx512fp16", "AVX-512FP16", Category::Isa, "IEEE half-precision", None, false, Privilege::User));
    v.push(feature("avx10", "AVX10", Category::Isa, "Unified AVX successor ISA", None, false, Privilege::User));
    v.push(feature("avx_vnni", "AVX-VNNI", Category::Isa, "VEX-encoded VNNI", Some("avx_vnni"), false, Privilege::User));
    v.push(feature("avx_vnni_int8", "AVX-VNNI-INT8", Category::Isa, "VEX VNNI int8", None, false, Privilege::User));
    v.push(feature("avx_vnni_int16", "AVX-VNNI-INT16", Category::Isa, "VEX VNNI int16", None, false, Privilege::User));
    v.push(feature("avx_ifma", "AVX-IFMA", Category::Isa, "VEX integer FMA", None, false, Privilege::User));
    v.push(feature("avx_ne_convert", "AVX-NE-CONVERT", Category::Isa, "VEX no-exception convert", None, false, Privilege::User));
    v.push(feature("amx_tile", "AMX-TILE", Category::Isa, "Tile architecture", None, false, Privilege::User));
    v.push(feature("amx_int8", "AMX-INT8", Category::Isa, "Tile int8 matmul", None, false, Privilege::User));
    assert(v@ =~= catalog_part_1());
    v
}

fn part_2() -> (r: Vec<FeatureDef>)
    ensures
        r@ == catalog_part_2(),
{
    let mut v: Vec<FeatureDef> = Vec::new();
    v.push(feature("amx_bf16", "AMX-BF16", Category::Isa, "Tile bfloat16 matmul", None, false, Privilege::User));
    v.push(feature("popcnt", "POPCNT", Category::Isa, "Population count", Some("popcnt"), false, Privilege::User));
    v.push(feature("lzcnt", "LZCNT/ABM", Category::Isa, "Leading-zero count", Some("abm"), false, Privilege::User));
    v.push(feature("bmi1", "BMI1", Category::Isa, "Bit-manipulation 1", Some("bmi1"), false, Privilege::User));
    v.push(feature("bmi2", "BMI2", Category::Isa, "Bit-manipulation 2", Some("bmi2"), false, Privilege::User));
    v.push(feature("adx", "ADX", Category::Isa, "Multi-precision add-carry", Some("adx"), false, Privilege::User));
    v.push(feature("movbe", "MOVBE", Category::Isa, "Big-endian move", Some("movbe"), false, Privilege::User));
    v.push(feature("aes", "AES-NI", Category::Isa, "AES encryption/decryption rounds and key generation", Some("aes"), false, Privilege::User));
    v.push(feature("vaes", "VAES", Category::Isa, "Vector AES", Some("vaes"), false, Privilege::User));
    v.push(feature("pclmulqdq", "PCLMULQDQ", Category::Isa, "Carry-less multiply", Some("pclmulqdq"), false, Privilege::User));
    v.push(feature("vpclmulqdq", "VPCLMULQDQ", Category::Isa, "Vector carry-less multiply", Some("vpclmulqdq"), false, Privilege::User));
    v.push(feature("sha", "SHA-NI", Category::Isa, "Hardware SHA-1/256", Some("sha_ni"), false, Privilege::User));
    v.push(feature("gfni", "GFNI", Category::Isa, "Galois-field new instructions", Some("gfni"), false, Privilege::User));
    v.push(feature("rdrand", "RDRAND", Category::Isa, "On-chip DRBG", Some("rdrand"), false, Privilege::User));
    v.push(feature("rdseed", "RDSEED", Category::Isa, "On-chip entropy source", Some("rdseed"), false, Privilege::User));
    v.push(feature("rtm", "RTM (TSX)", Category::Isa, "Restricted transactional memory", Some("rtm"), false, Privilege::User));
    assert(v@ =~= catalog_part_2());
    v
}

fn part_3() -> (r: Vec<FeatureDef>)
    ensures
        r@ == catalog_part_3(),
{
    let mut v: Vec<FeatureDef> = Vec::new();
    v.push(feature("hle", "HLE (TSX)", Category::Isa, "Hardware lock elision (deprecated)", Some("hle"), false, Privilege::User));
    v.push(feature("clflushopt", "CLFLUSHOPT", Category::Isa, "Optimized cache-line flush", Some("clflushopt"), false, Privilege::User));
    v.push(feature("clwb", "CLWB", Category::Isa, "Cache-line write-back", Some("clwb"), false, Privilege::User));
    v.push(feature("movdiri", "MOVDIRI", Category::Isa, "Direct-store doubleword", Some("movdiri"), false, Privilege::User));
    v.push(feature("movdir64b", "MOVDIR64B", Category::Isa, "64-byte direct store", Some("movdir64b"), false, Privilege::User));
    v.push(feature("serialize", "SERIALIZE", Category::Isa, "Serializing instruction", Some("serialize"), false, Privilege::User));
    v.push(feature("waitpkg", "WAITPKG", Category::Isa, "UMONITOR/UMWAIT/TPAUSE", Some("waitpkg"), false, Privilege::User));
    v.push(feature("hreset", "HRESET", Category::Isa, "History reset (Thread Director)", None, false, Privilege::User));
    v.push(feature("prefetchi", "PREFETCHI", Category::Isa, "Code prefetch to L2", None, false, Privilege::User));
    v.push(feature("fsrm", "FSRM", Category::Isa, "Fast short REP MOVSB", Some("fsrm"), false, Privilege::User));
    v.push(feature("rdpid", "RDPID", Category::Isa, "Read processor ID", Some("rdpid"), false, Privilege::User));
    v.push(feature("cmpxchg16b", "CMPXCHG16B", Category::Isa, "128-bit compare-exchange", Some("cx16"), false, Privilege::User));
    v.push(feature("fsgsbase", "FSGSBASE", Category::Isa, "User FS/GS base access", Some("fsgsbase"), false, Privilege::User));
    v.push(feature("xsave", "XSAVE", Category::Isa, "Extended state save/restore", Some("xsave"), false, Privilege::User));
    v.push(feature("xsaveopt", "XSAVEOPT", Category::Isa, "Optimized XSAVE", Some("xsaveopt"), false, Privilege::User));
    v.push(feature("xsavec", "XSAVEC", Category::Isa, "Compacted XSAVE", Some("xsavec"), false, Privilege::User));
    assert(v@ =~= catalog_part_3());
    v
}

fn part_4() -> (r: Vec<FeatureDef>)
    ensures
        r@ == catalog_part_4(),
{
    let mut v: Vec<FeatureDef> = Vec::new();
    v.push(feature("xsaves", "XSAVES", Category::Isa, "Supervisor XSAVE", Some("xsaves"), false, Privilege::User));
    v.push(feature("nx", "NX / XD", Category::Security, "No-execute page protection", Some("nx"), false, Privilege::User));
    v.push(feature("smep", "SMEP", Category::Security, "Supervisor-mode exec prevention", Some("smep"), false, Privilege::User));
    v.push(feature("smap", "SMAP", Category::Security, "Supervisor-mode access prevention", Some("smap"), false, Privilege::User));
    v.push(feature("umip", "UMIP", Category::Security, "User-mode instruction prevention", Some("umip"), false, Privilege::User));
    v.push(feature("pku", "PKU", Category::Security, "User-mode protection keys", Some("pku"), false, Privilege::User));
    v.push(feature("ospke", "OSPKE", Category::Security, "OS-enabled protection keys", Some("ospke"), false, Privilege::User));
    v.push(feature("cet_ss", "CET Shadow Stack", Category::Security, "Return-address protection", Some("user_shstk"), false, Privilege::User));
    v.push(feature("cet_ibt", "CET-IBT", Category::Security, "Indirect branch tracking", Some("ibt"), false, Privilege::User));
    v.push(feature("cet_sss", "CET SSS", Category::Security, "Supervisor shadow-stack safe", None, false, Privilege::User));
    v.push(feature("mpx", "MPX", Category::Security, "Memory protection extensions (removed)", Some("mpx"), false, Privilege::User));
    v.push(feature("sgx", "SGX", Category::Security, "Software Guard Extensions", Some("sgx"), false, Privilege::User));
    v.push(feature("sgx_lc", "SGX Launch Control", Category::Security, "Flexible launch control", None, false, Privilege::User));
    v.push(feature("tme", "TME", Category::Security, "Total Memory Encryption", None, false, Privilege::User));
    v.push(feature("lam", "LAM", Category::Security, "Linear Address Masking", Some("lam"), false, Privilege::User));
    v.push(feature("tpm", "TPM", Category::Security, "Trusted Platform Module device present", None, false, Privilege::User));
    assert(v@ =~= catalog_part_4());
    v
}

fn part_5() -> (r: Vec<FeatureDef>)
    ensures
        r@ == catalog_part_5(),
{
    let mut v: Vec<FeatureDef> = Vec::new();
    v.push(feature("meltdown", "Meltdown", Category::Vulnerabilities, "Rogue data cache load (CVE-2017-5754)", None, true, Privilege::User));
    v.push(feature("spectre_v1", "Spectre v1", Category::Vulnerabilities, "Bounds-check bypass", None, true, Privilege::User));
    v.push(feature("spectre_v2", "Spectre v2", Category::Vulnerabilities, "Branch-target injection", None, true, Privilege::User));
    v.push(feature("spec_store_bypass", "Spectre v4 (SSB)", Category::Vulnerabilities, "Speculative store bypass", None, true, Privilege::User));
    v.push(feature("l1tf", "L1TF", Category::Vulnerabilities, "L1 Terminal Fault / Foreshadow", None, true, Privilege::User));
    v.push(feature("mds", "MDS", Category::Vulnerabilities, "Microarchitectural Data Sampling", None, true, Privilege::User));
    v.push(feature("tsx_async_abort", "TAA", Category::Vulnerabilities, "TSX Asynchronous Abort", None, true, Privilege::User));
    v.push(feature("itlb_multihit", "iTLB Multihit", Category::Vulnerabilities, "Instruction-TLB multihit", None, true, Privilege::User));
    v.push(feature("srbds", "SRBDS", Category::Vulnerabilities, "Special Register Buffer Data Sampling", None, true, Privilege::User));
    v.push(feature("mmio_stale_data", "MMIO Stale Data", Category::Vulnerabilities, "Processor MMIO stale data", None, true, Privilege::User));
    v.push(feature("retbleed", "Retbleed", Category::Vulnerabilities, "Return-stack-buffer underflow", None, true, Privilege::User));
    v.push(feature("gather_data_sampling", "GDS (Downfall)", Category::Vulnerabilities, "Gather Data Sampling", None, true, Privilege::User));
    v.push(feature("reg_file_data_sampling", "RFDS", Category::Vulnerabilities, "Register File Data Sampling", None, true, Privilege::User));
    v.push(feature("spec_rstack_overflow", "SRSO", Category::Vulnerabilities, "Speculative return-stack overflow", None, true, Privilege::User));
    v.push(feature("indirect_target_selection", "ITS", Category::Vulnerabilities, "Indirect Target Selection", None, true, Privilege::User));
    v.push(feature("ghostwrite", "GhostWrite", Category::Vulnerabilities, "Architectural write vulnerability", None, true, Privilege::User));
    assert(v@ =~= catalog_part_5());
    v
}

fn part_6() -> (r: Vec<FeatureDef>)
    ensures
        r@ == catalog_part_6(),
{
    let mut v: Vec<FeatureDef> = Vec::new();
    v.push(feature("old_microcode", "Old Microcode", Category::Vulnerabilities, "Running outdated microcode", None, true, Privilege::User));
    v.push(feature("tsa", "TSA", Category::Vulnerabilities, "Transient Scheduler Attack", None, true, Privilege::User));
    v.push(feature("vmscape", "VMScape", Category::Vulnerabilities, "Guest-to-host branch-predictor leak", None, true, Privilege::User));
    v.push(feature("vuln_other", "Other (uncatalogued)", Category::Vulnerabilities, "Kernel-listed vulns not yet in catalog", None, true, Privilege::User));
    v.push(feature("rdcl_no", "RDCL_NO", Category::ArchCapabilities, "Not susceptible to rogue data cache load", None, false, Privilege::Root));
    v.push(feature("eibrs", "eIBRS", Category::ArchCapabilities, "Enhanced IBRS (IBRS_ALL)", None, false, Privilege::Root));
    v.push(feature("rsba", "RSBA", Category::ArchCapabilities, "RSB alternate prediction on underflow", None, false, Privilege::Root));
    v.push(feature("ssb_no", "SSB_NO", Category::ArchCapabilities, "Not susceptible to speculative store bypass", None, false, Privilege::Root));
    v.push(feature("mds_no", "MDS_NO", Category::ArchCapabilities, "Not susceptible to MDS", None, false, Privilege::Root));
    v.push(feature("if_pschange_no", "PSCHANGE_MC_NO", Category::ArchCapabilities, "No machine check on page-size change", None, false, Privilege::Root));
    v.push(feature("tsx_ctrl", "TSX_CTRL", Category::ArchCapabilities, "TSX control MSR available", None, false, Privilege::Root));
    v.push(feature("taa_no", "TAA_NO", Category::ArchCapabilities, "Not susceptible to TSX async abort", None, false, Privilege::Root));
    v.push(feature("misc_package_ctls", "MISC_PACKAGE_CTLS", Category::ArchCapabilities, "Package-level controls MSR", None, false, Privilege::Root));
    v.push(feature("fb_clear", "FB_CLEAR", Category::ArchCapabilities, "VERW clears fill buffers", None, false, Privilege::Root));
    v.push(feature("rrsba", "RRSBA", Category::ArchCapabilities, "Restricted RSB alternate prediction", None, false, Privilege::Root));
    v.push(feature("bhi_no", "BHI_NO", Category::ArchCapabilities, "Not susceptible to branch history injection", None, false, Privilege::Root));
    assert(v@ =~= catalog_part_6());
    v
}

fn part_7() -> (r: Vec<FeatureDef>)
    ensures
        r@ == catalog_part_7(),
{
    let mut v: Vec<FeatureDef> = Vec::new();
    v.push(feature("pbrsb_no", "PBRSB_NO", Category::ArchCapabilities, "Not susceptible to post-barrier RSB predictions", None, false, Privilege::Root));
    v.push(feature("gds_no", "GDS_NO", Category::ArchCapabilities, "Not susceptible to gather data sampling", None, false, Privilege::Root));
    v.push(feature("rfds_no", "RFDS_NO", Category::ArchCapabilities, "Not susceptible to register file data sampling", None, false, Privilege::Root));
    v.push(feature("vmx", "VT-x (VMX)", Category::Virtualization, "Hardware virtualization", Some("vmx"), false, Privilege::User));
    v.push(feature("smx", "SMX (TXT)", Category::Virtualization, "Safer Mode Extensions", Some("smx"), false, Privilege::User));
    v.push(feature("hypervisor", "Running under hypervisor", Category::Virtualization, "Guest/VM detection", Some("hypervisor"), false, Privilege::User));
    v.push(feature("kvm", "KVM usable", Category::Virtualization, "/dev/kvm present and openable", None, false, Privilege::User));
    v.push(feature("ept", "EPT", Category::Virtualization, "Extended page tables", None, false, Privilege::Root));
    v.push(feature("ept_ad", "EPT A/D bits", Category::Virtualization, "EPT accessed/dirty flags", None, false, Privilege::Root));
    v.push(feature("ept_1gb", "EPT 1 GB pages", Category::Virtualization, "1 GB EPT mappings", None, false, Privilege::Root));
    v.push(feature("vpid", "VPID", Category::Virtualization, "Virtual-processor identifiers", None, false, Privilege::Root));
    v.push(feature("unrestricted_guest", "Unrestricted guest", Category::Virtualization, "Real-mode guest execution", None, false, Privilege::Root));
    v.push(feature("apicv", "APICv", Category::Virtualization, "Virtual-interrupt delivery", None, false, Privilege::Root));
    v.push(feature("posted_intr", "Posted interrupts", Category::Virtualization, "Posted-interrupt processing", None, false, Privilege::Root));
    v.push(feature("vmcs_shadow", "VMCS shadowing", Category::Virtualization, "Nested VMREAD/VMWRITE acceleration", None, false, Privilege::Root));
    v.push(feature("vt_d", "VT-d (IOMMU)", Category::Virtualization, "DMA remapping (ACPI DMAR)", None, false, Privilege::User));
    assert(v@ =~= catalog_part_7());
    v
}

fn part_8() -> (r: Vec<FeatureDef>)
    ensures
        r@ == catalog_part_8(),
{
    let mut v: Vec<FeatureDef> = Vec::new();
    v.push(feature("eist", "Enhanced SpeedStep", Category::Power, "Software P-state control", Some("est"), false, Privilege::User));
    v.push(feature("hwp", "HWP / Speed Shift", Category::Power, "Hardware-managed P-states", Some("hwp"), false, Privilege::User));
    v.push(feature("hwp_notification", "HWP Notification", Category::Power, "Interrupt on HWP change", Some("hwp_notify"), false, Privilege::User));
    v.push(feature("hwp_epp", "HWP EPP", Category::Power, "Energy/perf preference", Some("hwp_epp"), false, Privilege::User));
    v.push(feature("hwp_activity_window", "HWP Activity Window", Category::Power, "HWP window hint", Some("hwp_act_window"), false, Privilege::User));
    v.push(feature("hwp_package", "HWP Package Request", Category::Power, "Package-level HWP", Some("hwp_pkg_req"), false, Privilege::User));
    v.push(feature("turbo", "Turbo Boost", Category::Power, "Opportunistic frequency boost", Some("ida"), false, Privilege::User));
    v.push(feature("turbo3", "Turbo Boost Max 3.0", Category::Power, "Favored-core boost", None, false, Privilege::User));
    v.push(feature("arat", "ARAT", Category::Power, "Always-running APIC timer", Some("arat"), false, Privilege::User));
    v.push(feature("hdc", "HDC", Category::Power, "Hardware Duty Cycling", Some("hdc"), false, Privilege::User));
    v.push(feature("dts", "Digital Thermal Sensor", Category::Power, "On-die thermal sensor", Some("dts"), false, Privilege::User));
    v.push(feature("ptm", "Package Thermal Mgmt", Category::Power, "Package-level thermal", Some("pts"), false, Privilege::User));
    v.push(feature("epb", "Energy Perf Bias", Category::Power, "IA32_ENERGY_PERF_BIAS", Some("epb"), false, Privilege::User));
    v.push(feature("tm2", "Thermal Monitor 2", Category::Power, "TM2 throttling", Some("tm2"), false, Privilege::User));
    v.push(feature("pln", "Power Limit Notification", Category::Power, "PLN interrupt", Some("pln"), false, Privilege::User));
    v.push(feature("intel_pstate", "intel_pstate driver", Category::Power, "P-state governor driver active", None, false, Privilege::User));
    assert(v@ =~= catalog_part_8());
    v
}

fn part_9() -> (r: Vec<FeatureDef>)
    ensures
        r@ == catalog_part_9(),
{
    let mut v: Vec<FeatureDef> = Vec::new();
    v.push(feature("intel_idle", "intel_idle driver", Category::Power, "C-state idle driver active", None, false, Privilege::User));
    v.push(feature("rapl", "RAPL powercap", Category::Power, "Running Average Power Limit domains exposed", None, false, Privilege::User));
    v.push(feature("s0ix", "S0ix / s2idle", Category::Power, "Low-power S0 idle", None, false, Privilege::User));
    v.push(feature("tjmax", "TjMax", Category::Power, "Thermal junction maximum (MSR 0x1A2)", None, true, Privilege::Root));
    v.push(feature("pkg_tdp", "Package TDP", Category::Power, "Thermal design power (MSR 0x614)", None, true, Privilege::Root));
    v.push(feature("pkg_power_limit", "Package power limits", Category::Power, "PL1/PL2 (MSR 0x610)", None, true, Privilege::Root));
    v.push(feature("x2apic", "x2APIC", Category::Topology, "Extended APIC addressing", Some("x2apic"), false, Privilege::User));
    v.push(feature("htt", "HTT (multi-logical)", Category::Topology, "Multiple logical CPUs/package", Some("ht"), false, Privilege::User));
    v.push(feature("hybrid", "Hybrid cores", Category::Topology, "P-core / E-core hybrid topology", None, false, Privilege::User));
    v.push(feature("smt", "SMT / Hyper-Threading", Category::Topology, "Simultaneous multithreading", None, false, Privilege::User));
    v.push(feature("invariant_tsc", "Invariant TSC", Category::Topology, "Constant-rate TSC", Some("constant_tsc"), false, Privilege::User));
    v.push(feature("tsc_deadline", "TSC-Deadline Timer", Category::Topology, "One-shot APIC deadline", Some("tsc_deadline_timer"), false, Privilege::User));
    v.push(feature("monitor", "MONITOR/MWAIT", Category::Topology, "Address-monitor wait", Some("monitor"), false, Privilege::User));
    v.push(feature("numa", "NUMA", Category::Topology, "Multiple memory domains (ACPI SRAT)", None, false, Privilege::User));
    v.push(feature("hmat", "HMAT", Category::Topology, "Heterogeneous memory attributes (ACPI HMAT)", None, false, Privilege::User));
    v.push(feature("arch_perfmon", "Arch PerfMon", Category::Perf, "Architectural PMU", Some("arch_perfmon"), false, Privilege::User));
    assert(v@ =~= catalog_part_9());
    v
}

fn part_10() -> (r: Vec<FeatureDef>)
    ensures
        r@ == catalog_part_10(),
{
    let mut v: Vec<FeatureDef> = Vec::new();
    v.push(feature("pdcm", "PDCM", Category::Perf, "Perf/debug capabilities MSR", Some("pdcm"), false, Privilege::User));
    v.push(feature("pebs", "PEBS", Category::Perf, "Precise event-based sampling", Some("pebs"), false, Privilege::User));
    v.push(feature("bts", "BTS", Category::Perf, "Branch trace store", Some("bts"), false, Privilege::User));
    v.push(feature("intel_pt", "Intel PT", Category::Perf, "Processor Trace", Some("intel_pt"), false, Privilege::User));
    v.push(feature("arch_lbr", "Arch LBR", Category::Perf, "Architectural last-branch records", Some("arch_lbr"), false, Privilege::User));
    v.push(feature("ptwrite", "PTWRITE", Category::Perf, "Write to PT stream", None, false, Privilege::User));
    v.push(feature("smi_count", "SMI count", Category::Perf, "System-management interrupts since reset (MSR 0x34)", None, true, Privilege::Root));
    v.push(feature("rdt_m", "RDT Monitoring", Category::Rdt, "Cache/bandwidth monitoring (leaf 0xF)", Some("cqm"), false, Privilege::User));
    v.push(feature("cmt", "CMT", Category::Rdt, "Cache occupancy (L3) monitoring", None, false, Privilege::User));
    v.push(feature("mbm_local", "MBM Local", Category::Rdt, "Local memory-bandwidth monitoring", None, false, Privilege::User));
    v.push(feature("mbm_total", "MBM Total", Category::Rdt, "Total memory-bandwidth monitoring", None, false, Privilege::User));
    v.push(feature("rdt_a", "RDT Allocation", Category::Rdt, "Cache/bandwidth allocation (leaf 0x10)", Some("rdt_a"), false, Privilege::User));
    v.push(feature("cat_l3", "L3 CAT", Category::Rdt, "L3 cache allocation", None, false, Privilege::User));
    v.push(feature("cat_l2", "L2 CAT", Category::Rdt, "L2 cache allocation", None, false, Privilege::User));
    v.push(feature("cdp_l3", "L3 CDP", Category::Rdt, "L3 code/data prioritization", None, false, Privilege::User));
    v.push(feature("mba", "MBA", Category::Rdt, "Memory-bandwidth allocation", None, false, Privilege::User));
    assert(v@ =~= catalog_part_10());
    v
}

fn part_11() -> (r: Vec<FeatureDef>)
    ensures
        r@ == catalog_part_11(),
{
    let mut v: Vec<FeatureDef> = Vec::new();
    v.push(feature("resctrl", "resctrl mounted", Category::Rdt, "/sys/fs/resctrl available for use", None, false, Privilege::User));
    v.push(feature("igpu", "Integrated GPU", Category::Accelerators, "On-die graphics and media engines", None, false, Privilege::User));
    v.push(feature("npu", "NPU / VPU", Category::Accelerators, "Neural processing unit (AI engine)", None, false, Privilege::User));
    v.push(feature("gna", "GNA", Category::Accelerators, "Gaussian & Neural Accelerator", None, false, Privilege::User));
    v.push(feature("dsa", "DSA", Category::Accelerators, "Data Streaming Accelerator", None, false, Privilege::User));
    v.push(feature("iaa", "IAA", Category::Accelerators, "In-Memory Analytics Accelerator", None, false, Privilege::User));
    v.push(feature("qat", "QAT", Category::Accelerators, "QuickAssist crypto/compression", None, false, Privilege::User));
    v.push(feature("dlb", "DLB", Category::Accelerators, "Dynamic Load Balancer", None, false, Privilege::User));
    v.push(feature("pch", "Chipset (PCH)", Category::Platform, "Platform controller hub LPC/eSPI bridge", None, false, Privilege::User));
    v.push(feature("csme", "CSME / MEI", Category::Platform, "Management engine interface", None, false, Privilege::User));
    v.push(feature("ethernet", "Intel Ethernet", Category::Platform, "Integrated or discrete Intel NIC", None, false, Privilege::User));
    v.push(feature("wifi", "Intel Wi-Fi", Category::Platform, "Intel wireless adapter", None, false, Privilege::User));
    v.push(feature("bluetooth", "Bluetooth", Category::Platform, "Bluetooth HCI present", None, false, Privilege::User));
    v.push(feature("audio", "HD Audio", Category::Platform, "Intel audio controller", None, false, Privilege::User));
    v.push(feature("smbus", "SMBus", Category::Platform, "SMBus host controller", None, false, Privilege::User));
    v.push(feature("spi_flash", "SPI flash controller", Category::Platform, "Firmware flash controller", None, false, Privilege::User));
    assert(v@ =~= catalog_part_11());
    v
}

fn part_12() -> (r: Vec<FeatureDef>)
    ensures
        r@ == catalog_part_12(),
{
    let mut v: Vec<FeatureDef> = Vec::new();
    v.push(feature("thunderbolt", "Thunderbolt / USB4", Category::Platform, "Thunderbolt controller", None, false, Privilege::User));
    v.push(feature("vmd", "VMD", Category::Platform, "Volume Management Device", None, false, Privilege::User));
    v.push(feature("ipmi", "IPMI BMC", Category::Platform, "Baseboard management controller interface", None, false, Privilege::User));
    v.push(feature("pmem", "Persistent memory", Category::Platform, "NVDIMM / Optane (ACPI NFIT)", None, false, Privilege::User));
    v.push(feature("cxl", "CXL", Category::Platform, "Compute Express Link (ACPI CEDT)", None, false, Privilege::User));
    v.push(feature("hpet", "HPET", Category::Platform, "High Precision Event Timer", None, false, Privilege::User));
    v.push(feature("memory_ecc", "ECC memory", Category::Platform, "Error-correcting memory arrays (SMBIOS type 16)", None, false, Privilege::User));
    v.push(feature("memory_dimms", "Memory devices", Category::Platform, "Populated DIMMs (SMBIOS type 17)", None, true, Privilege::User));
    v.push(feature("uefi_boot", "UEFI boot", Category::Firmware, "Booted via UEFI firmware", None, false, Privilege::User));
    v.push(feature("secure_boot", "Secure Boot", Category::Firmware, "UEFI Secure Boot enforcement", None, false, Privilege::User));
    v.push(feature("setup_mode", "Setup Mode", Category::Firmware, "UEFI Setup Mode (keys not enrolled)", None, false, Privilege::User));
    v.push(feature("esrt", "ESRT", Category::Firmware, "Capsule firmware updates (fwupd)", None, false, Privilege::User));
    v.push(feature("wsmt", "WSMT", Category::Firmware, "Windows SMM Security Mitigations table", None, false, Privilege::User));
    v.push(feature("msr", "MSR access", Category::Firmware, "Model-specific registers readable", None, false, Privilege::Root));
    v.push(feature("feature_control_locked", "FEATURE_CONTROL lock", Category::Firmware, "IA32_FEATURE_CONTROL locked by firmware", None, false, Privilege::Root));
    v.push(feature("boot_guard", "Boot Guard", Category::Firmware, "Boot Guard ACM info (MSR 0x13A)", None, true, Privilege::Root));
    assert(v@ =~= catalog_part_12());
    v
}

/// All features known to the tool.
pub fn features() -> (r: Vec<FeatureDef>)
    ensures
        r@ == catalog(),
        r@.len() == CATALOG_LEN,
{
    let mut v = part_0();
    let mut p1 = part_1();
    v.append(&mut p1);
    let mut p2 = part_2();
    v.append(&mut p2);
    let mut p3 = part_3();
    v.append(&mut p3);
    let mut p4 = part_4();
    v.append(&mut p4);
    let mut p5 = part_5();
    v.append(&mut p5);
    let mut p6 = part_6();
    v.append(&mut p6);
    let mut p7 = part_7();
    v.append(&mut p7);
    let mut p8 = part_8();
    v.append(&mut p8);
    let mut p9 = part_9();
    v.append(&mut p9);
    let mut p10 = part_10();
    v.append(&mut p10);
    let mut p11 = part_11();
    v.append(&mut p11);
    let mut p12 = part_12();
    v.append(&mut p12);
    v
}

/// Index of the first feature of `defs` whose id is `id`.
pub open spec fn first_with_id(defs: Seq<FeatureDef>, id: Seq<char>) -> Option<int>
    decreases defs.len(),
{
    if defs.len() == 0 {
        None
    } else {
        match first_with_id(defs.drop_last(), id) {
            Some(k) => Some(k),
            None => if defs.last().id@ == id { Some(defs.len() - 1) } else { None },
        }
    }
}

/// The catalog entry with id `id`, if any.
pub open spec fn spec_find(id: Seq<char>) -> Option<FeatureDef> {
    match first_with_id(catalog(), id) {
        Some(k) => Some(catalog()[k]),
        None => None,
    }
}

pub proof fn lemma_first_with_id(defs: Seq<FeatureDef>, id: Seq<char>)
    ensures
        match first_with_id(defs, id) {
            Some(k) => 0 <= k < defs.len() && defs[k].id@ == id && forall|j: int|
                0 <= j < k ==> #[trigger] defs[j].id@ != id,
            None => forall|j: int| 0 <= j < defs.len() ==> #[trigger] defs[j].id@ != id,
        },
    decreases defs.len(),
{
    if defs.len() > 0 {
        lemma_first_with_id(defs.drop_last(), id);
        assert forall|j: int| 0 <= j < defs.len() - 1 implies defs.drop_last()[j] == defs[j] by {}
    }
}

/// Look up a feature definition by id.
pub fn find(id: &str) -> (r: Option<FeatureDef>)
    ensures
        r == spec_find(id@),
        r matches Some(f) ==> f.id@ == id@,
        r is None <==> forall|j: int| 0 <= j < catalog().len() ==> #[trigger] catalog()[j].id@ != id@,
        forall|j: int| 0 <= j < catalog().len() && #[trigger] catalog()[j].id@ == id@ ==> r == Some(catalog()[j]),
{
    proof {
        assert forall|j: int| 0 <= j < catalog().len() && #[trigger] catalog()[j].id@ == id@ implies spec_find(id@)
            == Some(catalog()[j]) by {
            find_returns_the_entry_with_that_id(j);
        }
    }
    let defs = features();
    let target = crate::text::chars_of(id);
    let mut i: usize = 0;
    proof {
        lemma_first_with_id(catalog(), id@);
    }
    while i < defs.len()
        invariant
            i <= defs.len(),
            defs@ == catalog(),
            target@ == id@,
            first_with_id(catalog().take(i as int), id@) is None,
            forall|j: int| 0 <= j < catalog().len() && #[trigger] catalog()[j].id@ == id@ ==> spec_find(id@)
                == Some(catalog()[j]),
        decreases defs.len() - i,
    {
        let cand = crate::text::chars_of(defs[i].id);
        if crate::text::chars_eq(&cand, &target) {
            proof {
                assert(catalog().take(i + 1).drop_last() =~= catalog().take(i as int));
                lemma_prefix_first(catalog(), i + 1, id@);
            }
            return Some(defs[i]);
        }
        proof {
            assert(catalog().take(i + 1).drop_last() =~= catalog().take(i as int));
        }
        i += 1;
    }
    proof {
        assert(catalog().take(i as int) =~= catalog());
    }
    None
}

/// A match found within a prefix is the first match of the whole sequence.
proof fn lemma_prefix_first(defs: Seq<FeatureDef>, n: int, id: Seq<char>)
    requires
        0 <= n <= defs.len(),
        first_with_id(defs.take(n), id) is Some,
    ensures
        first_with_id(defs, id) == first_with_id(defs.take(n), id),
    decreases defs.len(),
{
    if n < defs.len() {
        assert(defs.drop_last().take(n) =~= defs.take(n));
        lemma_prefix_first(defs.drop_last(), n, id);
    } else {
        assert(defs.take(n) =~= defs);
    }
}

/// Value features (rendered with their detail inline) never carry a `/proc/cpuinfo`
/// flag, so no feature is rendered both as a value and as a kernel-corroborated
/// capability.
pub proof fn inline_features_have_no_kernel_flag(k: int)
    requires
        0 <= k < catalog().len(),
    ensures
        catalog()[k].inline_detail ==> catalog()[k].cpuinfo_flag is None,
{
    let c = catalog();
    if 0 <= k < 16 {
        lemma_part_0_inline(k - 0);
        assert(c[k] == catalog_part_0()[k - 0]);
    }
    if 16 <= k < 32 {
        lemma_part_1_inline(k - 16);
        assert(c[k] == catalog_part_1()[k - 16]);
    }
    if 32 <= k < 48 {
        lemma_part_2_inline(k - 32);
        assert(c[k] == catalog_part_2()[k - 32]);
    }
    if 48 <= k < 64 {
        lemma_part_3_inline(k - 48);
        assert(c[k] == catalog_part_3()[k - 48]);
    }
    if 64 <= k < 80 {
        lemma_part_4_inline(k - 64);
        assert(c[k] == catalog_part_4()[k - 64]);
    }
    if 80 <= k < 96 {
        lemma_part_5_inline(k - 80);
        assert(c[k] == catalog_part_5()[k - 80]);
    }
    if 96 <= k < 112 {
        lemma_part_6_inline(k - 96);
        assert(c[k] == catalog_part_6()[k - 96]);
    }
    if 112 <= k < 128 {
        lemma_part_7_inline(k - 112);
        assert(c[k] == catalog_part_7()[k - 112]);
    }
    if 128 <= k < 144 {
        lemma_part_8_inline(k - 128);
        assert(c[k] == catalog_part_8()[k - 128]);
    }
    if 144 <= k < 160 {
        lemma_part_9_inline(k - 144);
        assert(c[k] == catalog_part_9()[k - 144]);
    }
    if 160 <= k < 176 {
        lemma_part_10_inline(k - 160);
        assert(c[k] == catalog_part_10()[k - 160]);
    }
    if 176 <= k < 192 {
        lemma_part_11_inline(k - 176);
        assert(c[k] == catalog_part_11()[k - 176]);
    }
    if 192 <= k < 208 {
        lemma_part_12_inline(k - 192);
        assert(c[k] == catalog_part_12()[k - 192]);
    }
}

proof fn lemma_part_0_inline(k: int)
    requires
        0 <= k < 16,
    ensures
        catalog_part_0()[k].inline_detail ==> catalog_part_0()[k].cpuinfo_flag is None,
{
    let p = catalog_part_0();
    assert(p.len() == 16);
}

proof fn lemma_part_1_inline(k: int)
    requires
        0 <= k < 16,
    ensures
        catalog_part_1()[k].inline_detail ==> catalog_part_1()[k].cpuinfo_flag is None,
{
    let p = catalog_part_1();
    assert(p.len() == 16);
}

proof fn lemma_part_2_inline(k: int)
    requires
        0 <= k < 16,
    ensures
        catalog_part_2()[k].inline_detail ==> catalog_part_2()[k].cpuinfo_flag is None,
{
    let p = catalog_part_2();
    assert(p.len() == 16);
}

proof fn lemma_part_3_inline(k: int)
    requires
        0 <= k < 16,
    ensures
        catalog_part_3()[k].inline_detail ==> catalog_part_3()[k].cpuinfo_flag is None,
{
    let p = catalog_part_3();
    assert(p.len() == 16);
}

proof fn lemma_part_4_inline(k: int)
    requires
        0 <= k < 16,
    ensures
        catalog_part_4()[k].inline_detail ==> catalog_part_4()[k].cpuinfo_flag is None,
{
    let p = catalog_part_4();
    assert(p.len() == 16);
}

proof fn lemma_part_5_inline(k: int)
    requires
        0 <= k < 16,
    ensures
        catalog_part_5()[k].inline_detail ==> catalog_part_5()[k].cpuinfo_flag is None,
{
    let p = catalog_part_5();
    assert(p.len() == 16);
}

proof fn lemma_part_6_inline(k: int)
    requires
        0 <= k < 16,
    ensures
        catalog_part_6()[k].inline_detail ==> catalog_part_6()[k].cpuinfo_flag is None,
{
    let p = catalog_part_6();
    assert(p.len() == 16);
}

proof fn lemma_part_7_inline(k: int)
    requires
        0 <= k < 16,
    ensures
        catalog_part_7()[k].inline_detail ==> catalog_part_7()[k].cpuinfo_flag is None,
{
    let p = catalog_part_7();
    assert(p.len() == 16);
}

proof fn lemma_part_8_inline(k: int)
    requires
        0 <= k < 16,
    ensures
        catalog_part_8()[k].inline_detail ==> catalog_part_8()[k].cpuinfo_flag is None,
{
    let p = catalog_part_8();
    assert(p.len() == 16);
}

proof fn lemma_part_9_inline(k: int)
    requires
        0 <= k < 16,
    ensures
        catalog_part_9()[k].inline_detail ==> catalog_part_9()[k].cpuinfo_flag is None,
{
    let p = catalog_part_9();
    assert(p.len() == 16);
}

proof fn lemma_part_10_inline(k: int)
    requires
        0 <= k < 16,
    ensures
        catalog_part_10()[k].inline_detail ==> catalog_part_10()[k].cpuinfo_flag is None,
{
    let p = catalog_part_10();
    assert(p.len() == 16);
}

proof fn lemma_part_11_inline(k: int)
    requires
        0 <= k < 16,
    ensures
        catalog_part_11()[k].inline_detail ==> catalog_part_11()[k].cpuinfo_flag is None,
{
    let p = catalog_part_11();
    assert(p.len() == 16);
}

proof fn lemma_part_12_inline(k: int)
    requires
        0 <= k < 16,
    ensures
        catalog_part_12()[k].inline_detail ==> catalog_part_12()[k].cpuinfo_flag is None,
{
    let p = catalog_part_12();
    assert(p.len() == 16);
}

/// A catalog position read off an id's length and a few of its characters. Each
/// catalog id is sent to its own position (see [`catalog_ids_are_distinct`]); an id the
/// catalog does not hold may be sent anywhere.
pub open spec fn catalog_slot(id: Seq<char>) -> int {
    if id.len() == 2 {
        65
    } else if id.len() == 3 {
        if id[0] == 'a' {
            if id[1] == 'd' {
                37
            } else if id[1] == 'e' {
                39
            } else {
                6
            }
        } else if id[0] == 'b' {
            162
        } else if id[0] == 'c' {
            if id[1] == 'm' {
                168
            } else {
                196
            }
        } else if id[0] == 'd' {
            if id[1] == 'l' {
                183
            } else if id[1] == 's' {
                180
            } else {
                138
            }
        } else if id[0] == 'e' {
            if id[2] == 'b' {
                140
            } else {
                119
            }
        } else if id[0] == 'f' {
            8
        } else if id[0] == 'g' {
            179
        } else if id[0] == 'h' {
            if id[1] == 'd' {
                137
            } else if id[1] == 'l' {
                48
            } else if id[1] == 't' {
                151
            } else {
                129
            }
        } else if id[0] == 'i' {
            181
        } else if id[0] == 'k' {
            118
        } else if id[0] == 'l' {
            78
        } else if id[0] == 'm' {
            if id[1] == 'b' {
                175
            } else if id[1] == 'd' {
                85
            } else if id[1] == 'p' {
                74
            } else {
                205
            }
        } else if id[0] == 'n' {
            178
        } else if id[0] == 'p' {
            if id[1] == 'c' {
                184
            } else if id[1] == 'k' {
                69
            } else if id[1] == 'l' {
                142
            } else {
                139
            }
        } else if id[0] == 'q' {
            182
        } else if id[0] == 'r' {
            47
        } else if id[0] == 's' {
            if id[1] == 'g' {
                75
            } else if id[1] == 'h' {
                43
            } else if id[1] == 'm' {
                if id[2] == 't' {
                    153
                } else {
                    116
                }
            } else {
                0
            }
        } else if id[0] == 't' {
            if id[2] == '2' {
                141
            } else if id[2] == 'a' {
                97
            } else if id[2] == 'e' {
                77
            } else {
                79
            }
        } else {
            if id[2] == 'd' {
                193
            } else {
                115
            }
        }
    } else if id.len() == 4 {
        if id[3] == '1' {
            35
        } else if id[3] == '2' {
            if id[0] == 'a' {
                7
            } else if id[0] == 'b' {
                36
            } else {
                1
            }
        } else if id[3] == '3' {
            2
        } else if id[3] == 'a' {
            if id[0] == 'n' {
                157
            } else {
                102
            }
        } else if id[3] == 'b' {
            50
        } else if id[3] == 'c' {
            9
        } else if id[3] == 'd' {
            if id[1] == 'p' {
                122
            } else {
                127
            }
        } else if id[3] == 'e' {
            185
        } else if id[3] == 'f' {
            84
        } else if id[3] == 'i' {
            if id[0] == 'g' {
                44
            } else if id[0] == 'i' {
                194
            } else {
                187
            }
        } else if id[3] == 'l' {
            145
        } else if id[3] == 'm' {
            if id[1] == 'd' {
                160
            } else if id[1] == 'm' {
                195
            } else {
                57
            }
        } else if id[3] == 'p' {
            if id[2] == 'a' {
                67
            } else if id[2] == 'e' {
                66
            } else {
                68
            }
        } else if id[3] == 's' {
            if id[0] == 'p' {
                161
            } else {
                40
            }
        } else if id[3] == 't' {
            if id[1] == 'i' {
                128
            } else if id[1] == 'm' {
                158
            } else if id[1] == 'p' {
                197
            } else if id[1] == 'r' {
                136
            } else {
                if id[0] == 'e' {
                    203
                } else {
                    204
                }
            }
        } else if id[3] == 'u' {
            177
        } else {
            146
        }
    } else if id.len() == 5 {
        if id[3] == '1' {
            24
        } else if id[3] == '_' {
            if id[4] == 'a' {
                171
            } else {
                167
            }
        } else if id[3] == 'a' {
            147
        } else if id[3] == 'b' {
            if id[0] == 'm' {
                38
            } else if id[0] == 'r' {
                110
            } else {
                134
            }
        } else if id[3] == 'c' {
            124
        } else if id[3] == 'd' {
            88
        } else if id[3] == 'e' {
            3
        } else if id[3] == 'i' {
            if id[0] == 'a' {
                189
            } else {
                58
            }
        } else if id[3] == 'k' {
            70
        } else if id[3] == 'n' {
            34
        } else if id[3] == 'r' {
            101
        } else if id[3] == 'u' {
            190
        } else {
            61
        }
    } else if id.len() == 6 {
        if id[1] == '2' {
            150
        } else if id[1] == 'a' {
            if id[5] == '2' {
                173
            } else if id[5] == '3' {
                172
            } else {
                107
            }
        } else if id[1] == 'd' {
            if id[0] == 'c' {
                174
            } else if id[0] == 'g' {
                113
            } else if id[0] == 'm' {
                104
            } else {
                if id[2] == 'r' {
                    45
                } else {
                    46
                }
            }
        } else if id[1] == 'e' {
            71
        } else if id[1] == 'g' {
            76
        } else if id[1] == 'h' {
            111
        } else if id[1] == 'o' {
            33
        } else if id[1] == 'p' {
            120
        } else if id[1] == 'r' {
            55
        } else if id[1] == 's' {
            if id[5] == '1' {
                4
            } else if id[5] == '2' {
                5
            } else if id[5] == 'c' {
                63
            } else if id[5] == 'o' {
                103
            } else {
                64
            }
        } else if id[1] == 'u' {
            135
        } else {
            152
        }
    } else if id.len() == 7 {
        if id[1] == 'a' {
            54
        } else if id[1] == 'd' {
            100
        } else if id[1] == 'e' {
            if id[4] == 'i' {
                72
            } else if id[4] == 's' {
                73
            } else {
                176
            }
        } else if id[1] == 'f' {
            114
        } else if id[1] == 'k' {
            148
        } else if id[1] == 'm' {
            98
        } else if id[1] == 'o' {
            if id[2] == 'n' {
                156
            } else {
                51
            }
        } else if id[1] == 'p' {
            121
        } else if id[1] == 't' {
            165
        } else if id[1] == 'v' {
            10
        } else {
            131
        }
    } else if id.len() == 8 {
        if id[6] == '1' {
            32
        } else if id[6] == 'a' {
            109
        } else if id[6] == 'b' {
            if id[1] == 'r' {
                164
            } else {
                14
            }
        } else if id[6] == 'c' {
            11
        } else if id[6] == 'd' {
            13
        } else if id[6] == 'e' {
            if id[0] == 'e' {
                186
            } else {
                90
            }
        } else if id[6] == 'l' {
            30
        } else if id[6] == 'm' {
            28
        } else if id[6] == 'n' {
            if id[0] == 'a' {
                25
            } else {
                112
            }
        } else if id[6] == 'p' {
            if id[0] == 'i' {
                163
            } else {
                62
            }
        } else if id[6] == 'r' {
            106
        } else if id[6] == 's' {
            60
        } else if id[6] == 't' {
            31
        } else if id[6] == 'v' {
            12
        } else {
            80
        }
    } else if id.len() == 9 {
        if id[4] == '_' {
            200
        } else if id[4] == 'a' {
            53
        } else if id[4] == 'c' {
            166
        } else if id[4] == 'e' {
            56
        } else if id[4] == 'f' {
            191
        } else if id[4] == 'i' {
            52
        } else if id[4] == 'l' {
            169
        } else if id[4] == 't' {
            if id[0] == 'b' {
                188
            } else {
                170
            }
        } else {
            41
        }
    } else if id.len() == 10 {
        if id[7] == '1' {
            59
        } else if id[7] == '_' {
            if id[9] == '1' {
                81
            } else {
                82
            }
        } else if id[7] == 'a' {
            207
        } else if id[7] == 'b' {
            16
        } else if id[7] == 'd' {
            144
        } else if id[7] == 'e' {
            198
        } else if id[7] == 'f' {
            if id[6] == 'b' {
                22
            } else {
                15
            }
        } else if id[7] == 'h' {
            99
        } else if id[7] == 'i' {
            95
        } else if id[7] == 'n' {
            18
        } else if id[7] == 'o' {
            if id[0] == 'c' {
                49
            } else {
                202
            }
        } else if id[7] == 'p' {
            23
        } else if id[7] == 'q' {
            42
        } else {
            117
        }
    } else if id.len() == 11 {
        if id[0] == 'a' {
            17
        } else if id[0] == 'h' {
            133
        } else if id[0] == 'p' {
            125
        } else if id[0] == 's' {
            201
        } else if id[0] == 't' {
            192
        } else {
            126
        }
    } else if id.len() == 12 {
        if id[1] == 'e' {
            199
        } else if id[1] == 'n' {
            143
        } else if id[1] == 'r' {
            159
        } else if id[1] == 's' {
            155
        } else {
            19
        }
    } else if id.len() == 13 {
        if id[1] == 'l' {
            96
        } else if id[1] == 'n' {
            154
        } else if id[1] == 't' {
            87
        } else {
            26
        }
    } else if id.len() == 14 {
        if id[4] == 'n' {
            29
        } else if id[4] == 's' {
            105
        } else {
            27
        }
    } else if id.len() == 15 {
        if id[0] == 'a' {
            20
        } else if id[0] == 'm' {
            89
        } else if id[0] == 'p' {
            149
        } else {
            86
        }
    } else if id.len() == 16 {
        130
    } else if id.len() == 17 {
        if id[0] == 'm' {
            108
        } else {
            83
        }
    } else if id.len() == 18 {
        if id[0] == 'a' {
            21
        } else {
            123
        }
    } else if id.len() == 19 {
        132
    } else if id.len() == 20 {
        if id[0] == 'g' {
            91
        } else {
            93
        }
    } else if id.len() == 22 {
        if id[0] == 'f' {
            206
        } else {
            92
        }
    } else {
        94
    }
}

proof fn lemma_part_0_slots(k: int)
    requires
        0 <= k < 16,
    ensures
        catalog_part_0()[k].id@.len() > 0,
        catalog_slot(catalog_part_0()[k].id@) == k + 0,
{
    reveal_strlit("sse");
    reveal_strlit("sse2");
    reveal_strlit("sse3");
    reveal_strlit("ssse3");
    reveal_strlit("sse4_1");
    reveal_strlit("sse4_2");
    reveal_strlit("avx");
    reveal_strlit("avx2");
    reveal_strlit("fma");
    reveal_strlit("f16c");
    reveal_strlit("avx512f");
    reveal_strlit("avx512cd");
    reveal_strlit("avx512vl");
    reveal_strlit("avx512dq");
    reveal_strlit("avx512bw");
    reveal_strlit("avx512ifma");
    let p = catalog_part_0();
    assert(p.len() == 16);
}

proof fn lemma_part_1_slots(k: int)
    requires
        0 <= k < 16,
    ensures
        catalog_part_1()[k].id@.len() > 0,
        catalog_slot(catalog_part_1()[k].id@) == k + 16,
{
    reveal_strlit("avx512vbmi");
    reveal_strlit("avx512vbmi2");
    reveal_strlit("avx512vnni");
    reveal_strlit("avx512bitalg");
    reveal_strlit("avx512vpopcntdq");
    reveal_strlit("avx512vp2intersect");
    reveal_strlit("avx512bf16");
    reveal_strlit("avx512fp16");
    reveal_strlit("avx10");
    reveal_strlit("avx_vnni");
    reveal_strlit("avx_vnni_int8");
    reveal_strlit("avx_vnni_int16");
    reveal_strlit("avx_ifma");
    reveal_strlit("avx_ne_convert");
    reveal_strlit("amx_tile");
    reveal_strlit("amx_int8");
    let p = catalog_part_1();
    assert(p.len() == 16);
}

proof fn lemma_part_2_slots(k: int)
    requires
        0 <= k < 16,
    ensures
        catalog_part_2()[k].id@.len() > 0,
        catalog_slot(catalog_part_2()[k].id@) == k + 32,
{
    reveal_strlit("amx_bf16");
    reveal_strlit("popcnt");
    reveal_strlit("lzcnt");
    reveal_strlit("bmi1");
    reveal_strlit("bmi2");
    reveal_strlit("adx");
    reveal_strlit("movbe");
    reveal_strlit("aes");
    reveal_strlit("vaes");
    reveal_strlit("pclmulqdq");
    reveal_strlit("vpclmulqdq");
    reveal_strlit("sha");
    reveal_strlit("gfni");
    reveal_strlit("rdrand");
    reveal_strlit("rdseed");
    reveal_strlit("rtm");
    let p = catalog_part_2();
    assert(p.len() == 16);
}

proof fn lemma_part_3_slots(k: int)
    requires
        0 <= k < 16,
    ensures
        catalog_part_3()[k].id@.len() > 0,
        catalog_slot(catalog_part_3()[k].id@) == k + 48,
{
    reveal_strlit("hle");
    reveal_strlit("clflushopt");
    reveal_strlit("clwb");
    reveal_strlit("movdiri");
    reveal_strlit("movdir64b");
    reveal_strlit("serialize");
    reveal_strlit("waitpkg");
    reveal_strlit("hreset");
    reveal_strlit("prefetchi");
    reveal_strlit("fsrm");
    reveal_strlit("rdpid");
    reveal_strlit("cmpxchg16b");
    reveal_strlit("fsgsbase");
    reveal_strlit("xsave");
    reveal_strlit("xsaveopt");
    reveal_strlit("xsavec");
    let p = catalog_part_3();
    assert(p.len() == 16);
}

proof fn lemma_part_4_slots(k: int)
    requires
        0 <= k < 16,
    ensures
        catalog_part_4()[k].id@.len() > 0,
        catalog_slot(catalog_part_4()[k].id@) == k + 64,
{
    reveal_strlit("xsaves");
    reveal_strlit("nx");
    reveal_strlit("smep");
    reveal_strlit("smap");
    reveal_strlit("umip");
    reveal_strlit("pku");
    reveal_strlit("ospke");
    reveal_strlit("cet_ss");
    reveal_strlit("cet_ibt");
    reveal_strlit("cet_sss");
    reveal_strlit("mpx");
    reveal_strlit("sgx");
    reveal_strlit("sgx_lc");
    reveal_strlit("tme");
    reveal_strlit("lam");
    reveal_strlit("tpm");
    let p = catalog_part_4();
    assert(p.len() == 16);
}

proof fn lemma_part_5_slots(k: int)
    requires
        0 <= k < 16,
    ensures
        catalog_part_5()[k].id@.len() > 0,
        catalog_slot(catalog_part_5()[k].id@) == k + 80,
{
    reveal_strlit("meltdown");
    reveal_strlit("spectre_v1");
    reveal_strlit("spectre_v2");
    reveal_strlit("spec_store_bypass");
    reveal_strlit("l1tf");
    reveal_strlit("mds");
    reveal_strlit("tsx_async_abort");
    reveal_strlit("itlb_multihit");
    reveal_strlit("srbds");
    reveal_strlit("mmio_stale_data");
    reveal_strlit("retbleed");
    reveal_strlit("gather_data_sampling");
    reveal_strlit("reg_file_data_sampling");
    reveal_strlit("spec_rstack_overflow");
    reveal_strlit("indirect_target_selection");
    reveal_strlit("ghostwrite");
    let p = catalog_part_5();
    assert(p.len() == 16);
}

proof fn lemma_part_6_slots(k: int)
    requires
        0 <= k < 16,
    ensures
        catalog_part_6()[k].id@.len() > 0,
        catalog_slot(catalog_part_6()[k].id@) == k + 96,
{
    reveal_strlit("old_microcode");
    reveal_strlit("tsa");
    reveal_strlit("vmscape");
    reveal_strlit("vuln_other");
    reveal_strlit("rdcl_no");
    reveal_strlit("eibrs");
    reveal_strlit("rsba");
    reveal_strlit("ssb_no");
    reveal_strlit("mds_no");
    reveal_strlit("if_pschange_no");
    reveal_strlit("tsx_ctrl");
    reveal_strlit("taa_no");
    reveal_strlit("misc_package_ctls");
    reveal_strlit("fb_clear");
    reveal_strlit("rrsba");
    reveal_strlit("bhi_no");
    let p = catalog_part_6();
    assert(p.len() == 16);
}

proof fn lemma_part_7_slots(k: int)
    requires
        0 <= k < 16,
    ensures
        catalog_part_7()[k].id@.len() > 0,
        catalog_slot(catalog_part_7()[k].id@) == k + 112,
{
    reveal_strlit("pbrsb_no");
    reveal_strlit("gds_no");
    reveal_strlit("rfds_no");
    reveal_strlit("vmx");
    reveal_strlit("smx");
    reveal_strlit("hypervisor");
    reveal_strlit("kvm");
    reveal_strlit("ept");
    reveal_strlit("ept_ad");
    reveal_strlit("ept_1gb");
    reveal_strlit("vpid");
    reveal_strlit("unrestricted_guest");
    reveal_strlit("apicv");
    reveal_strlit("posted_intr");
    reveal_strlit("vmcs_shadow");
    reveal_strlit("vt_d");
    let p = catalog_part_7();
    assert(p.len() == 16);
}

proof fn lemma_part_8_slots(k: int)
    requires
        0 <= k < 16,
    ensures
        catalog_part_8()[k].id@.len() > 0,
        catalog_slot(catalog_part_8()[k].id@) == k + 128,
{
    reveal_strlit("eist");
    reveal_strlit("hwp");
    reveal_strlit("hwp_notification");
    reveal_strlit("hwp_epp");
    reveal_strlit("hwp_activity_window");
    reveal_strlit("hwp_package");
    reveal_strlit("turbo");
    reveal_strlit("turbo3");
    reveal_strlit("arat");
    reveal_strlit("hdc");
    reveal_strlit("dts");
    reveal_strlit("ptm");
    reveal_strlit("epb");
    reveal_strlit("tm2");
    reveal_strlit("pln");
    reveal_strlit("intel_pstate");
    let p = catalog_part_8();
    assert(p.len() == 16);
}

proof fn lemma_part_9_slots(k: int)
    requires
        0 <= k < 16,
    ensures
        catalog_part_9()[k].id@.len() > 0,
        catalog_slot(catalog_part_9()[k].id@) == k + 144,
{
    reveal_strlit("intel_idle");
    reveal_strlit("rapl");
    reveal_strlit("s0ix");
    reveal_strlit("tjmax");
    reveal_strlit("pkg_tdp");
    reveal_strlit("pkg_power_limit");
    reveal_strlit("x2apic");
    reveal_strlit("htt");
    reveal_strlit("hybrid");
    reveal_strlit("smt");
    reveal_strlit("invariant_tsc");
    reveal_strlit("tsc_deadline");
    reveal_strlit("monitor");
    reveal_strlit("numa");
    reveal_strlit("hmat");
    reveal_strlit("arch_perfmon");
    let p = catalog_part_9();
    assert(p.len() == 16);
}

proof fn lemma_part_10_slots(k: int)
    requires
        0 <= k < 16,
    ensures
        catalog_part_10()[k].id@.len() > 0,
        catalog_slot(catalog_part_10()[k].id@) == k + 160,
{
    reveal_strlit("pdcm");
    reveal_strlit("pebs");
    reveal_strlit("bts");
    reveal_strlit("intel_pt");
    reveal_strlit("arch_lbr");
    reveal_strlit("ptwrite");
    reveal_strlit("smi_count");
    reveal_strlit("rdt_m");
    reveal_strlit("cmt");
    reveal_strlit("mbm_local");
    reveal_strlit("mbm_total");
    reveal_strlit("rdt_a");
    reveal_strlit("cat_l3");
    reveal_strlit("cat_l2");
    reveal_strlit("cdp_l3");
    reveal_strlit("mba");
    let p = catalog_part_10();
    assert(p.len() == 16);
}

proof fn lemma_part_11_slots(k: int)
    requires
        0 <= k < 16,
    ensures
        catalog_part_11()[k].id@.len() > 0,
        catalog_slot(catalog_part_11()[k].id@) == k + 176,
{
    reveal_strlit("resctrl");
    reveal_strlit("igpu");
    reveal_strlit("npu");
    reveal_strlit("gna");
    reveal_strlit("dsa");
    reveal_strlit("iaa");
    reveal_strlit("qat");
    reveal_strlit("dlb");
    reveal_strlit("pch");
    reveal_strlit("csme");
    reveal_strlit("ethernet");
    reveal_strlit("wifi");
    reveal_strlit("bluetooth");
    reveal_strlit("audio");
    reveal_strlit("smbus");
    reveal_strlit("spi_flash");
    let p = catalog_part_11();
    assert(p.len() == 16);
}

proof fn lemma_part_12_slots(k: int)
    requires
        0 <= k < 16,
    ensures
        catalog_part_12()[k].id@.len() > 0,
        catalog_slot(catalog_part_12()[k].id@) == k + 192,
{
    reveal_strlit("thunderbolt");
    reveal_strlit("vmd");
    reveal_strlit("ipmi");
    reveal_strlit("pmem");
    reveal_strlit("cxl");
    reveal_strlit("hpet");
    reveal_strlit("memory_ecc");
    reveal_strlit("memory_dimms");
    reveal_strlit("uefi_boot");
    reveal_strlit("secure_boot");
    reveal_strlit("setup_mode");
    reveal_strlit("esrt");
    reveal_strlit("wsmt");
    reveal_strlit("msr");
    reveal_strlit("feature_control_locked");
    reveal_strlit("boot_guard");
    let p = catalog_part_12();
    assert(p.len() == 16);
}

/// Catalog entry `k` has a non-empty id, which [`catalog_slot`] sends to `k`.
proof fn lemma_catalog_slot(k: int)
    requires
        0 <= k < catalog().len(),
    ensures
        catalog()[k].id@.len() > 0,
        catalog_slot(catalog()[k].id@) == k,
{
    let c = catalog();
    if 0 <= k < 16 {
        lemma_part_0_slots(k - 0);
        assert(c[k] == catalog_part_0()[k - 0]);
    }
    if 16 <= k < 32 {
        lemma_part_1_slots(k - 16);
        assert(c[k] == catalog_part_1()[k - 16]);
    }
    if 32 <= k < 48 {
        lemma_part_2_slots(k - 32);
        assert(c[k] == catalog_part_2()[k - 32]);
    }
    if 48 <= k < 64 {
        lemma_part_3_slots(k - 48);
        assert(c[k] == catalog_part_3()[k - 48]);
    }
    if 64 <= k < 80 {
        lemma_part_4_slots(k - 64);
        assert(c[k] == catalog_part_4()[k - 64]);
    }
    if 80 <= k < 96 {
        lemma_part_5_slots(k - 80);
        assert(c[k] == catalog_part_5()[k - 80]);
    }
    if 96 <= k < 112 {
        lemma_part_6_slots(k - 96);
        assert(c[k] == catalog_part_6()[k - 96]);
    }
    if 112 <= k < 128 {
        lemma_part_7_slots(k - 112);
        assert(c[k] == catalog_part_7()[k - 112]);
    }
    if 128 <= k < 144 {
        lemma_part_8_slots(k - 128);
        assert(c[k] == catalog_part_8()[k - 128]);
    }
    if 144 <= k < 160 {
        lemma_part_9_slots(k - 144);
        assert(c[k] == catalog_part_9()[k - 144]);
    }
    if 160 <= k < 176 {
        lemma_part_10_slots(k - 160);
        assert(c[k] == catalog_part_10()[k - 160]);
    }
    if 176 <= k < 192 {
        lemma_part_11_slots(k - 176);
        assert(c[k] == catalog_part_11()[k - 176]);
    }
    if 192 <= k < 208 {
        lemma_part_12_slots(k - 192);
        assert(c[k] == catalog_part_12()[k - 192]);
    }
}

/// Catalog ids are non-empty, and no two catalog entries share an id.
pub proof fn catalog_ids_are_distinct(i: int, j: int)
    requires
        0 <= i < catalog().len(),
        0 <= j < catalog().len(),
    ensures
        catalog()[i].id@.len() > 0,
        i != j ==> catalog()[i].id@ != catalog()[j].id@,
{
    lemma_catalog_slot(i);
    lemma_catalog_slot(j);
}

/// Looking up the id of a catalog entry finds that very entry.
pub proof fn find_returns_the_entry_with_that_id(j: int)
    requires
        0 <= j < catalog().len(),
    ensures
        spec_find(catalog()[j].id@) == Some(catalog()[j]),
{
    let id = catalog()[j].id@;
    lemma_first_with_id(catalog(), id);
    let k = first_with_id(catalog(), id)->0;
    catalog_ids_are_distinct(k, j);
}

} // verus!
