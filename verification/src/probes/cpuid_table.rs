//! What each CPUID feature bit means: the registers read from one core, which leaf,
//! register and bit each reported feature comes from, and when a leaf counts as
//! available (the rules of the `raw-cpuid` accessors the probe relies on).

use vstd::prelude::*;

verus! {

/// The four registers one `CPUID` execution returns, with the leaf and sub-leaf it was
/// executed for.
#[derive(Debug, Clone, Copy, PartialEq, Eq, Structural)]
pub struct Regs {
    pub leaf: u32,
    pub sub: u32,
    pub eax: u32,
    pub ebx: u32,
    pub ecx: u32,
    pub edx: u32,
}

/// The CPUID leaves read on one logical core.
#[derive(Debug)]
pub struct CoreLeaves {
    /// Leaf 0: maximum basic leaf (EAX) and vendor string (EBX, EDX, ECX).
    pub leaf0: Regs,
    pub leaf1: Regs,
    pub leaf6: Regs,
    /// Leaf 7, sub-leaves 0 and 1.
    pub leaf7: Regs,
    pub leaf7_1: Regs,
    pub leaf_a: Regs,
    /// Leaf 0xD, sub-leaf 1.
    pub leaf_d_1: Regs,
    /// Leaf 0xF, sub-leaves 0 and 1.
    pub leaf_f: Regs,
    pub leaf_f_1: Regs,
    /// Leaf 0x10, sub-leaves 0 and 1.
    pub leaf_10: Regs,
    pub leaf_10_1: Regs,
    pub leaf_14: Regs,
    pub leaf_1a: Regs,
    /// Leaf 0x8000_0000: maximum extended leaf (EAX).
    pub ext0: Regs,
    pub ext1: Regs,
    /// Leaves 0x8000_0002 to 0x8000_0004: the brand string.
    pub brand0: Regs,
    pub brand1: Regs,
    pub brand2: Regs,
    /// Sub-leaves 0, 1, ... of the extended topology leaf (0x1F, else 0xB) in order,
    /// up to and including the first whose EBX is zero, at most 32.
    pub topology: Vec<Regs>,
}

/// Where a reported feature bit lives.
#[derive(Debug, Clone, Copy, PartialEq, Eq, Structural)]
pub enum BitSource {
    /// Leaf 1, when the leaf is available.
    Leaf1Ecx(u32),
    Leaf1Edx(u32),
    /// Leaf 7 sub-leaf 0 (EBX, ECX, EDX) or sub-leaf 1 (EAX, EDX), when leaf 7 is available.
    Leaf7Ebx(u32),
    Leaf7Ecx(u32),
    Leaf7Edx(u32),
    Leaf7Eax1(u32),
    Leaf7Edx1(u32),
    /// Leaf 7 sub-leaf 0 read directly, whatever the maximum leaf.
    Direct7Ecx(u32),
    Direct7Edx(u32),
    /// Leaf 6, when available.
    Leaf6Eax(u32),
    Leaf6Ecx(u32),
    /// Leaf 0xD sub-leaf 1 EAX, when leaf 0xD is available.
    LeafDEax1(u32),
    /// Leaf 0x8000_0001, when available.
    Ext1Ecx(u32),
    Ext1Edx(u32),
    /// Leaf 0xA architectural PMU version (EAX[7:0]) at least 1.
    ArchPerfmon,
    /// Leaf 0x14 sub-leaf 0 EBX, when available.
    Leaf14Ebx(u32),
    /// Leaf 0xF sub-leaf 1 EDX, when leaf 0xF is available and reports L3 monitoring.
    L3Monitoring(u32),
    /// Leaf 0x10 sub-leaf 0 EBX, when available.
    Leaf10Ebx(u32),
    /// Leaf 0x10 sub-leaf 1 ECX, when leaf 0x10 reports L3 allocation.
    L3CatEcx(u32),
}

/// A reported feature: its id, its bit, and the leaf tag shown as its detail.
#[derive(Debug, Clone, Copy)]
pub struct FeatureBit {
    pub id: &'static str,
    pub source: BitSource,
    pub tag: &'static str,
}

/// Bit `n` of `v`.
pub open spec fn bit_of(v: u32, n: u32) -> bool {
    (v >> n) & 1 == 1
}

/// The little-endian bytes of `v`.
pub open spec fn le_bytes(v: u32) -> Seq<u8> {
    seq![(v & 0xff) as u8, ((v >> 8) & 0xff) as u8, ((v >> 16) & 0xff) as u8, ((v >> 24) & 0xff) as u8]
}

/// The vendor identification bytes of leaf 0 (EBX, EDX, ECX).
pub open spec fn vendor_bytes(l: CoreLeaves) -> Seq<u8> {
    le_bytes(l.leaf0.ebx) + le_bytes(l.leaf0.edx) + le_bytes(l.leaf0.ecx)
}

pub open spec fn ascii_bytes(s: Seq<char>) -> Seq<u8> {
    s.map_values(|c: char| c as u8)
}

/// An AMD-compatible vendor, for which `raw-cpuid` treats leaves 2-4 and 8-0xA as reserved.
pub open spec fn is_amd(l: CoreLeaves) -> bool {
    vendor_bytes(l) == ascii_bytes("AuthenticAMD"@) || vendor_bytes(l) == ascii_bytes(
        "HygonGenuine"@,
    )
}

pub open spec fn is_intel(l: CoreLeaves) -> bool {
    vendor_bytes(l) == ascii_bytes("GenuineIntel"@)
}

/// Whether a leaf is available on this core.
pub open spec fn leaf_supported(l: CoreLeaves, leaf: u32) -> bool {
    if is_amd(l) && ((2 <= leaf <= 4) || (8 <= leaf <= 0xa)) {
        false
    } else if leaf < 0x8000_0000 {
        leaf <= l.leaf0.eax
    } else {
        leaf <= l.ext0.eax
    }
}

/// The value of a feature bit on a core.
pub open spec fn source_value(s: BitSource, l: CoreLeaves) -> bool {
    match s {
        BitSource::Leaf1Ecx(n) => leaf_supported(l, 1) && bit_of(l.leaf1.ecx, n),
        BitSource::Leaf1Edx(n) => leaf_supported(l, 1) && bit_of(l.leaf1.edx, n),
        BitSource::Leaf7Ebx(n) => leaf_supported(l, 7) && bit_of(l.leaf7.ebx, n),
        BitSource::Leaf7Ecx(n) => leaf_supported(l, 7) && bit_of(l.leaf7.ecx, n),
        BitSource::Leaf7Edx(n) => leaf_supported(l, 7) && bit_of(l.leaf7.edx, n),
        BitSource::Leaf7Eax1(n) => leaf_supported(l, 7) && bit_of(l.leaf7_1.eax, n),
        BitSource::Leaf7Edx1(n) => leaf_supported(l, 7) && bit_of(l.leaf7_1.edx, n),
        BitSource::Direct7Ecx(n) => bit_of(l.leaf7.ecx, n),
        BitSource::Direct7Edx(n) => bit_of(l.leaf7.edx, n),
        BitSource::Leaf6Eax(n) => leaf_supported(l, 6) && bit_of(l.leaf6.eax, n),
        BitSource::Leaf6Ecx(n) => leaf_supported(l, 6) && bit_of(l.leaf6.ecx, n),
        BitSource::LeafDEax1(n) => leaf_supported(l, 0xd) && bit_of(l.leaf_d_1.eax, n),
        BitSource::Ext1Ecx(n) => leaf_supported(l, 0x8000_0001) && bit_of(l.ext1.ecx, n),
        BitSource::Ext1Edx(n) => leaf_supported(l, 0x8000_0001) && bit_of(l.ext1.edx, n),
        BitSource::ArchPerfmon => leaf_supported(l, 0xa) && (l.leaf_a.eax & 0xff) >= 1,
        BitSource::Leaf14Ebx(n) => leaf_supported(l, 0x14) && bit_of(l.leaf_14.ebx, n),
        BitSource::L3Monitoring(n) => leaf_supported(l, 0xf) && bit_of(l.leaf_f.edx, 1) && bit_of(
            l.leaf_f_1.edx,
            n,
        ),
        BitSource::Leaf10Ebx(n) => leaf_supported(l, 0x10) && bit_of(l.leaf_10.ebx, n),
        BitSource::L3CatEcx(n) => leaf_supported(l, 0x10) && bit_of(l.leaf_10.ebx, 1) && bit_of(
            l.leaf_10_1.ecx,
            n,
        ),
    }
}

/// Bit `n` of `v` (`(v >> n) & 1 == 1`).
pub fn bit(v: u32, n: u32) -> (r: bool)
    requires
        n < 32,
    ensures
        r == bit_of(v, n),
{
    (v >> n) & 1 == 1
}

fn vendor_bytes_exec(l: &CoreLeaves) -> (r: Vec<u8>)
    ensures
        r@ == vendor_bytes(*l),
{
    let mut r: Vec<u8> = Vec::new();
    push_le(&mut r, l.leaf0.ebx);
    push_le(&mut r, l.leaf0.edx);
    push_le(&mut r, l.leaf0.ecx);
    assert(r@ =~= vendor_bytes(*l));
    r
}

/// Appends the little-endian bytes of `v`.
pub fn push_le(out: &mut Vec<u8>, v: u32)
    ensures
        final(out)@ == old(out)@ + le_bytes(v),
{
    out.push((v & 0xff) as u8);
    out.push(((v >> 8) & 0xff) as u8);
    out.push(((v >> 16) & 0xff) as u8);
    out.push(((v >> 24) & 0xff) as u8);
    assert(final(out)@ =~= old(out)@ + le_bytes(v));
}

fn bytes_are(b: &Vec<u8>, s: &str) -> (r: bool)
    requires
        b@.len() == 12,
    ensures
        r == (b@ == ascii_bytes(s@)),
{
    let c = crate::text::chars_of(s);
    if c.len() != 12 {
        assert(ascii_bytes(s@).len() != b@.len());
        return false;
    }
    let mut i: usize = 0;
    while i < 12
        invariant
            i <= 12,
            b@.len() == 12,
            c@ == s@,
            c@.len() == 12,
            forall|k: int| 0 <= k < i ==> b@[k] == (c@[k] as u8),
        decreases 12 - i,
    {
        if b[i] != c[i] as u8 {
            assert(b@[i as int] != ascii_bytes(s@)[i as int]);
            return false;
        }
        i += 1;
    }
    assert(b@ =~= ascii_bytes(s@));
    true
}

/// Vendor class of a core: `(is_amd, is_intel)`.
pub fn vendor_class(l: &CoreLeaves) -> (r: (bool, bool))
    ensures
        r.0 == is_amd(*l),
        r.1 == is_intel(*l),
{
    let b = vendor_bytes_exec(l);
    let amd = bytes_are(&b, "AuthenticAMD") || bytes_are(&b, "HygonGenuine");
    let intel = bytes_are(&b, "GenuineIntel");
    (amd, intel)
}

/// Executable [`leaf_supported`] for a known vendor class.
pub fn supported(l: &CoreLeaves, amd: bool, leaf: u32) -> (r: bool)
    requires
        amd == is_amd(*l),
    ensures
        r == leaf_supported(*l, leaf),
{
    if amd && ((2 <= leaf && leaf <= 4) || (8 <= leaf && leaf <= 0xa)) {
        false
    } else if leaf < 0x8000_0000 {
        leaf <= l.leaf0.eax
    } else {
        leaf <= l.ext0.eax
    }
}

/// The value of a feature bit on a core.
pub fn eval_source(s: BitSource, l: &CoreLeaves, amd: bool) -> (r: bool)
    requires
        amd == is_amd(*l),
        source_in_range(s),
    ensures
        r == source_value(s, *l),
{
    match s {
        BitSource::Leaf1Ecx(n) => supported(l, amd, 1) && bit(l.leaf1.ecx, n),
        BitSource::Leaf1Edx(n) => supported(l, amd, 1) && bit(l.leaf1.edx, n),
        BitSource::Leaf7Ebx(n) => supported(l, amd, 7) && bit(l.leaf7.ebx, n),
        BitSource::Leaf7Ecx(n) => supported(l, amd, 7) && bit(l.leaf7.ecx, n),
        BitSource::Leaf7Edx(n) => supported(l, amd, 7) && bit(l.leaf7.edx, n),
        BitSource::Leaf7Eax1(n) => supported(l, amd, 7) && bit(l.leaf7_1.eax, n),
        BitSource::Leaf7Edx1(n) => supported(l, amd, 7) && bit(l.leaf7_1.edx, n),
        BitSource::Direct7Ecx(n) => bit(l.leaf7.ecx, n),
        BitSource::Direct7Edx(n) => bit(l.leaf7.edx, n),
        BitSource::Leaf6Eax(n) => supported(l, amd, 6) && bit(l.leaf6.eax, n),
        BitSource::Leaf6Ecx(n) => supported(l, amd, 6) && bit(l.leaf6.ecx, n),
        BitSource::LeafDEax1(n) => supported(l, amd, 0xd) && bit(l.leaf_d_1.eax, n),
        BitSource::Ext1Ecx(n) => supported(l, amd, 0x8000_0001) && bit(l.ext1.ecx, n),
        BitSource::Ext1Edx(n) => supported(l, amd, 0x8000_0001) && bit(l.ext1.edx, n),
        BitSource::ArchPerfmon => supported(l, amd, 0xa) && (l.leaf_a.eax & 0xff) >= 1,
        BitSource::Leaf14Ebx(n) => supported(l, amd, 0x14) && bit(l.leaf_14.ebx, n),
        BitSource::L3Monitoring(n) => supported(l, amd, 0xf) && bit(l.leaf_f.edx, 1) && bit(
            l.leaf_f_1.edx,
            n,
        ),
        BitSource::Leaf10Ebx(n) => supported(l, amd, 0x10) && bit(l.leaf_10.ebx, n),
        BitSource::L3CatEcx(n) => supported(l, amd, 0x10) && bit(l.leaf_10.ebx, 1) && bit(
            l.leaf_10_1.ecx,
            n,
        ),
    }
}

/// Every bit position a source names is below 32.
pub open spec fn source_in_range(s: BitSource) -> bool {
    match s {
        BitSource::Leaf1Ecx(n) => n < 32,
        BitSource::Leaf1Edx(n) => n < 32,
        BitSource::Leaf7Ebx(n) => n < 32,
        BitSource::Leaf7Ecx(n) => n < 32,
        BitSource::Leaf7Edx(n) => n < 32,
        BitSource::Leaf7Eax1(n) => n < 32,
        BitSource::Leaf7Edx1(n) => n < 32,
        BitSource::Direct7Ecx(n) => n < 32,
        BitSource::Direct7Edx(n) => n < 32,
        BitSource::Leaf6Eax(n) => n < 32,
        BitSource::Leaf6Ecx(n) => n < 32,
        BitSource::LeafDEax1(n) => n < 32,
        BitSource::Ext1Ecx(n) => n < 32,
        BitSource::Ext1Edx(n) => n < 32,
        BitSource::ArchPerfmon => true,
        BitSource::Leaf14Ebx(n) => n < 32,
        BitSource::L3Monitoring(n) => n < 32,
        BitSource::Leaf10Ebx(n) => n < 32,
        BitSource::L3CatEcx(n) => n < 32,
    }
}

// ---- the table ------------------------------------------------------------------------

pub open spec fn bit_table_part_0() -> Seq<FeatureBit> {
    seq![
        FeatureBit { id: "sse", source: BitSource::Leaf1Edx(25), tag: "leaf 1" },
        FeatureBit { id: "sse2", source: BitSource::Leaf1Edx(26), tag: "leaf 1" },
        FeatureBit { id: "sse3", source: BitSource::Leaf1Ecx(0), tag: "leaf 1" },
        FeatureBit { id: "ssse3", source: BitSource::Leaf1Ecx(9), tag: "leaf 1" },
        FeatureBit { id: "sse4_1", source: BitSource::Leaf1Ecx(19), tag: "leaf 1" },
        FeatureBit { id: "sse4_2", source: BitSource::Leaf1Ecx(20), tag: "leaf 1" },
        FeatureBit { id: "avx", source: BitSource::Leaf1Ecx(28), tag: "leaf 1" },
        FeatureBit { id: "fma", source: BitSource::Leaf1Ecx(12), tag: "leaf 1" },
        FeatureBit { id: "f16c", source: BitSource::Leaf1Ecx(29), tag: "leaf 1" },
        FeatureBit { id: "popcnt", source: BitSource::Leaf1Ecx(23), tag: "leaf 1" },
        FeatureBit { id: "movbe", source: BitSource::Leaf1Ecx(22), tag: "leaf 1" },
        FeatureBit { id: "aes", source: BitSource::Leaf1Ecx(25), tag: "leaf 1" },
        FeatureBit { id: "pclmulqdq", source: BitSource::Leaf1Ecx(1), tag: "leaf 1" },
        FeatureBit { id: "rdrand", source: BitSource::Leaf1Ecx(30), tag: "leaf 1" },
        FeatureBit { id: "cmpxchg16b", source: BitSource::Leaf1Ecx(13), tag: "leaf 1" },
        FeatureBit { id: "xsave", source: BitSource::Leaf1Ecx(26), tag: "leaf 1" },
    ]
}

pub open spec fn bit_table_part_1() -> Seq<FeatureBit> {
    seq![
        FeatureBit { id: "monitor", source: BitSource::Leaf1Ecx(3), tag: "leaf 1" },
        FeatureBit { id: "vmx", source: BitSource::Leaf1Ecx(5), tag: "leaf 1" },
        FeatureBit { id: "smx", source: BitSource::Leaf1Ecx(6), tag: "leaf 1" },
        FeatureBit { id: "eist", source: BitSource::Leaf1Ecx(7), tag: "leaf 1" },
        FeatureBit { id: "tm2", source: BitSource::Leaf1Ecx(8), tag: "leaf 1" },
        FeatureBit { id: "x2apic", source: BitSource::Leaf1Ecx(21), tag: "leaf 1" },
        FeatureBit { id: "htt", source: BitSource::Leaf1Edx(28), tag: "leaf 1" },
        FeatureBit { id: "hypervisor", source: BitSource::Leaf1Ecx(31), tag: "leaf 1" },
        FeatureBit { id: "tsc_deadline", source: BitSource::Leaf1Ecx(24), tag: "leaf 1" },
        FeatureBit { id: "pdcm", source: BitSource::Leaf1Ecx(15), tag: "leaf 1" },
        FeatureBit { id: "bts", source: BitSource::Leaf1Edx(21), tag: "leaf 1 (DS)" },
        FeatureBit { id: "avx2", source: BitSource::Leaf7Ebx(5), tag: "leaf 7" },
        FeatureBit { id: "bmi1", source: BitSource::Leaf7Ebx(3), tag: "leaf 7" },
        FeatureBit { id: "bmi2", source: BitSource::Leaf7Ebx(8), tag: "leaf 7" },
        FeatureBit { id: "adx", source: BitSource::Leaf7Ebx(19), tag: "leaf 7" },
        FeatureBit { id: "fsgsbase", source: BitSource::Leaf7Ebx(0), tag: "leaf 7" },
    ]
}

pub open spec fn bit_table_part_2() -> Seq<FeatureBit> {
    seq![
        FeatureBit { id: "smep", source: BitSource::Leaf7Ebx(7), tag: "leaf 7" },
        FeatureBit { id: "smap", source: BitSource::Leaf7Ebx(20), tag: "leaf 7" },
        FeatureBit { id: "umip", source: BitSource::Leaf7Ecx(2), tag: "leaf 7" },
        FeatureBit { id: "pku", source: BitSource::Leaf7Ecx(3), tag: "leaf 7" },
        FeatureBit { id: "ospke", source: BitSource::Leaf7Ecx(4), tag: "leaf 7" },
        FeatureBit { id: "avx512f", source: BitSource::Leaf7Ebx(16), tag: "leaf 7" },
        FeatureBit { id: "avx512cd", source: BitSource::Leaf7Ebx(28), tag: "leaf 7" },
        FeatureBit { id: "avx512vl", source: BitSource::Leaf7Ebx(31), tag: "leaf 7" },
        FeatureBit { id: "avx512dq", source: BitSource::Leaf7Ebx(17), tag: "leaf 7" },
        FeatureBit { id: "avx512bw", source: BitSource::Leaf7Ebx(30), tag: "leaf 7" },
        FeatureBit { id: "avx512ifma", source: BitSource::Leaf7Ebx(21), tag: "leaf 7" },
        FeatureBit { id: "avx512vbmi", source: BitSource::Leaf7Ecx(1), tag: "leaf 7" },
        FeatureBit { id: "avx512vbmi2", source: BitSource::Leaf7Ecx(6), tag: "leaf 7" },
        FeatureBit { id: "avx512vnni", source: BitSource::Leaf7Ecx(11), tag: "leaf 7" },
        FeatureBit { id: "avx512bitalg", source: BitSource::Leaf7Ecx(12), tag: "leaf 7" },
        FeatureBit { id: "avx512vpopcntdq", source: BitSource::Leaf7Ecx(14), tag: "leaf 7" },
    ]
}

pub open spec fn bit_table_part_3() -> Seq<FeatureBit> {
    seq![
        FeatureBit { id: "avx512vp2intersect", source: BitSource::Leaf7Edx(8), tag: "leaf 7" },
        FeatureBit { id: "avx512bf16", source: BitSource::Leaf7Eax1(5), tag: "leaf 7" },
        FeatureBit { id: "avx512fp16", source: BitSource::Leaf7Edx(23), tag: "leaf 7" },
        FeatureBit { id: "avx10", source: BitSource::Leaf7Edx1(19), tag: "leaf 7" },
        FeatureBit { id: "avx_vnni", source: BitSource::Leaf7Eax1(4), tag: "leaf 7" },
        FeatureBit { id: "avx_vnni_int8", source: BitSource::Leaf7Edx1(4), tag: "leaf 7" },
        FeatureBit { id: "avx_vnni_int16", source: BitSource::Leaf7Edx1(10), tag: "leaf 7" },
        FeatureBit { id: "avx_ifma", source: BitSource::Leaf7Eax1(23), tag: "leaf 7" },
        FeatureBit { id: "avx_ne_convert", source: BitSource::Leaf7Edx1(5), tag: "leaf 7" },
        FeatureBit { id: "amx_tile", source: BitSource::Leaf7Edx(24), tag: "leaf 7" },
        FeatureBit { id: "amx_int8", source: BitSource::Leaf7Edx(25), tag: "leaf 7" },
        FeatureBit { id: "amx_bf16", source: BitSource::Leaf7Edx(22), tag: "leaf 7" },
        FeatureBit { id: "sha", source: BitSource::Leaf7Ebx(29), tag: "leaf 7" },
        FeatureBit { id: "vaes", source: BitSource::Leaf7Ecx(9), tag: "leaf 7" },
        FeatureBit { id: "vpclmulqdq", source: BitSource::Leaf7Ecx(10), tag: "leaf 7" },
        FeatureBit { id: "gfni", source: BitSource::Leaf7Ecx(8), tag: "leaf 7" },
    ]
}

pub open spec fn bit_table_part_4() -> Seq<FeatureBit> {
    seq![
        FeatureBit { id: "rdseed", source: BitSource::Leaf7Ebx(18), tag: "leaf 7" },
        FeatureBit { id: "rtm", source: BitSource::Leaf7Ebx(11), tag: "leaf 7" },
        FeatureBit { id: "hle", source: BitSource::Leaf7Ebx(4), tag: "leaf 7" },
        FeatureBit { id: "clflushopt", source: BitSource::Leaf7Ebx(23), tag: "leaf 7" },
        FeatureBit { id: "clwb", source: BitSource::Leaf7Ebx(24), tag: "leaf 7" },
        FeatureBit { id: "waitpkg", source: BitSource::Leaf7Ecx(5), tag: "leaf 7" },
        FeatureBit { id: "hreset", source: BitSource::Leaf7Eax1(22), tag: "leaf 7" },
        FeatureBit { id: "prefetchi", source: BitSource::Leaf7Edx1(14), tag: "leaf 7" },
        FeatureBit { id: "rdpid", source: BitSource::Leaf7Ecx(22), tag: "leaf 7" },
        FeatureBit { id: "cet_ss", source: BitSource::Leaf7Ecx(7), tag: "leaf 7" },
        FeatureBit { id: "cet_sss", source: BitSource::Leaf7Edx1(18), tag: "leaf 7" },
        FeatureBit { id: "mpx", source: BitSource::Leaf7Ebx(14), tag: "leaf 7" },
        FeatureBit { id: "sgx", source: BitSource::Leaf7Ebx(2), tag: "leaf 7" },
        FeatureBit { id: "sgx_lc", source: BitSource::Leaf7Ecx(30), tag: "leaf 7" },
        FeatureBit { id: "tme", source: BitSource::Leaf7Ecx(13), tag: "leaf 7" },
        FeatureBit { id: "lam", source: BitSource::Leaf7Eax1(26), tag: "leaf 7" },
    ]
}

pub open spec fn bit_table_part_5() -> Seq<FeatureBit> {
    seq![
        FeatureBit { id: "intel_pt", source: BitSource::Leaf7Ebx(25), tag: "leaf 7" },
        FeatureBit { id: "rdt_m", source: BitSource::Leaf7Ebx(12), tag: "leaf 7" },
        FeatureBit { id: "rdt_a", source: BitSource::Leaf7Ebx(15), tag: "leaf 7" },
        FeatureBit { id: "movdiri", source: BitSource::Direct7Ecx(27), tag: "leaf 7:ECX[27]" },
        FeatureBit { id: "movdir64b", source: BitSource::Direct7Ecx(28), tag: "leaf 7:ECX[28]" },
        FeatureBit { id: "fsrm", source: BitSource::Direct7Edx(4), tag: "leaf 7:EDX[4]" },
        FeatureBit { id: "serialize", source: BitSource::Direct7Edx(14), tag: "leaf 7:EDX[14]" },
        FeatureBit { id: "hybrid", source: BitSource::Direct7Edx(15), tag: "leaf 7:EDX[15]" },
        FeatureBit { id: "arch_lbr", source: BitSource::Direct7Edx(19), tag: "leaf 7:EDX[19]" },
        FeatureBit { id: "cet_ibt", source: BitSource::Direct7Edx(20), tag: "leaf 7:EDX[20]" },
        FeatureBit { id: "hwp", source: BitSource::Leaf6Eax(7), tag: "leaf 6" },
        FeatureBit { id: "hwp_notification", source: BitSource::Leaf6Eax(8), tag: "leaf 6" },
        FeatureBit { id: "hwp_epp", source: BitSource::Leaf6Eax(10), tag: "leaf 6" },
        FeatureBit { id: "hwp_activity_window", source: BitSource::Leaf6Eax(9), tag: "leaf 6" },
        FeatureBit { id: "hwp_package", source: BitSource::Leaf6Eax(11), tag: "leaf 6" },
        FeatureBit { id: "turbo", source: BitSource::Leaf6Eax(1), tag: "leaf 6" },
    ]
}

pub open spec fn bit_table_part_6() -> Seq<FeatureBit> {
    seq![
        FeatureBit { id: "turbo3", source: BitSource::Leaf6Eax(14), tag: "leaf 6" },
        FeatureBit { id: "arat", source: BitSource::Leaf6Eax(2), tag: "leaf 6" },
        FeatureBit { id: "hdc", source: BitSource::Leaf6Eax(13), tag: "leaf 6" },
        FeatureBit { id: "dts", source: BitSource::Leaf6Eax(0), tag: "leaf 6" },
        FeatureBit { id: "ptm", source: BitSource::Leaf6Eax(6), tag: "leaf 6" },
        FeatureBit { id: "epb", source: BitSource::Leaf6Ecx(3), tag: "leaf 6" },
        FeatureBit { id: "pln", source: BitSource::Leaf6Eax(4), tag: "leaf 6" },
        FeatureBit { id: "xsaveopt", source: BitSource::LeafDEax1(0), tag: "leaf 0xD" },
        FeatureBit { id: "xsavec", source: BitSource::LeafDEax1(1), tag: "leaf 0xD" },
        FeatureBit { id: "xsaves", source: BitSource::LeafDEax1(3), tag: "leaf 0xD" },
        FeatureBit { id: "nx", source: BitSource::Ext1Edx(20), tag: "ext leaf 1" },
        FeatureBit { id: "lzcnt", source: BitSource::Ext1Ecx(5), tag: "ext leaf 1" },
        FeatureBit { id: "arch_perfmon", source: BitSource::ArchPerfmon, tag: "leaf 0xA" },
        FeatureBit { id: "ptwrite", source: BitSource::Leaf14Ebx(4), tag: "leaf 0x14" },
        FeatureBit { id: "cmt", source: BitSource::L3Monitoring(0), tag: "leaf 0xF" },
        FeatureBit { id: "mbm_local", source: BitSource::L3Monitoring(2), tag: "leaf 0xF" },
    ]
}

pub open spec fn bit_table_part_7() -> Seq<FeatureBit> {
    seq![
        FeatureBit { id: "mbm_total", source: BitSource::L3Monitoring(1), tag: "leaf 0xF" },
        FeatureBit { id: "cat_l3", source: BitSource::Leaf10Ebx(1), tag: "leaf 0x10" },
        FeatureBit { id: "cat_l2", source: BitSource::Leaf10Ebx(2), tag: "leaf 0x10" },
        FeatureBit { id: "mba", source: BitSource::Leaf10Ebx(3), tag: "leaf 0x10" },
        FeatureBit { id: "cdp_l3", source: BitSource::L3CatEcx(2), tag: "leaf 0x10" },
    ]
}

/// The features decoded from each core, in report order, with the leaf each comes from.
pub open spec fn bit_table() -> Seq<FeatureBit> {
    bit_table_part_0()
        + bit_table_part_1()
        + bit_table_part_2()
        + bit_table_part_3()
        + bit_table_part_4()
        + bit_table_part_5()
        + bit_table_part_6()
        + bit_table_part_7()
}

fn bit_part_0() -> (r: Vec<FeatureBit>)
    ensures
        r@ == bit_table_part_0(),
{
    let r = vec![
        FeatureBit { id: "sse", source: BitSource::Leaf1Edx(25), tag: "leaf 1" },
        FeatureBit { id: "sse2", source: BitSource::Leaf1Edx(26), tag: "leaf 1" },
        FeatureBit { id: "sse3", source: BitSource::Leaf1Ecx(0), tag: "leaf 1" },
        FeatureBit { id: "ssse3", source: BitSource::Leaf1Ecx(9), tag: "leaf 1" },
        FeatureBit { id: "sse4_1", source: BitSource::Leaf1Ecx(19), tag: "leaf 1" },
        FeatureBit { id: "sse4_2", source: BitSource::Leaf1Ecx(20), tag: "leaf 1" },
        FeatureBit { id: "avx", source: BitSource::Leaf1Ecx(28), tag: "leaf 1" },
        FeatureBit { id: "fma", source: BitSource::Leaf1Ecx(12), tag: "leaf 1" },
        FeatureBit { id: "f16c", source: BitSource::Leaf1Ecx(29), tag: "leaf 1" },
        FeatureBit { id: "popcnt", source: BitSource::Leaf1Ecx(23), tag: "leaf 1" },
        FeatureBit { id: "movbe", source: BitSource::Leaf1Ecx(22), tag: "leaf 1" },
        FeatureBit { id: "aes", source: BitSource::Leaf1Ecx(25), tag: "leaf 1" },
        FeatureBit { id: "pclmulqdq", source: BitSource::Leaf1Ecx(1), tag: "leaf 1" },
        FeatureBit { id: "rdrand", source: BitSource::Leaf1Ecx(30), tag: "leaf 1" },
        FeatureBit { id: "cmpxchg16b", source: BitSource::Leaf1Ecx(13), tag: "leaf 1" },
        FeatureBit { id: "xsave", source: BitSource::Leaf1Ecx(26), tag: "leaf 1" },
    ];
    assert(r@ =~= bit_table_part_0());
    r
}

fn bit_part_1() -> (r: Vec<FeatureBit>)
    ensures
        r@ == bit_table_part_1(),
{
    let r = vec![
        FeatureBit { id: "monitor", source: BitSource::Leaf1Ecx(3), tag: "leaf 1" },
        FeatureBit { id: "vmx", source: BitSource::Leaf1Ecx(5), tag: "leaf 1" },
        FeatureBit { id: "smx", source: BitSource::Leaf1Ecx(6), tag: "leaf 1" },
        FeatureBit { id: "eist", source: BitSource::Leaf1Ecx(7), tag: "leaf 1" },
        FeatureBit { id: "tm2", source: BitSource::Leaf1Ecx(8), tag: "leaf 1" },
        FeatureBit { id: "x2apic", source: BitSource::Leaf1Ecx(21), tag: "leaf 1" },
        FeatureBit { id: "htt", source: BitSource::Leaf1Edx(28), tag: "leaf 1" },
        FeatureBit { id: "hypervisor", source: BitSource::Leaf1Ecx(31), tag: "leaf 1" },
        FeatureBit { id: "tsc_deadline", source: BitSource::Leaf1Ecx(24), tag: "leaf 1" },
        FeatureBit { id: "pdcm", source: BitSource::Leaf1Ecx(15), tag: "leaf 1" },
        FeatureBit { id: "bts", source: BitSource::Leaf1Edx(21), tag: "leaf 1 (DS)" },
        FeatureBit { id: "avx2", source: BitSource::Leaf7Ebx(5), tag: "leaf 7" },
        FeatureBit { id: "bmi1", source: BitSource::Leaf7Ebx(3), tag: "leaf 7" },
        FeatureBit { id: "bmi2", source: BitSource::Leaf7Ebx(8), tag: "leaf 7" },
        FeatureBit { id: "adx", source: BitSource::Leaf7Ebx(19), tag: "leaf 7" },
        FeatureBit { id: "fsgsbase", source: BitSource::Leaf7Ebx(0), tag: "leaf 7" },
    ];
    assert(r@ =~= bit_table_part_1());
    r
}

fn bit_part_2() -> (r: Vec<FeatureBit>)
    ensures
        r@ == bit_table_part_2(),
{
    let r = vec![
        FeatureBit { id: "smep", source: BitSource::Leaf7Ebx(7), tag: "leaf 7" },
        FeatureBit { id: "smap", source: BitSource::Leaf7Ebx(20), tag: "leaf 7" },
        FeatureBit { id: "umip", source: BitSource::Leaf7Ecx(2), tag: "leaf 7" },
        FeatureBit { id: "pku", source: BitSource::Leaf7Ecx(3), tag: "leaf 7" },
        FeatureBit { id: "ospke", source: BitSource::Leaf7Ecx(4), tag: "leaf 7" },
        FeatureBit { id: "avx512f", source: BitSource::Leaf7Ebx(16), tag: "leaf 7" },
        FeatureBit { id: "avx512cd", source: BitSource::Leaf7Ebx(28), tag: "leaf 7" },
        FeatureBit { id: "avx512vl", source: BitSource::Leaf7Ebx(31), tag: "leaf 7" },
        FeatureBit { id: "avx512dq", source: BitSource::Leaf7Ebx(17), tag: "leaf 7" },
        FeatureBit { id: "avx512bw", source: BitSource::Leaf7Ebx(30), tag: "leaf 7" },
        FeatureBit { id: "avx512ifma", source: BitSource::Leaf7Ebx(21), tag: "leaf 7" },
        FeatureBit { id: "avx512vbmi", source: BitSource::Leaf7Ecx(1), tag: "leaf 7" },
        FeatureBit { id: "avx512vbmi2", source: BitSource::Leaf7Ecx(6), tag: "leaf 7" },
        FeatureBit { id: "avx512vnni", source: BitSource::Leaf7Ecx(11), tag: "leaf 7" },
        FeatureBit { id: "avx512bitalg", source: BitSource::Leaf7Ecx(12), tag: "leaf 7" },
        FeatureBit { id: "avx512vpopcntdq", source: BitSource::Leaf7Ecx(14), tag: "leaf 7" },
    ];
    assert(r@ =~= bit_table_part_2());
    r
}

fn bit_part_3() -> (r: Vec<FeatureBit>)
    ensures
        r@ == bit_table_part_3(),
{
    let r = vec![
        FeatureBit { id: "avx512vp2intersect", source: BitSource::Leaf7Edx(8), tag: "leaf 7" },
        FeatureBit { id: "avx512bf16", source: BitSource::Leaf7Eax1(5), tag: "leaf 7" },
        FeatureBit { id: "avx512fp16", source: BitSource::Leaf7Edx(23), tag: "leaf 7" },
        FeatureBit { id: "avx10", source: BitSource::Leaf7Edx1(19), tag: "leaf 7" },
        FeatureBit { id: "avx_vnni", source: BitSource::Leaf7Eax1(4), tag: "leaf 7" },
        FeatureBit { id: "avx_vnni_int8", source: BitSource::Leaf7Edx1(4), tag: "leaf 7" },
        FeatureBit { id: "avx_vnni_int16", source: BitSource::Leaf7Edx1(10), tag: "leaf 7" },
        FeatureBit { id: "avx_ifma", source: BitSource::Leaf7Eax1(23), tag: "leaf 7" },
        FeatureBit { id: "avx_ne_convert", source: BitSource::Leaf7Edx1(5), tag: "leaf 7" },
        FeatureBit { id: "amx_tile", source: BitSource::Leaf7Edx(24), tag: "leaf 7" },
        FeatureBit { id: "amx_int8", source: BitSource::Leaf7Edx(25), tag: "leaf 7" },
        FeatureBit { id: "amx_bf16", source: BitSource::Leaf7Edx(22), tag: "leaf 7" },
        FeatureBit { id: "sha", source: BitSource::Leaf7Ebx(29), tag: "leaf 7" },
        FeatureBit { id: "vaes", source: BitSource::Leaf7Ecx(9), tag: "leaf 7" },
        FeatureBit { id: "vpclmulqdq", source: BitSource::Leaf7Ecx(10), tag: "leaf 7" },
        FeatureBit { id: "gfni", source: BitSource::Leaf7Ecx(8), tag: "leaf 7" },
    ];
    assert(r@ =~= bit_table_part_3());
    r
}

fn bit_part_4() -> (r: Vec<FeatureBit>)
    ensures
        r@ == bit_table_part_4(),
{
    let r = vec![
        FeatureBit { id: "rdseed", source: BitSource::Leaf7Ebx(18), tag: "leaf 7" },
        FeatureBit { id: "rtm", source: BitSource::Leaf7Ebx(11), tag: "leaf 7" },
        FeatureBit { id: "hle", source: BitSource::Leaf7Ebx(4), tag: "leaf 7" },
        FeatureBit { id: "clflushopt", source: BitSource::Leaf7Ebx(23), tag: "leaf 7" },
        FeatureBit { id: "clwb", source: BitSource::Leaf7Ebx(24), tag: "leaf 7" },
        FeatureBit { id: "waitpkg", source: BitSource::Leaf7Ecx(5), tag: "leaf 7" },
        FeatureBit { id: "hreset", source: BitSource::Leaf7Eax1(22), tag: "leaf 7" },
        FeatureBit { id: "prefetchi", source: BitSource::Leaf7Edx1(14), tag: "leaf 7" },
        FeatureBit { id: "rdpid", source: BitSource::Leaf7Ecx(22), tag: "leaf 7" },
        FeatureBit { id: "cet_ss", source: BitSource::Leaf7Ecx(7), tag: "leaf 7" },
        FeatureBit { id: "cet_sss", source: BitSource::Leaf7Edx1(18), tag: "leaf 7" },
        FeatureBit { id: "mpx", source: BitSource::Leaf7Ebx(14), tag: "leaf 7" },
        FeatureBit { id: "sgx", source: BitSource::Leaf7Ebx(2), tag: "leaf 7" },
        FeatureBit { id: "sgx_lc", source: BitSource::Leaf7Ecx(30), tag: "leaf 7" },
        FeatureBit { id: "tme", source: BitSource::Leaf7Ecx(13), tag: "leaf 7" },
        FeatureBit { id: "lam", source: BitSource::Leaf7Eax1(26), tag: "leaf 7" },
    ];
    assert(r@ =~= bit_table_part_4());
    r
}

fn bit_part_5() -> (r: Vec<FeatureBit>)
    ensures
        r@ == bit_table_part_5(),
{
    let r = vec![
        FeatureBit { id: "intel_pt", source: BitSource::Leaf7Ebx(25), tag: "leaf 7" },
        FeatureBit { id: "rdt_m", source: BitSource::Leaf7Ebx(12), tag: "leaf 7" },
        FeatureBit { id: "rdt_a", source: BitSource::Leaf7Ebx(15), tag: "leaf 7" },
        FeatureBit { id: "movdiri", source: BitSource::Direct7Ecx(27), tag: "leaf 7:ECX[27]" },
        FeatureBit { id: "movdir64b", source: BitSource::Direct7Ecx(28), tag: "leaf 7:ECX[28]" },
        FeatureBit { id: "fsrm", source: BitSource::Direct7Edx(4), tag: "leaf 7:EDX[4]" },
        FeatureBit { id: "serialize", source: BitSource::Direct7Edx(14), tag: "leaf 7:EDX[14]" },
        FeatureBit { id: "hybrid", source: BitSource::Direct7Edx(15), tag: "leaf 7:EDX[15]" },
        FeatureBit { id: "arch_lbr", source: BitSource::Direct7Edx(19), tag: "leaf 7:EDX[19]" },
        FeatureBit { id: "cet_ibt", source: BitSource::Direct7Edx(20), tag: "leaf 7:EDX[20]" },
        FeatureBit { id: "hwp", source: BitSource::Leaf6Eax(7), tag: "leaf 6" },
        FeatureBit { id: "hwp_notification", source: BitSource::Leaf6Eax(8), tag: "leaf 6" },
        FeatureBit { id: "hwp_epp", source: BitSource::Leaf6Eax(10), tag: "leaf 6" },
        FeatureBit { id: "hwp_activity_window", source: BitSource::Leaf6Eax(9), tag: "leaf 6" },
        FeatureBit { id: "hwp_package", source: BitSource::Leaf6Eax(11), tag: "leaf 6" },
        FeatureBit { id: "turbo", source: BitSource::Leaf6Eax(1), tag: "leaf 6" },
    ];
    assert(r@ =~= bit_table_part_5());
    r
}

fn bit_part_6() -> (r: Vec<FeatureBit>)
    ensures
        r@ == bit_table_part_6(),
{
    let r = vec![
        FeatureBit { id: "turbo3", source: BitSource::Leaf6Eax(14), tag: "leaf 6" },
        FeatureBit { id: "arat", source: BitSource::Leaf6Eax(2), tag: "leaf 6" },
        FeatureBit { id: "hdc", source: BitSource::Leaf6Eax(13), tag: "leaf 6" },
        FeatureBit { id: "dts", source: BitSource::Leaf6Eax(0), tag: "leaf 6" },
        FeatureBit { id: "ptm", source: BitSource::Leaf6Eax(6), tag: "leaf 6" },
        FeatureBit { id: "epb", source: BitSource::Leaf6Ecx(3), tag: "leaf 6" },
        FeatureBit { id: "pln", source: BitSource::Leaf6Eax(4), tag: "leaf 6" },
        FeatureBit { id: "xsaveopt", source: BitSource::LeafDEax1(0), tag: "leaf 0xD" },
        FeatureBit { id: "xsavec", source: BitSource::LeafDEax1(1), tag: "leaf 0xD" },
        FeatureBit { id: "xsaves", source: BitSource::LeafDEax1(3), tag: "leaf 0xD" },
        FeatureBit { id: "nx", source: BitSource::Ext1Edx(20), tag: "ext leaf 1" },
        FeatureBit { id: "lzcnt", source: BitSource::Ext1Ecx(5), tag: "ext leaf 1" },
        FeatureBit { id: "arch_perfmon", source: BitSource::ArchPerfmon, tag: "leaf 0xA" },
        FeatureBit { id: "ptwrite", source: BitSource::Leaf14Ebx(4), tag: "leaf 0x14" },
        FeatureBit { id: "cmt", source: BitSource::L3Monitoring(0), tag: "leaf 0xF" },
        FeatureBit { id: "mbm_local", source: BitSource::L3Monitoring(2), tag: "leaf 0xF" },
    ];
    assert(r@ =~= bit_table_part_6());
    r
}

fn bit_part_7() -> (r: Vec<FeatureBit>)
    ensures
        r@ == bit_table_part_7(),
{
    let r = vec![
        FeatureBit { id: "mbm_total", source: BitSource::L3Monitoring(1), tag: "leaf 0xF" },
        FeatureBit { id: "cat_l3", source: BitSource::Leaf10Ebx(1), tag: "leaf 0x10" },
        FeatureBit { id: "cat_l2", source: BitSource::Leaf10Ebx(2), tag: "leaf 0x10" },
        FeatureBit { id: "mba", source: BitSource::Leaf10Ebx(3), tag: "leaf 0x10" },
        FeatureBit { id: "cdp_l3", source: BitSource::L3CatEcx(2), tag: "leaf 0x10" },
    ];
    assert(r@ =~= bit_table_part_7());
    r
}

/// Executable [`bit_table`].
pub fn feature_bits() -> (r: Vec<FeatureBit>)
    ensures
        r@ == bit_table(),
{
    let mut r = bit_part_0();
    let mut p = bit_part_1();
    r.append(&mut p);
    let mut p = bit_part_2();
    r.append(&mut p);
    let mut p = bit_part_3();
    r.append(&mut p);
    let mut p = bit_part_4();
    r.append(&mut p);
    let mut p = bit_part_5();
    r.append(&mut p);
    let mut p = bit_part_6();
    r.append(&mut p);
    let mut p = bit_part_7();
    r.append(&mut p);
    assert(r@ =~= bit_table());
    r
}

/// The ids the CPUID probe reports, in alphabetical order.
pub open spec fn cpuid_feature_ids() -> Seq<&'static str> {
    seq!["adx", "aes", "amx_bf16", "amx_int8", "amx_tile", "arat", "arch_lbr", "arch_perfmon", "avx", "avx10", "avx2", "avx512bf16", "avx512bitalg", "avx512bw", "avx512cd", "avx512dq", "avx512f", "avx512fp16", "avx512ifma", "avx512vbmi", "avx512vbmi2", "avx512vl", "avx512vnni", "avx512vp2intersect", "avx512vpopcntdq", "avx_ifma", "avx_ne_convert", "avx_vnni", "avx_vnni_int16", "avx_vnni_int8", "bmi1", "bmi2", "bts", "cat_l2", "cat_l3", "cdp_l3", "cet_ibt", "cet_ss", "cet_sss", "clflushopt"]
        + seq!["clwb", "cmpxchg16b", "cmt", "dts", "eist", "epb", "f16c", "fma", "fsgsbase", "fsrm", "gfni", "hdc", "hle", "hreset", "htt", "hwp", "hwp_activity_window", "hwp_epp", "hwp_notification", "hwp_package", "hybrid", "hypervisor", "intel_pt", "lam", "lzcnt", "mba", "mbm_local", "mbm_total", "monitor", "movbe", "movdir64b", "movdiri", "mpx", "nx", "ospke", "pclmulqdq", "pdcm", "pku", "pln", "popcnt"]
        + seq!["prefetchi", "ptm", "ptwrite", "rdpid", "rdrand", "rdseed", "rdt_a", "rdt_m", "rtm", "serialize", "sgx", "sgx_lc", "sha", "smap", "smep", "smx", "sse", "sse2", "sse3", "sse4_1", "sse4_2", "ssse3", "tm2", "tme", "tsc_deadline", "turbo", "turbo3", "umip", "vaes", "vmx", "vpclmulqdq", "waitpkg", "x2apic", "xsave", "xsavec", "xsaveopt", "xsaves"]
}

/// Executable [`cpuid_feature_ids`].
pub fn cpuid_ids() -> (r: Vec<&'static str>)
    ensures
        r@ == cpuid_feature_ids(),
{
    let mut r = vec!["adx", "aes", "amx_bf16", "amx_int8", "amx_tile", "arat", "arch_lbr", "arch_perfmon", "avx", "avx10", "avx2", "avx512bf16", "avx512bitalg", "avx512bw", "avx512cd", "avx512dq", "avx512f", "avx512fp16", "avx512ifma", "avx512vbmi", "avx512vbmi2", "avx512vl", "avx512vnni", "avx512vp2intersect", "avx512vpopcntdq", "avx_ifma", "avx_ne_convert", "avx_vnni", "avx_vnni_int16", "avx_vnni_int8", "bmi1", "bmi2", "bts", "cat_l2", "cat_l3", "cdp_l3", "cet_ibt", "cet_ss", "cet_sss", "clflushopt"];
    let mut p1 = vec!["clwb", "cmpxchg16b", "cmt", "dts", "eist", "epb", "f16c", "fma", "fsgsbase", "fsrm", "gfni", "hdc", "hle", "hreset", "htt", "hwp", "hwp_activity_window", "hwp_epp", "hwp_notification", "hwp_package", "hybrid", "hypervisor", "intel_pt", "lam", "lzcnt", "mba", "mbm_local", "mbm_total", "monitor", "movbe", "movdir64b", "movdiri", "mpx", "nx", "ospke", "pclmulqdq", "pdcm", "pku", "pln", "popcnt"];
    let mut p2 = vec!["prefetchi", "ptm", "ptwrite", "rdpid", "rdrand", "rdseed", "rdt_a", "rdt_m", "rtm", "serialize", "sgx", "sgx_lc", "sha", "smap", "smep", "smx", "sse", "sse2", "sse3", "sse4_1", "sse4_2", "ssse3", "tm2", "tme", "tsc_deadline", "turbo", "turbo3", "umip", "vaes", "vmx", "vpclmulqdq", "waitpkg", "x2apic", "xsave", "xsavec", "xsaveopt", "xsaves"];
    r.append(&mut p1);
    r.append(&mut p2);
    assert(r@ =~= cpuid_feature_ids());
    r
}

} // verus!
