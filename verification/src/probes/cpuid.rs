//! CPUID probe: the zero-privilege workhorse.
//!
//! CPUID is executed per logical core (the caller pins a thread to each eligible CPU and
//! has [`read_leaves`] record that core's leaves), so hybrid asymmetries are visible: a
//! feature present only on P-cores is reported `Present` with an "asymmetric" note,
//! since software cannot rely on it uniformly. This module decodes each core's leaves,
//! folds the cores into one detection per feature, and builds the identity banner.

use vstd::prelude::*;

use crate::cpu_db::{lookup, max_memory_channels, spec_lookup, spec_max_memory_channels, CpuModelInfo};
use crate::model::{Detection, Status};
use crate::probes::cpuid_table::{
    bit_table, bit_table_part_0, bit_table_part_1, bit_table_part_2, bit_table_part_3,
    bit_table_part_4, bit_table_part_5, bit_table_part_6, bit_table_part_7, cpuid_feature_ids, cpuid_ids, feature_bits, is_amd, is_intel, le_bytes,
    push_le, source_value, eval_source, supported, vendor_bytes, vendor_class, leaf_supported,
    CoreLeaves, FeatureBit, Regs,
};
use crate::probes::{
    Probe,
    all_unknown, detection_is, findings_are, lemma_findings_push,
    unavailable, Findings, TextRead,
};
use crate::text::{
    chars_have_prefix, chars_of, dec, find_char, has_prefix, line_spans, lines,
    owned_range, parse_u32, parse_u32_str, push_dec, spans_valid, spans_view, split_char,
    split_once, split_spans, trim, trim_owned, utf8_string,
};

verus! {

pub const SRC: &'static str = "cpuid";

/// Raw `CPUID` with leaf `leaf` and sub-leaf `sub` on the current core, as
/// `(eax, ebx, ecx, edx)`. It calls `raw_cpuid::native_cpuid::cpuid_count`; what comes
/// back depends on the processor and is not stated.
#[verifier::external_body]
pub fn cpuid(leaf: u32, sub: u32) -> (u32, u32, u32, u32) {
    let r = raw_cpuid::native_cpuid::cpuid_count(leaf, sub);
    (r.eax, r.ebx, r.ecx, r.edx)
}

/// `CPUID` for leaf `leaf` and sub-leaf `sub`, tagged with the query it answers.
fn regs(leaf: u32, sub: u32) -> (r: Regs)
    ensures
        r.leaf == leaf,
        r.sub == sub,
{
    let (eax, ebx, ecx, edx) = cpuid(leaf, sub);
    Regs { leaf, sub, eax, ebx, ecx, edx }
}

/// The extended topology leaf to walk: 0x1F when available, else 0xB, else none.
pub open spec fn topology_leaf(max_basic: u32) -> Option<u32> {
    if max_basic >= 0x1f {
        Some(0x1f)
    } else if max_basic >= 0x0b {
        Some(0x0b)
    } else {
        None
    }
}

/// `r` holds the answer to the query `(leaf, sub)`.
pub open spec fn answers(r: Regs, leaf: u32, sub: u32) -> bool {
    r.leaf == leaf && r.sub == sub
}

/// The sub-leaves `0, 1, …` of the extended topology leaf that the maximum basic leaf
/// `max_basic` selects, read up to and including the first whose EBX is zero, and at
/// most 32 of them; none when there is no such leaf.
pub open spec fn topology_walk(max_basic: u32, t: Seq<Regs>) -> bool {
    &&& t.len() <= 32
    &&& forall|k: int| 0 <= k < t.len() - 1 ==> #[trigger] t[k].ebx != 0
    &&& match topology_leaf(max_basic) {
        None => t.len() == 0,
        Some(leaf) => {
            &&& t.len() >= 1
            &&& (t.len() == 32 || t.last().ebx == 0)
            &&& forall|k: int| 0 <= k < t.len() ==> answers(#[trigger] t[k], leaf, k as u32)
        },
    }
}

/// Each field of `l` holds the `CPUID` query its name says, and the topology list is the
/// walk of the extended topology leaf.
pub open spec fn leaves_tagged(l: CoreLeaves) -> bool {
    &&& answers(l.leaf0, 0, 0)
    &&& answers(l.leaf1, 1, 0)
    &&& answers(l.leaf6, 6, 0)
    &&& answers(l.leaf7, 7, 0)
    &&& answers(l.leaf7_1, 7, 1)
    &&& answers(l.leaf_a, 0xa, 0)
    &&& answers(l.leaf_d_1, 0xd, 1)
    &&& answers(l.leaf_f, 0xf, 0)
    &&& answers(l.leaf_f_1, 0xf, 1)
    &&& answers(l.leaf_10, 0x10, 0)
    &&& answers(l.leaf_10_1, 0x10, 1)
    &&& answers(l.leaf_14, 0x14, 0)
    &&& answers(l.leaf_1a, 0x1a, 0)
    &&& answers(l.ext0, 0x8000_0000, 0)
    &&& answers(l.ext1, 0x8000_0001, 0)
    &&& answers(l.brand0, 0x8000_0002, 0)
    &&& answers(l.brand1, 0x8000_0003, 0)
    &&& answers(l.brand2, 0x8000_0004, 0)
    &&& topology_walk(l.leaf0.eax, l.topology@)
}

/// Records the leaves the probe decodes, on the core the calling thread runs on.
pub fn read_leaves() -> (r: CoreLeaves)
    ensures
        leaves_tagged(r),
{
    let leaf0 = regs(0, 0);
    let mut topology: Vec<Regs> = Vec::new();
    let leaf: u32 = if leaf0.eax >= 0x1f {
        0x1f
    } else if leaf0.eax >= 0x0b {
        0x0b
    } else {
        0
    };
    if leaf != 0 {
        let mut sub: u32 = 0;
        let mut done = false;
        while !done && sub < 32
            invariant
                sub <= 32,
                topology@.len() == sub,
                forall|k: int| 0 <= k < topology@.len() - (if done { 1int } else { 0int }) ==> #[trigger] topology@[k].ebx != 0,
                forall|k: int| 0 <= k < topology@.len() ==> answers(#[trigger] topology@[k], leaf, k as u32),
                done ==> topology@.len() > 0 && topology@.last().ebx == 0,
            decreases 32 - sub + (if done { 0int } else { 1int }),
        {
            let r = regs(leaf, sub);
            topology.push(r);
            if r.ebx == 0 {
                done = true;
            }
            sub += 1;
        }
    }
    CoreLeaves {
        leaf0,
        leaf1: regs(1, 0),
        leaf6: regs(6, 0),
        leaf7: regs(7, 0),
        leaf7_1: regs(7, 1),
        leaf_a: regs(0xa, 0),
        leaf_d_1: regs(0xd, 1),
        leaf_f: regs(0xf, 0),
        leaf_f_1: regs(0xf, 1),
        leaf_10: regs(0x10, 0),
        leaf_10_1: regs(0x10, 1),
        leaf_14: regs(0x14, 0),
        leaf_1a: regs(0x1a, 0),
        ext0: regs(0x8000_0000, 0),
        ext1: regs(0x8000_0001, 0),
        brand0: regs(0x8000_0002, 0),
        brand1: regs(0x8000_0003, 0),
        brand2: regs(0x8000_0004, 0),
        topology,
    }
}

// ---- one core ---------------------------------------------------------------------

/// Core type as reported by CPUID leaf 0x1A.
#[derive(Debug, Clone, Copy, PartialEq, Eq, Structural)]
pub enum CoreType {
    Performance,
    Efficiency,
    Other,
}

impl CoreType {
    /// `P`, `E` or `?`.
    pub fn short(self) -> (r: &'static str)
        ensures
            r@ == core_type_letter(self),
    {
        match self {
            CoreType::Performance => "P",
            CoreType::Efficiency => "E",
            CoreType::Other => "?",
        }
    }
}

pub open spec fn core_type_letter(t: CoreType) -> Seq<char> {
    match t {
        CoreType::Performance => "P"@,
        CoreType::Efficiency => "E"@,
        CoreType::Other => "?"@,
    }
}

/// CPUID.1AH:EAX[31:24]: 0x40 = Intel Core (P), 0x20 = Intel Atom (E).
pub open spec fn core_type_of(l: CoreLeaves) -> CoreType {
    if l.leaf0.eax >= 0x1a {
        let t = l.leaf_1a.eax >> 24;
        if t == 0x40 {
            CoreType::Performance
        } else if t == 0x20 {
            CoreType::Efficiency
        } else {
            CoreType::Other
        }
    } else {
        CoreType::Other
    }
}

/// Family, model and stepping from leaf 1, with the vendor rules for the extended
/// family and model fields (`(0, 0, 0)` when leaf 1 is unavailable). The family sum is
/// taken modulo 256, as the 8-bit field it is computed in.
pub open spec fn signature(l: CoreLeaves) -> (u32, u32, u32) {
    if leaf_supported(l, 1) {
        let eax = l.leaf1.eax;
        let bf = (eax >> 8) & 0xf;
        let ef = (eax >> 20) & 0xff;
        let bm = (eax >> 4) & 0xf;
        let em = (eax >> 16) & 0xf;
        let family = if (is_amd(l) && bf < 0xf) || (is_intel(l) && bf != 0xf) {
            bf
        } else {
            ((bf + ef) % 256) as u32
        };
        let model = if (is_amd(l) && bf < 0xf) || (is_intel(l) && bf != 0xf && bf != 6) {
            bm
        } else {
            (em * 16 + bm) as u32
        };
        (family, model, eax & 0xf)
    } else {
        (0, 0, 0)
    }
}

/// The vendor string of leaf 0, or `InvalidVendorString` when it is not UTF-8.
pub open spec fn vendor_text(l: CoreLeaves) -> Seq<char> {
    let b = vendor_bytes(l);
    if vstd::utf8::valid_utf8(b) {
        vstd::utf8::decode_utf8(b)
    } else {
        "InvalidVendorString"@
    }
}

/// The 48 brand-string bytes of leaves 0x8000_0002 to 0x8000_0004.
pub open spec fn regs_bytes(r: Regs) -> Seq<u8> {
    le_bytes(r.eax) + le_bytes(r.ebx) + le_bytes(r.ecx) + le_bytes(r.edx)
}

pub open spec fn brand_bytes(l: CoreLeaves) -> Seq<u8> {
    regs_bytes(l.brand0) + regs_bytes(l.brand1) + regs_bytes(l.brand2)
}

/// The bytes before the first NUL.
pub open spec fn before_nul(b: Seq<u8>) -> Seq<u8>
    decreases b.len(),
{
    if b.len() == 0 {
        b
    } else if b[0] == 0 {
        Seq::empty()
    } else {
        seq![b[0]] + before_nul(b.drop_first())
    }
}

/// The trimmed brand string, or empty when the brand leaves are unavailable.
pub open spec fn brand_text(l: CoreLeaves) -> Seq<char> {
    if leaf_supported(l, 0x8000_0002) && leaf_supported(l, 0x8000_0003) && leaf_supported(
        l,
        0x8000_0004,
    ) {
        let b = before_nul(brand_bytes(l));
        trim(
            if vstd::utf8::valid_utf8(b) {
                vstd::utf8::decode_utf8(b)
            } else {
                "Invalid Processor Brand String"@
            },
        )
    } else {
        Seq::empty()
    }
}

/// The x2APIC id and SMT shift found walking the topology sub-leaves from `i`: the walk
/// stops at the first sub-leaf whose EBX is zero, and after 32.
pub open spec fn topo_scan(t: Seq<Regs>, i: nat, x2apic: Option<u32>, shift: Option<u32>) -> (
    Option<u32>,
    Option<u32>,
)
    decreases 32 - i,
{
    if i >= 32 || i >= t.len() || t[i as int].ebx == 0 {
        (x2apic, shift)
    } else {
        let r = t[i as int];
        topo_scan(
            t,
            i + 1,
            Some(r.edx),
            if (r.ecx >> 8) & 0xff == 1 {
                Some(r.eax & 0x1f)
            } else {
                shift
            },
        )
    }
}

/// `(package << 32) | core` from the sysfs topology files.
pub open spec fn sysfs_key(package: TextRead, core: TextRead) -> Option<u64> {
    match (package, core) {
        (Ok(p), Ok(c)) => match (parse_u32(trim(p@)), parse_u32(trim(c@))) {
            (Some(a), Some(b)) => Some((a * 0x1_0000_0000 + b) as u64),
            _ => None,
        },
        _ => None,
    }
}

/// A key shared by the logical CPUs of one physical core: the x2APIC id shifted past
/// the SMT bits when the topology leaf gives both, else the sysfs package and core ids.
pub open spec fn physical_key(l: CoreLeaves, package: TextRead, core: TextRead) -> Option<u64> {
    let (x, s) = if topology_leaf(l.leaf0.eax) is Some {
        topo_scan(l.topology@, 0, None, None)
    } else {
        (None, None)
    };
    match (x, s) {
        (Some(id), Some(shift)) => Some((id >> shift) as u64),
        _ => sysfs_key(package, core),
    }
}

/// Identity fields of one core.
#[derive(Debug)]
pub struct CoreIdent {
    pub vendor: String,
    pub brand: String,
    pub family: u32,
    pub model: u32,
    pub stepping: u32,
}

/// One core's findings: its type, physical-core key and every decoded feature.
#[derive(Debug)]
pub struct CoreScan {
    pub logical_cpu: u32,
    pub core_type: CoreType,
    pub physical_key: Option<u64>,
    /// `(feature id, value, leaf tag)` in [`bit_table`] order.
    pub feats: Vec<(&'static str, bool, &'static str)>,
    pub ident: CoreIdent,
}

/// The decoded features of a core, in table order.
pub open spec fn decoded(l: CoreLeaves) -> Seq<(&'static str, bool, &'static str)> {
    Seq::new(
        bit_table().len(),
        |k: int| (bit_table()[k].id, source_value(bit_table()[k].source, l), bit_table()[k].tag),
    )
}

pub open spec fn core_scan_ok(
    c: CoreScan,
    cpu: u32,
    l: CoreLeaves,
    package: TextRead,
    core: TextRead,
) -> bool {
    &&& c.logical_cpu == cpu
    &&& c.core_type == core_type_of(l)
    &&& c.physical_key == physical_key(l, package, core)
    &&& c.feats@ == decoded(l)
    &&& c.ident.vendor@ == vendor_text(l)
    &&& c.ident.brand@ == brand_text(l)
    &&& (c.ident.family, c.ident.model, c.ident.stepping) == signature(l)
}

fn core_type_exec(l: &CoreLeaves) -> (r: CoreType)
    ensures
        r == core_type_of(*l),
{
    if l.leaf0.eax >= 0x1a {
        let t = l.leaf_1a.eax >> 24;
        if t == 0x40 {
            CoreType::Performance
        } else if t == 0x20 {
            CoreType::Efficiency
        } else {
            CoreType::Other
        }
    } else {
        CoreType::Other
    }
}

fn signature_exec(l: &CoreLeaves, amd: bool, intel: bool) -> (r: (u32, u32, u32))
    requires
        amd == is_amd(*l),
        intel == is_intel(*l),
    ensures
        r == signature(*l),
{
    if supported(l, amd, 1) {
        let eax = l.leaf1.eax;
        let bf = (eax >> 8) & 0xf;
        let ef = (eax >> 20) & 0xff;
        let bm = (eax >> 4) & 0xf;
        let em = (eax >> 16) & 0xf;
        assert(bf <= 0xf && ef <= 0xff && bm <= 0xf && em <= 0xf) by (bit_vector)
            requires
                bf == (eax >> 8) & 0xf,
                ef == (eax >> 20) & 0xff,
                bm == (eax >> 4) & 0xf,
                em == (eax >> 16) & 0xf,
        ;
        let family = if (amd && bf < 0xf) || (intel && bf != 0xf) {
            bf
        } else {
            (bf + ef) % 256
        };
        let model = if (amd && bf < 0xf) || (intel && bf != 0xf && bf != 6) {
            bm
        } else {
            em * 16 + bm
        };
        (family, model, eax & 0xf)
    } else {
        (0, 0, 0)
    }
}

fn vendor_exec(l: &CoreLeaves) -> (r: String)
    ensures
        r@ == vendor_text(*l),
{
    let mut b: Vec<u8> = Vec::new();
    push_le(&mut b, l.leaf0.ebx);
    push_le(&mut b, l.leaf0.edx);
    push_le(&mut b, l.leaf0.ecx);
    assert(b@ =~= vendor_bytes(*l));
    match utf8_string(&b) {
        Some(s) => s,
        None => String::from_str("InvalidVendorString"),
    }
}

fn push_regs(out: &mut Vec<u8>, r: Regs)
    ensures
        final(out)@ == old(out)@ + regs_bytes(r),
{
    push_le(out, r.eax);
    push_le(out, r.ebx);
    push_le(out, r.ecx);
    push_le(out, r.edx);
    assert(final(out)@ =~= old(out)@ + regs_bytes(r));
}

fn brand_exec(l: &CoreLeaves, amd: bool) -> (r: String)
    requires
        amd == is_amd(*l),
    ensures
        r@ == brand_text(*l),
{
    if !(supported(l, amd, 0x8000_0002) && supported(l, amd, 0x8000_0003) && supported(
        l,
        amd,
        0x8000_0004,
    )) {
        return String::new();
    }
    let mut all: Vec<u8> = Vec::new();
    push_regs(&mut all, l.brand0);
    push_regs(&mut all, l.brand1);
    push_regs(&mut all, l.brand2);
    assert(all@ =~= brand_bytes(*l));
    // Bytes before the first NUL.
    let mut b: Vec<u8> = Vec::new();
    let mut i: usize = 0;
    let mut stop = false;
    assert(all@.skip(0) =~= all@);
    while !stop && i < all.len()
        invariant
            i <= all.len(),
            all@ == brand_bytes(*l),
            !stop ==> before_nul(all@) == b@ + before_nul(all@.skip(i as int)),
            stop ==> before_nul(all@) == b@,
        decreases all.len() - i + (if stop { 0int } else { 1int }),
    {
        let ghost rest = all@.skip(i as int);
        if all[i] == 0 {
            assert(b@ + Seq::<u8>::empty() =~= b@);
            stop = true;
        } else {
            assert(rest.drop_first() =~= all@.skip(i + 1));
            b.push(all[i]);
            assert(b@.drop_last() + (seq![all@[i as int]] + before_nul(all@.skip(i + 1))) =~= b@
                + before_nul(all@.skip(i + 1)));
            i += 1;
        }
    }
    if !stop {
        assert(all@.skip(i as int) =~= Seq::<u8>::empty());
        assert(b@ + Seq::<u8>::empty() =~= b@);
    }
    let text = match utf8_string(&b) {
        Some(s) => s,
        None => String::from_str("Invalid Processor Brand String"),
    };
    trim_owned(text.as_str())
}

/// The SMT shift and x2APIC id of the topology walk.
fn topo_exec(l: &CoreLeaves) -> (r: (Option<u32>, Option<u32>))
    ensures
        r == (if topology_leaf(l.leaf0.eax) is Some {
            topo_scan(l.topology@, 0, None, None)
        } else {
            (None, None)
        }),
{
    if l.leaf0.eax < 0x0b {
        return (None, None);
    }
    let t = &l.topology;
    let mut x: Option<u32> = None;
    let mut s: Option<u32> = None;
    let mut i: usize = 0;
    let mut stop = false;
    while !stop && i < 32 && i < t.len()
        invariant
            i <= 32,
            i <= t@.len(),
            t@ == l.topology@,
            !stop ==> topo_scan(t@, 0, None, None) == topo_scan(t@, i as nat, x, s),
            stop ==> topo_scan(t@, 0, None, None) == (x, s),
        decreases 32 - i + (if stop { 0int } else { 1int }),
    {
        let r = t[i];
        if r.ebx == 0 {
            stop = true;
        } else {
            x = Some(r.edx);
            if (r.ecx >> 8) & 0xff == 1 {
                s = Some(r.eax & 0x1f);
            }
            i += 1;
        }
    }
    (x, s)
}

fn sysfs_key_exec(package: &TextRead, core: &TextRead) -> (r: Option<u64>)
    ensures
        r == sysfs_key(*package, *core),
{
    let p = match package {
        Ok(p) => p,
        Err(_) => return None,
    };
    let a = match parse_u32_str(trim_owned(p.as_str()).as_str()) {
        Some(a) => a,
        None => return None,
    };
    let c = match core {
        Ok(c) => c,
        Err(_) => return None,
    };
    let b = match parse_u32_str(trim_owned(c.as_str()).as_str()) {
        Some(b) => b,
        None => return None,
    };
    let key = ((a as u64) << 32) | (b as u64);
    assert(key == a * 0x1_0000_0000 + b) by (bit_vector)
        requires
            key == ((a as u64) << 32) | (b as u64),
    ;
    Some(key)
}

/// The physical-core key of a core (see [`physical_key`]).
pub fn physical_core_key(l: &CoreLeaves, package: &TextRead, core: &TextRead) -> (r: Option<u64>)
    ensures
        r == physical_key(*l, *package, *core),
{
    let (x, s) = topo_exec(l);
    match (x, s) {
        (Some(id), Some(shift)) => {
            assert(shift < 32) by {
                lemma_topo_shift(l.topology@, 0, None, None);
            }
            Some((id >> shift) as u64)
        },
        _ => sysfs_key_exec(package, core),
    }
}

/// The SMT shift found by the walk is below 32.
pub proof fn lemma_topo_shift(t: Seq<Regs>, i: nat, x: Option<u32>, s: Option<u32>)
    requires
        s matches Some(v) ==> v < 32,
    ensures
        topo_scan(t, i, x, s).1 matches Some(v) ==> v < 32,
    decreases 32 - i,
{
    if !(i >= 32 || i >= t.len() || t[i as int].ebx == 0) {
        let r = t[i as int];
        let a = r.eax;
        assert(a & 0x1f < 32) by (bit_vector);
        lemma_topo_shift(
            t,
            i + 1,
            Some(r.edx),
            if (r.ecx >> 8) & 0xff == 1 {
                Some(r.eax & 0x1f)
            } else {
                s
            },
        );
    }
}

/// Decodes one core's leaves. `package` and `core` are the reads of
/// `/sys/devices/system/cpu/cpu{cpu}/topology/physical_package_id` and `core_id`,
/// consulted when the topology leaf does not identify the physical core.
pub fn scan_core(cpu: u32, l: &CoreLeaves, package: &TextRead, core: &TextRead) -> (r: CoreScan)
    requires
        leaves_tagged(*l),
    ensures
        core_scan_ok(r, cpu, *l, *package, *core),
{
    let (amd, intel) = vendor_class(l);
    let table = feature_bits();
    let mut feats: Vec<(&'static str, bool, &'static str)> = Vec::new();
    let mut k: usize = 0;
    while k < table.len()
        invariant
            k <= table.len(),
            table@ == bit_table(),
            amd == is_amd(*l),
            feats@ =~= decoded(*l).take(k as int),
        decreases table.len() - k,
    {
        let fb: FeatureBit = table[k];
        let v = eval_source(fb.source, l, amd);
        feats.push((fb.id, v, fb.tag));
        k += 1;
    }
    assert(decoded(*l).take(k as int) =~= decoded(*l));
    let (family, model, stepping) = signature_exec(l, amd, intel);
    CoreScan {
        logical_cpu: cpu,
        core_type: core_type_exec(l),
        physical_key: physical_core_key(l, package, core),
        feats,
        ident: CoreIdent {
            vendor: vendor_exec(l),
            brand: brand_exec(l, amd),
            family,
            model,
            stepping,
        },
    }
}

// ---- folding the cores --------------------------------------------------------------

/// Core `c` has the feature at table index `idx`.
pub open spec fn has_feat(c: CoreScan, idx: int) -> bool {
    0 <= idx < c.feats@.len() && c.feats@[idx].1
}

/// Types of the cores that have the feature at `idx`, in core order.
pub open spec fn present_types(cores: Seq<CoreScan>, idx: int) -> Seq<CoreType>
    decreases cores.len(),
{
    if cores.len() == 0 {
        Seq::empty()
    } else {
        let p = present_types(cores.drop_last(), idx);
        if has_feat(cores.last(), idx) {
            p.push(cores.last().core_type)
        } else {
            p
        }
    }
}

pub open spec fn type_count(ts: Seq<CoreType>, t: CoreType) -> nat
    decreases ts.len(),
{
    if ts.len() == 0 {
        0
    } else {
        type_count(ts.drop_last(), t) + if ts.last() == t {
            1nat
        } else {
            0nat
        }
    }
}

pub open spec fn type_letters(ts: Seq<CoreType>) -> Seq<char>
    decreases ts.len(),
{
    if ts.len() == 0 {
        Seq::empty()
    } else {
        type_letters(ts.drop_last()) + core_type_letter(ts.last())
    }
}

/// Which core types carry an asymmetric feature.
pub open spec fn type_summary(ts: Seq<CoreType>) -> Seq<char> {
    let p = type_count(ts, CoreType::Performance);
    let e = type_count(ts, CoreType::Efficiency);
    if p > 0 && e == 0 {
        "P-cores only"@
    } else if p == 0 && e > 0 {
        "E-cores only"@
    } else {
        type_letters(ts)
    }
}

/// The detection for the feature at `idx`: `Present` on every core, `Absent` on none,
/// and on a subset `Present` with the count and the core types that have it.
pub open spec fn aggregate_one(cores: Seq<CoreScan>, idx: int) -> (Status, Seq<char>) {
    let tag = cores[0].feats@[idx].2@;
    let n = cores.len();
    let pt = present_types(cores, idx);
    if pt.len() == n {
        (Status::Present, tag)
    } else if pt.len() == 0 {
        (Status::Absent, tag)
    } else {
        (
            Status::Present,
            tag + "; asymmetric: "@ + dec(pt.len()) + "/"@ + dec(n) + " cores ("@ + type_summary(
                pt,
            ) + ")"@,
        )
    }
}

/// One finding per feature of the boot core's list, in its order.
pub open spec fn aggregate_expected(cores: Seq<CoreScan>) -> Seq<(&'static str, (Status, Seq<char>))> {
    Seq::new(cores[0].feats@.len(), |k: int| (cores[0].feats@[k].0, aggregate_one(cores, k)))
}

/// Human summary of which core types carry an asymmetric feature.
pub fn summarize_types(types: &Vec<CoreType>) -> (r: String)
    ensures
        r@ == type_summary(types@),
{
    let mut p: usize = 0;
    let mut e: usize = 0;
    let mut letters = String::new();
    let mut i: usize = 0;
    assert(types@.take(0) =~= Seq::<CoreType>::empty());
    while i < types.len()
        invariant
            i <= types.len(),
            p == type_count(types@.take(i as int), CoreType::Performance),
            e == type_count(types@.take(i as int), CoreType::Efficiency),
            p <= i,
            e <= i,
            letters@ == type_letters(types@.take(i as int)),
        decreases types.len() - i,
    {
        assert(types@.take(i + 1).drop_last() =~= types@.take(i as int));
        let t = types[i];
        if t == CoreType::Performance {
            p += 1;
        }
        if t == CoreType::Efficiency {
            e += 1;
        }
        letters.append(t.short());
        i += 1;
    }
    assert(types@.take(i as int) =~= types@);
    if p > 0 && e == 0 {
        String::from_str("P-cores only")
    } else if p == 0 && e > 0 {
        String::from_str("E-cores only")
    } else {
        letters
    }
}

/// Whether a core has the feature at `idx`.
fn core_has(c: &CoreScan, idx: usize) -> (r: bool)
    ensures
        r == has_feat(*c, idx as int),
{
    idx < c.feats.len() && c.feats[idx].1
}

fn aggregate_detection(cores: &Vec<CoreScan>, idx: usize) -> (d: Detection)
    requires
        cores@.len() > 0,
        idx < cores@[0].feats@.len(),
    ensures
        detection_is(d, SRC, aggregate_one(cores@, idx as int)),
{
    let total = cores.len();
    let mut types: Vec<CoreType> = Vec::new();
    let mut i: usize = 0;
    assert(cores@.take(0) =~= Seq::<CoreScan>::empty());
    while i < total
        invariant
            i <= total == cores@.len(),
            types@ == present_types(cores@.take(i as int), idx as int),
            types@.len() <= i,
        decreases total - i,
    {
        assert(cores@.take(i + 1).drop_last() =~= cores@.take(i as int));
        if core_has(&cores[i], idx) {
            types.push(cores[i].core_type);
        }
        i += 1;
    }
    assert(cores@.take(i as int) =~= cores@);
    let tag = cores[0].feats[idx].2;
    let count = types.len();
    if count == total {
        Detection::with_detail(Status::Present, SRC, String::from_str(tag))
    } else if count == 0 {
        Detection::with_detail(Status::Absent, SRC, String::from_str(tag))
    } else {
        let mut s = String::from_str(tag);
        s.append("; asymmetric: ");
        push_dec(&mut s, count as u64);
        s.append("/");
        push_dec(&mut s, total as u64);
        s.append(" cores (");
        let summary = summarize_types(&types);
        s.append(summary.as_str());
        s.append(")");
        Detection::with_detail(Status::Present, SRC, s)
    }
}

/// Folds per-core scans into one detection per feature of the boot core's list.
pub fn aggregate(cores: &Vec<CoreScan>) -> (out: Findings)
    requires
        cores@.len() > 0,
    ensures
        findings_are(out@, SRC, aggregate_expected(cores@)),
{
    let template = &cores[0].feats;
    let mut out: Findings = Vec::new();
    let mut k: usize = 0;
    while k < template.len()
        invariant
            k <= template@.len(),
            cores@.len() > 0,
            *template == cores@[0].feats,
            findings_are(out@, SRC, aggregate_expected(cores@).take(k as int)),
        decreases template.len() - k,
    {
        let id = template[k].0;
        let d = aggregate_detection(cores, k);
        proof {
            let exp = aggregate_expected(cores@);
            lemma_findings_push(out@, SRC, exp.take(k as int), (id, d), exp[k as int]);
            assert(exp.take(k as int).push(exp[k as int]) =~= exp.take(k + 1));
        }
        out.push((id, d));
        k += 1;
    }
    assert(aggregate_expected(cores@).take(k as int) =~= aggregate_expected(cores@));
    out
}

// ---- physical cores ---------------------------------------------------------------

/// The key a core is counted under: its physical key, or a key of its own built from
/// its logical CPU number when the topology is unknown.
pub open spec fn counted_key(c: CoreScan) -> u64 {
    match c.physical_key {
        Some(k) => k,
        None => 0x8000_0000_0000_0000u64 | (c.logical_cpu as u64),
    }
}

/// The distinct keys of the cores of type `t`.
pub open spec fn kind_keys(cores: Seq<CoreScan>, t: CoreType) -> Set<u64> {
    Set::new(
        |k: u64| exists|i: int| 0 <= i < cores.len() && cores[i].core_type == t && #[trigger] counted_key(cores[i]) == k,
    )
}

fn distinct_keys(cores: &Vec<CoreScan>, t: CoreType) -> (n: usize)
    ensures
        n == kind_keys(cores@, t).len(),
        kind_keys(cores@, t).finite(),
{
    let mut seen: Vec<u64> = Vec::new();
    let mut i: usize = 0;
    assert(seen@.to_set() =~= kind_keys(cores@.take(0), t));
    while i < cores.len()
        invariant
            i <= cores@.len(),
            seen@.no_duplicates(),
            seen@.to_set() == kind_keys(cores@.take(i as int), t),
        decreases cores.len() - i,
    {
        let c = &cores[i];
        let key = match c.physical_key {
            Some(k) => k,
            None => 0x8000_0000_0000_0000u64 | (c.logical_cpu as u64),
        };
        assert(key == counted_key(cores@[i as int]));
        let ghost pre = cores@.take(i as int);
        let ghost post = cores@.take(i + 1);
        if c.core_type == t {
            let mut found = false;
            let mut j: usize = 0;
            while j < seen.len()
                invariant
                    j <= seen@.len(),
                    found == exists|m: int| 0 <= m < j && seen@[m] == key,
                decreases seen.len() - j,
            {
                if seen[j] == key {
                    found = true;
                }
                j += 1;
            }
            if !found {
                let ghost before = seen@;
                seen.push(key);
                proof {
                    assert forall|a: int, b: int| 0 <= a < b < seen@.len() implies seen@[a] != seen@[b] by {
                        if b == seen@.len() - 1 {
                            assert(seen@[a] == before[a]);
                        } else {
                            assert(before.no_duplicates());
                        }
                    }
                    assert(seen@ =~= before.push(key));
                    assert forall|x: u64| #[trigger] seen@.to_set().contains(x) <==> before.to_set().insert(key).contains(x) by {
                        if seen@.contains(x) {
                            let w = choose|w: int| 0 <= w < seen@.len() && seen@[w] == x;
                            if w < before.len() {
                                assert(before[w] == x);
                                assert(before.contains(x));
                            }
                        }
                        if before.contains(x) {
                            let w = choose|w: int| 0 <= w < before.len() && before[w] == x;
                            assert(seen@[w] == x);
                            assert(seen@.contains(x));
                        }
                        if x == key {
                            assert(seen@[seen@.len() - 1] == key);
                            assert(seen@.contains(x));
                        }
                    }
                    assert(seen@.to_set() =~= before.to_set().insert(key));
                }
            }
            proof {
                assert forall|k: u64| kind_keys(post, t).contains(k) <==> seen@.to_set().contains(k) by {
                    if kind_keys(post, t).contains(k) {
                        let m = choose|m: int| 0 <= m < post.len() && post[m].core_type == t && #[trigger] counted_key(post[m]) == k;
                        if m < i {
                            assert(pre[m] == post[m]);
                            assert(kind_keys(pre, t).contains(k));
                        } else {
                            assert(k == key);
                            if found {
                                let w = choose|w: int| 0 <= w < j && seen@[w] == key;
                                assert(seen@.to_set().contains(seen@[w]));
                            } else {
                                assert(seen@[seen@.len() - 1] == key);
                                assert(seen@.to_set().contains(seen@[seen@.len() - 1]));
                            }
                        }
                    }
                    if seen@.to_set().contains(k) {
                        if kind_keys(pre, t).contains(k) {
                            let m = choose|m: int| 0 <= m < pre.len() && pre[m].core_type == t && #[trigger] counted_key(pre[m]) == k;
                            assert(post[m] == pre[m]);
                            assert(kind_keys(post, t).contains(k));
                        } else {
                            assert(k == key);
                            assert(post[i as int] == cores@[i as int]);
                            assert(counted_key(post[i as int]) == k);
                        }
                    }
                }
                assert(seen@.to_set() =~= kind_keys(post, t));
            }
        } else {
            proof {
                assert forall|k: u64| kind_keys(post, t).contains(k) <==> kind_keys(pre, t).contains(k) by {
                    if kind_keys(post, t).contains(k) {
                        let m = choose|m: int| 0 <= m < post.len() && post[m].core_type == t && #[trigger] counted_key(post[m]) == k;
                        assert(m < i);
                        assert(pre[m] == post[m]);
                    }
                    if kind_keys(pre, t).contains(k) {
                        let m = choose|m: int| 0 <= m < pre.len() && pre[m].core_type == t && #[trigger] counted_key(pre[m]) == k;
                        assert(post[m] == pre[m]);
                    }
                }
                assert(kind_keys(post, t) =~= kind_keys(pre, t));
            }
        }
        i += 1;
    }
    assert(cores@.take(i as int) =~= cores@);
    proof {
        seen@.unique_seq_to_set();
        vstd::seq_lib::seq_to_set_is_finite(seen@);
    }
    seen.len()
}

/// Physical P-core and E-core counts: logical CPUs of one physical core (SMT siblings)
/// count once; a CPU whose topology is unknown counts on its own.
pub fn physical_counts(cores: &Vec<CoreScan>) -> (r: (usize, usize))
    ensures
        r.0 == kind_keys(cores@, CoreType::Performance).len(),
        r.1 == kind_keys(cores@, CoreType::Efficiency).len(),
{
    (distinct_keys(cores, CoreType::Performance), distinct_keys(cores, CoreType::Efficiency))
}

/// How many of `cores` are of type `t`.
pub open spec fn cores_of_type(cores: Seq<CoreScan>, t: CoreType) -> nat
    decreases cores.len(),
{
    if cores.len() == 0 {
        0
    } else {
        cores_of_type(cores.drop_last(), t) + if cores.last().core_type == t { 1nat } else { 0nat }
    }
}

/// No more keys of a type are counted than there are cores of that type.
proof fn lemma_kind_keys_bound(cores: Seq<CoreScan>, t: CoreType)
    ensures
        kind_keys(cores, t).finite(),
        kind_keys(cores, t).len() <= cores_of_type(cores, t),
    decreases cores.len(),
{
    if cores.len() == 0 {
        assert(kind_keys(cores, t) =~= Set::<u64>::empty());
    } else {
        let pre = cores.drop_last();
        let n = cores.len() - 1;
        lemma_kind_keys_bound(pre, t);
        let grown = if cores.last().core_type == t {
            kind_keys(pre, t).insert(counted_key(cores.last()))
        } else {
            kind_keys(pre, t)
        };
        assert forall|k: u64| kind_keys(cores, t).contains(k) <==> grown.contains(k) by {
            if kind_keys(cores, t).contains(k) {
                let m = choose|m: int|
                    0 <= m < cores.len() && cores[m].core_type == t && #[trigger] counted_key(cores[m]) == k;
                if m < n {
                    assert(pre[m] == cores[m]);
                    assert(kind_keys(pre, t).contains(k));
                }
            }
            if kind_keys(pre, t).contains(k) {
                let m = choose|m: int|
                    0 <= m < pre.len() && pre[m].core_type == t && #[trigger] counted_key(pre[m]) == k;
                assert(cores[m] == pre[m]);
                assert(kind_keys(cores, t).contains(k));
            }
            if cores.last().core_type == t && k == counted_key(cores.last()) {
                assert(counted_key(cores[n]) == k);
                assert(kind_keys(cores, t).contains(k));
            }
        }
        assert(kind_keys(cores, t) =~= grown);
    }
}

/// Performance and efficiency cores together are no more than all the cores.
proof fn lemma_type_counts(cores: Seq<CoreScan>)
    ensures
        cores_of_type(cores, CoreType::Performance) + cores_of_type(cores, CoreType::Efficiency) <= cores.len(),
    decreases cores.len(),
{
    if cores.len() > 0 {
        lemma_type_counts(cores.drop_last());
    }
}

/// The physical P-core and E-core counts together never exceed the number of scanned
/// logical CPUs.
pub proof fn core_counts_bounded(cores: Seq<CoreScan>)
    ensures
        kind_keys(cores, CoreType::Performance).len() + kind_keys(cores, CoreType::Efficiency).len()
            <= cores.len(),
{
    lemma_kind_keys_bound(cores, CoreType::Performance);
    lemma_kind_keys_bound(cores, CoreType::Efficiency);
    lemma_type_counts(cores);
}

// ---- identity ---------------------------------------------------------------------

/// CPU identity + topology summary, shown as the report banner.
#[derive(Debug)]
pub struct Identity {
    pub vendor: String,
    pub brand: String,
    pub family: u32,
    pub model: u32,
    pub stepping: u32,
    /// Codename, marketing generation, and segment from the family/model database.
    pub model_info: Option<CpuModelInfo>,
    pub logical_cpus: usize,
    pub hybrid: bool,
    pub p_cores: usize,
    pub e_cores: usize,
    /// Loaded microcode revision (from sysfs), e.g. `"0x11b"`.
    pub microcode: Option<String>,
    /// Maximum memory channels supported by one processor socket for recognized,
    /// unambiguous family/model groups. This is not an active/populated count.
    pub max_memory_channels: Option<u8>,
}

/// Some core reported the leaf-7 hybrid bit.
pub open spec fn hybrid_flag(cores: Seq<CoreScan>) -> bool {
    exists|i: int, j: int|
        0 <= i < cores.len() && 0 <= j < cores[i].feats@.len() && #[trigger] cores[i].feats@[j].0@
            == "hybrid"@ && cores[i].feats@[j].1
}

pub open spec fn identity_ok(id: Identity, cores: Seq<CoreScan>, microcode: Option<String>) -> bool {
    let c0 = cores[0].ident;
    let p = kind_keys(cores, CoreType::Performance).len();
    let e = kind_keys(cores, CoreType::Efficiency).len();
    &&& id.vendor@ == c0.vendor@
    &&& id.brand@ == c0.brand@
    &&& id.family == c0.family
    &&& id.model == c0.model
    &&& id.stepping == c0.stepping
    &&& id.model_info == spec_lookup(c0.vendor@, c0.family, c0.model)
    &&& id.logical_cpus == cores.len()
    &&& id.hybrid == (hybrid_flag(cores) || (p > 0 && e > 0))
    &&& id.p_cores == p
    &&& id.e_cores == e
    &&& id.microcode == microcode
    &&& id.max_memory_channels == spec_max_memory_channels(c0.vendor@, c0.family, c0.model)
}

fn any_hybrid_flag(cores: &Vec<CoreScan>) -> (r: bool)
    ensures
        r == hybrid_flag(cores@),
{
    let mut i: usize = 0;
    while i < cores.len()
        invariant
            i <= cores@.len(),
            forall|a: int, b: int|
                0 <= a < i && 0 <= b < cores@[a].feats@.len() ==> !(#[trigger] cores@[a].feats@[b].0@
                    == "hybrid"@ && cores@[a].feats@[b].1),
        decreases cores.len() - i,
    {
        let feats = &cores[i].feats;
        let mut j: usize = 0;
        while j < feats.len()
            invariant
                i < cores@.len(),
                *feats == cores@[i as int].feats,
                j <= feats@.len(),
                forall|b: int| 0 <= b < j ==> !(#[trigger] feats@[b].0@ == "hybrid"@ && feats@[b].1),
            decreases feats.len() - j,
        {
            if feats[j].1 && crate::text::str_eq(feats[j].0, "hybrid") {
                assert(cores@[i as int].feats@[j as int].0@ == "hybrid"@);
                return true;
            }
            j += 1;
        }
        i += 1;
    }
    false
}

/// The banner identity from the scanned cores (the boot core's identity) and the
/// loaded microcode revision.
pub fn build_identity(cores: &Vec<CoreScan>, microcode: Option<String>) -> (r: Identity)
    requires
        cores@.len() > 0,
    ensures
        identity_ok(r, cores@, microcode),
{
    let ci = &cores[0].ident;
    let (p_cores, e_cores) = physical_counts(cores);
    let hybrid = any_hybrid_flag(cores) || (p_cores > 0 && e_cores > 0);
    Identity {
        vendor: ci.vendor.clone(),
        brand: ci.brand.clone(),
        family: ci.family,
        model: ci.model,
        stepping: ci.stepping,
        model_info: lookup(ci.vendor.as_str(), ci.family, ci.model),
        logical_cpus: cores.len(),
        hybrid,
        p_cores,
        e_cores,
        microcode,
        max_memory_channels: max_memory_channels(ci.vendor.as_str(), ci.family, ci.model),
    }
}

/// CPU identity banner from the scan, when at least one core was scanned.
pub fn identity_with(cores: &Vec<CoreScan>, microcode: Option<String>) -> (r: Option<Identity>)
    ensures
        cores@.len() == 0 <==> r is None,
        r matches Some(id) ==> identity_ok(id, cores@, microcode),
        r matches Some(id) ==> id.logical_cpus >= 1 && id.p_cores + id.e_cores <= id.logical_cpus,
{
    proof {
        core_counts_bounded(cores@);
    }
    if cores.len() == 0 {
        None
    } else {
        Some(build_identity(cores, microcode))
    }
}

// ---- the probe --------------------------------------------------------------------

pub struct CpuidProbe;

impl Probe for CpuidProbe {
    fn name(&self) -> (r: &'static str)
        ensures
            r == SRC,
    {
        SRC
    }

    fn feature_ids(&self) -> (r: Vec<&'static str>)
        ensures
            r@ == cpuid_feature_ids(),
    {
        cpuid_ids()
    }
}

impl CpuidProbe {
    /// One detection per feature from the scanned cores; every feature `Unknown` when no
    /// core could be scanned.
    pub fn decide(&self, cores: &Vec<CoreScan>) -> (out: Findings)
        ensures
            cores@.len() == 0 ==> all_unknown(
                out@,
                SRC,
                cpuid_feature_ids(),
                "no eligible logical CPU could be scanned"@,
            ),
            cores@.len() > 0 ==> findings_are(out@, SRC, aggregate_expected(cores@)),
    {
        if cores.len() == 0 {
            unavailable(SRC, &self.feature_ids(), "no eligible logical CPU could be scanned")
        } else {
            aggregate(cores)
        }
    }
}

// ---- CPU lists --------------------------------------------------------------------

/// `a, a + 1, ..., b`.
pub open spec fn range_seq(a: u32, b: u32) -> Seq<u32> {
    Seq::new((b - a + 1) as nat, |i: int| (a + i) as u32)
}

/// The CPUs one comma-separated part names: `n` or `a-b` with `a <= b`.
pub open spec fn part_cpus(part: Seq<char>) -> Option<Seq<u32>> {
    match split_once(part, '-') {
        Some(ab) => match (parse_u32(ab.0), parse_u32(ab.1)) {
            (Some(a), Some(b)) => if a > b {
                None
            } else {
                Some(range_seq(a, b))
            },
            _ => None,
        },
        None => match parse_u32(part) {
            Some(x) => Some(seq![x]),
            None => None,
        },
    }
}

/// The CPUs of the parts, empty parts skipped; `None` when a part is malformed.
pub open spec fn parts_cpus(parts: Seq<Seq<char>>) -> Option<Seq<u32>>
    decreases parts.len(),
{
    if parts.len() == 0 {
        Some(Seq::empty())
    } else {
        match parts_cpus(parts.drop_last()) {
            None => None,
            Some(acc) => if parts.last().len() == 0 {
                Some(acc)
            } else {
                match part_cpus(parts.last()) {
                    Some(c) => Some(acc + c),
                    None => None,
                }
            },
        }
    }
}

/// Linux CPU-list syntax such as `0-3,8-11`; `None` when malformed or empty.
pub open spec fn spec_parse_cpu_list(text: Seq<char>) -> Option<Seq<u32>> {
    match parts_cpus(split_char(trim(text), ',')) {
        Some(c) => if c.len() > 0 {
            Some(c)
        } else {
            None
        },
        None => None,
    }
}

pub proof fn lemma_parts_cpus_none(parts: Seq<Seq<char>>, n: int)
    requires
        0 <= n <= parts.len(),
        parts_cpus(parts.take(n)) is None,
    ensures
        parts_cpus(parts) is None,
    decreases parts.len(),
{
    if n < parts.len() {
        assert(parts.drop_last().take(n) =~= parts.take(n));
        lemma_parts_cpus_none(parts.drop_last(), n);
    } else {
        assert(parts.take(n) =~= parts);
    }
}

fn part_cpus_exec(part: &str) -> (r: Option<Vec<u32>>)
    ensures
        match r {
            Some(v) => part_cpus(part@) == Some(v@),
            None => part_cpus(part@) is None,
        },
{
    match crate::text::split_once_owned(part, '-') {
        Some((a, b)) => {
            let x = match parse_u32_str(a.as_str()) {
                Some(x) => x,
                None => return None,
            };
            let y = match parse_u32_str(b.as_str()) {
                Some(y) => y,
                None => return None,
            };
            if x > y {
                return None;
            }
            let mut v: Vec<u32> = Vec::new();
            let mut k: u64 = x as u64;
            while k <= y as u64
                invariant
                    x <= k <= y as u64 + 1,
                    x <= y,
                    v@ =~= range_seq(x, y).take(k - x),
                decreases y as u64 + 1 - k,
            {
                v.push(k as u32);
                k += 1;
            }
            assert(range_seq(x, y).take(k - x) =~= range_seq(x, y));
            Some(v)
        },
        None => match parse_u32_str(part) {
            Some(x) => {
                let v = vec![x];
                assert(v@ =~= seq![x]);
                Some(v)
            },
            None => None,
        },
    }
}

/// Parse Linux CPU-list syntax such as `0-3,8-11`.
pub fn parse_cpu_list(text: &str) -> (r: Option<Vec<u32>>)
    ensures
        match r {
            Some(v) => spec_parse_cpu_list(text@) == Some(v@),
            None => spec_parse_cpu_list(text@) is None,
        },
{
    let t = trim_owned(text);
    let tc = chars_of(t.as_str());
    let spans = split_spans(&tc, ',');
    let ghost parts = split_char(trim(text@), ',');
    let mut cpus: Vec<u32> = Vec::new();
    let mut i: usize = 0;
    assert(parts.take(0) =~= Seq::<Seq<char>>::empty());
    while i < spans.len()
        invariant
            i <= spans.len(),
            tc@ == t@,
            t@ == trim(text@),
            parts == split_char(trim(text@), ','),
            spans_valid(tc@, spans@),
            spans_view(tc@, spans@) == parts,
            parts_cpus(parts.take(i as int)) == Some(cpus@),
        decreases spans.len() - i,
    {
        let (a, b) = spans[i];
        let part = owned_range(t.as_str(), a, b);
        assert(part@ == parts[i as int]);
        assert(parts.take(i + 1).drop_last() =~= parts.take(i as int));
        if b > a {
            match part_cpus_exec(part.as_str()) {
                Some(mut v) => {
                    cpus.append(&mut v);
                },
                None => {
                    proof {
                        lemma_parts_cpus_none(parts, i + 1);
                    }
                    return None;
                },
            }
        }
        i += 1;
    }
    assert(parts.take(i as int) =~= parts);
    if cpus.len() == 0 {
        None
    } else {
        Some(cpus)
    }
}

/// The `Cpus_allowed_list:` value of `/proc/self/status`, trimmed.
pub open spec fn allowed_list(status: TextRead) -> Option<Seq<char>> {
    match status {
        Ok(t) => match crate::probes::line_rest(t@, "Cpus_allowed_list:"@) {
            Some(rest) => Some(trim(rest)),
            None => None,
        },
        Err(_) => None,
    }
}

/// The CPUs of `a` that `o` lists, in the order of `a`.
pub open spec fn keep_online(a: Seq<u32>, o: Seq<u32>) -> Seq<u32>
    decreases a.len(),
{
    if a.len() == 0 {
        Seq::empty()
    } else {
        let p = keep_online(a.drop_last(), o);
        if o.contains(a.last()) {
            p.push(a.last())
        } else {
            p
        }
    }
}

/// CPUs the process may run on that are online; none when either list is unreadable.
pub open spec fn spec_eligible(status: TextRead, online: TextRead) -> Seq<u32> {
    match allowed_list(status) {
        None => Seq::empty(),
        Some(at) => match spec_parse_cpu_list(at) {
            None => Seq::empty(),
            Some(a) => match online {
                Err(_) => Seq::empty(),
                Ok(ot) => match spec_parse_cpu_list(ot@) {
                    None => Seq::empty(),
                    Some(o) => keep_online(a, o),
                },
            },
        },
    }
}

fn lists(v: &Vec<u32>, x: u32) -> (r: bool)
    ensures
        r == v@.contains(x),
{
    let mut i: usize = 0;
    while i < v.len()
        invariant
            i <= v.len(),
            forall|k: int| 0 <= k < i ==> v@[k] != x,
        decreases v.len() - i,
    {
        if v[i] == x {
            assert(v@[i as int] == x);
            return true;
        }
        i += 1;
    }
    false
}

/// The CPUs to scan, from `/proc/self/status` and `/sys/devices/system/cpu/online`.
pub fn eligible_cpus(status: &TextRead, online: &TextRead) -> (r: Vec<u32>)
    ensures
        r@ == spec_eligible(*status, *online),
{
    let allowed_text = match status {
        Ok(t) => match crate::probes::first_line_rest(t.as_str(), "Cpus_allowed_list:") {
            Some(rest) => trim_owned(rest.as_str()),
            None => return Vec::new(),
        },
        Err(_) => return Vec::new(),
    };
    let allowed = match parse_cpu_list(allowed_text.as_str()) {
        Some(a) => a,
        None => return Vec::new(),
    };
    let online_list = match online {
        Ok(t) => match parse_cpu_list(t.as_str()) {
            Some(o) => o,
            None => return Vec::new(),
        },
        Err(_) => return Vec::new(),
    };
    let mut out: Vec<u32> = Vec::new();
    let mut i: usize = 0;
    assert(allowed@.take(0) =~= Seq::<u32>::empty());
    while i < allowed.len()
        invariant
            i <= allowed.len(),
            out@ == keep_online(allowed@.take(i as int), online_list@),
        decreases allowed.len() - i,
    {
        assert(allowed@.take(i + 1).drop_last() =~= allowed@.take(i as int));
        if lists(&online_list, allowed[i]) {
            out.push(allowed[i]);
        }
        i += 1;
    }
    assert(allowed@.take(i as int) =~= allowed@);
    out
}

// ---- microcode --------------------------------------------------------------------

/// A `/proc/cpuinfo` line that starts with `microcode` and has a `:` after it.
pub open spec fn microcode_line(line: Seq<char>) -> bool {
    has_prefix(line, "microcode"@) && find_char(line.skip(9), ':') is Some
}

pub open spec fn first_microcode(ls: Seq<Seq<char>>) -> Option<int>
    decreases ls.len(),
{
    if ls.len() == 0 {
        None
    } else {
        match first_microcode(ls.drop_last()) {
            Some(k) => Some(k),
            None => if microcode_line(ls.last()) {
                Some(ls.len() - 1)
            } else {
                None
            },
        }
    }
}

pub proof fn lemma_first_microcode_prefix(ls: Seq<Seq<char>>, n: int)
    requires
        0 <= n <= ls.len(),
        first_microcode(ls.take(n)) is Some,
    ensures
        first_microcode(ls) == first_microcode(ls.take(n)),
    decreases ls.len(),
{
    if n < ls.len() {
        assert(ls.drop_last().take(n) =~= ls.take(n));
        lemma_first_microcode_prefix(ls.drop_last(), n);
    } else {
        assert(ls.take(n) =~= ls);
    }
}

/// Loaded microcode revision: the sysfs `microcode/version` file, else the first
/// `microcode ... : value` line of `/proc/cpuinfo`, trimmed.
pub open spec fn spec_microcode(version: TextRead, cpuinfo: TextRead) -> Option<Seq<char>> {
    match version {
        Ok(v) => Some(trim(v@)),
        Err(_) => match cpuinfo {
            Err(_) => None,
            Ok(t) => {
                let ls = lines(t@);
                match first_microcode(ls) {
                    Some(k) => match split_once(ls[k].skip(9), ':') {
                        Some(kv) => Some(trim(kv.1)),
                        None => None,
                    },
                    None => None,
                }
            },
        },
    }
}

/// Loaded microcode revision from `/sys/devices/system/cpu/cpu0/microcode/version`,
/// falling back to `/proc/cpuinfo`.
pub fn read_microcode(version: &TextRead, cpuinfo: &TextRead) -> (r: Option<String>)
    ensures
        match r {
            Some(s) => spec_microcode(*version, *cpuinfo) == Some(s@),
            None => spec_microcode(*version, *cpuinfo) is None,
        },
{
    match version {
        Ok(v) => return Some(trim_owned(v.as_str())),
        Err(_) => {},
    }
    let text = match cpuinfo {
        Ok(t) => t,
        Err(_) => return None,
    };
    let v = chars_of(text.as_str());
    let spans = line_spans(&v);
    let ghost ls = lines(v@);
    let prefix = chars_of("microcode");
    proof {
        reveal_strlit("microcode");
    }
    let mut i: usize = 0;
    assert(ls.take(0) =~= Seq::<Seq<char>>::empty());
    while i < spans.len()
        invariant
            i <= spans.len(),
            spans_view(v@, spans@) == ls,
            spans_valid(v@, spans@),
            first_microcode(ls.take(i as int)) is None,
            prefix@ == "microcode"@,
            prefix@.len() == 9,
            v@ == text@,
            ls == lines(text@),
            *cpuinfo == Ok::<String, crate::probes::IoFailure>(*text),
            version is Err,
        decreases spans.len() - i,
    {
        let (a, b) = spans[i];
        let line = owned_range(text.as_str(), a, b);
        let lc = chars_of(line.as_str());
        assert(ls[i as int] == lc@);
        assert(ls.take(i + 1).drop_last() =~= ls.take(i as int));
        if chars_have_prefix(&lc, &prefix) {
            let rest = owned_range(line.as_str(), 9, lc.len());
            assert(rest@ =~= ls[i as int].skip(9));
            match crate::text::split_once_owned(rest.as_str(), ':') {
                Some((_, value)) => {
                    proof {
                        assert(microcode_line(ls[i as int]));
                        assert(first_microcode(ls.take(i + 1)) == Some(i as int));
                        lemma_first_microcode_prefix(ls, i + 1);
                    }
                    return Some(trim_owned(value.as_str()));
                },
                None => {
                    assert(!microcode_line(ls[i as int]));
                },
            }
        } else {
            assert(!microcode_line(ls[i as int]));
        }
        i += 1;
    }
    assert(ls.take(i as int) =~= ls);
    None
}

// ---- laws -------------------------------------------------------------------------------

/// No more cores have a feature than were scanned.
pub proof fn present_types_bounded(cores: Seq<CoreScan>, idx: int)
    ensures
        present_types(cores, idx).len() <= cores.len(),
    decreases cores.len(),
{
    if cores.len() > 0 {
        present_types_bounded(cores.drop_last(), idx);
    }
}

/// A CPUID feature is `Absent` exactly when no scanned core has it, and otherwise
/// `Present`; it carries the plain leaf tag exactly when every core has it.
pub proof fn aggregation_rules(cores: Seq<CoreScan>, idx: int)
    requires
        cores.len() > 0,
        0 <= idx < cores[0].feats@.len(),
    ensures
        (aggregate_one(cores, idx).0 == Status::Absent) <==> present_types(cores, idx).len() == 0,
        (aggregate_one(cores, idx).0 == Status::Present) <==> present_types(cores, idx).len() > 0,
        present_types(cores, idx).len() == cores.len() ==> aggregate_one(cores, idx).1
            == cores[0].feats@[idx].2@,
{
    present_types_bounded(cores, idx);
}

proof fn lemma_feature_bits_0(l: CoreLeaves)
    ensures
        decoded(l)[0] == ("sse", 1 <= l.leaf0.eax && (l.leaf1.edx >> 25u32) & 1u32 == 1u32, "leaf 1"),
        decoded(l)[1] == ("sse2", 1 <= l.leaf0.eax && (l.leaf1.edx >> 26u32) & 1u32 == 1u32, "leaf 1"),
        decoded(l)[2] == ("sse3", 1 <= l.leaf0.eax && (l.leaf1.ecx >> 0u32) & 1u32 == 1u32, "leaf 1"),
        decoded(l)[3] == ("ssse3", 1 <= l.leaf0.eax && (l.leaf1.ecx >> 9u32) & 1u32 == 1u32, "leaf 1"),
        decoded(l)[4] == ("sse4_1", 1 <= l.leaf0.eax && (l.leaf1.ecx >> 19u32) & 1u32 == 1u32, "leaf 1"),
        decoded(l)[5] == ("sse4_2", 1 <= l.leaf0.eax && (l.leaf1.ecx >> 20u32) & 1u32 == 1u32, "leaf 1"),
        decoded(l)[6] == ("avx", 1 <= l.leaf0.eax && (l.leaf1.ecx >> 28u32) & 1u32 == 1u32, "leaf 1"),
        decoded(l)[7] == ("fma", 1 <= l.leaf0.eax && (l.leaf1.ecx >> 12u32) & 1u32 == 1u32, "leaf 1"),
        decoded(l)[8] == ("f16c", 1 <= l.leaf0.eax && (l.leaf1.ecx >> 29u32) & 1u32 == 1u32, "leaf 1"),
        decoded(l)[9] == ("popcnt", 1 <= l.leaf0.eax && (l.leaf1.ecx >> 23u32) & 1u32 == 1u32, "leaf 1"),
        decoded(l)[10] == ("movbe", 1 <= l.leaf0.eax && (l.leaf1.ecx >> 22u32) & 1u32 == 1u32, "leaf 1"),
        decoded(l)[11] == ("aes", 1 <= l.leaf0.eax && (l.leaf1.ecx >> 25u32) & 1u32 == 1u32, "leaf 1"),
        decoded(l)[12] == ("pclmulqdq", 1 <= l.leaf0.eax && (l.leaf1.ecx >> 1u32) & 1u32 == 1u32, "leaf 1"),
        decoded(l)[13] == ("rdrand", 1 <= l.leaf0.eax && (l.leaf1.ecx >> 30u32) & 1u32 == 1u32, "leaf 1"),
        decoded(l)[14] == ("cmpxchg16b", 1 <= l.leaf0.eax && (l.leaf1.ecx >> 13u32) & 1u32 == 1u32, "leaf 1"),
        decoded(l)[15] == ("xsave", 1 <= l.leaf0.eax && (l.leaf1.ecx >> 26u32) & 1u32 == 1u32, "leaf 1"),
{
    let t = bit_table();
    assert(t.len() == 117);
    assert(bit_table_part_0().len() == 16);
}

proof fn lemma_feature_bits_1(l: CoreLeaves)
    ensures
        decoded(l)[16] == ("monitor", 1 <= l.leaf0.eax && (l.leaf1.ecx >> 3u32) & 1u32 == 1u32, "leaf 1"),
        decoded(l)[17] == ("vmx", 1 <= l.leaf0.eax && (l.leaf1.ecx >> 5u32) & 1u32 == 1u32, "leaf 1"),
        decoded(l)[18] == ("smx", 1 <= l.leaf0.eax && (l.leaf1.ecx >> 6u32) & 1u32 == 1u32, "leaf 1"),
        decoded(l)[19] == ("eist", 1 <= l.leaf0.eax && (l.leaf1.ecx >> 7u32) & 1u32 == 1u32, "leaf 1"),
        decoded(l)[20] == ("tm2", 1 <= l.leaf0.eax && (l.leaf1.ecx >> 8u32) & 1u32 == 1u32, "leaf 1"),
        decoded(l)[21] == ("x2apic", 1 <= l.leaf0.eax && (l.leaf1.ecx >> 21u32) & 1u32 == 1u32, "leaf 1"),
        decoded(l)[22] == ("htt", 1 <= l.leaf0.eax && (l.leaf1.edx >> 28u32) & 1u32 == 1u32, "leaf 1"),
        decoded(l)[23] == ("hypervisor", 1 <= l.leaf0.eax && (l.leaf1.ecx >> 31u32) & 1u32 == 1u32, "leaf 1"),
        decoded(l)[24] == ("tsc_deadline", 1 <= l.leaf0.eax && (l.leaf1.ecx >> 24u32) & 1u32 == 1u32, "leaf 1"),
        decoded(l)[25] == ("pdcm", 1 <= l.leaf0.eax && (l.leaf1.ecx >> 15u32) & 1u32 == 1u32, "leaf 1"),
        decoded(l)[26] == ("bts", 1 <= l.leaf0.eax && (l.leaf1.edx >> 21u32) & 1u32 == 1u32, "leaf 1 (DS)"),
        decoded(l)[27] == ("avx2", 7 <= l.leaf0.eax && (l.leaf7.ebx >> 5u32) & 1u32 == 1u32, "leaf 7"),
        decoded(l)[28] == ("bmi1", 7 <= l.leaf0.eax && (l.leaf7.ebx >> 3u32) & 1u32 == 1u32, "leaf 7"),
        decoded(l)[29] == ("bmi2", 7 <= l.leaf0.eax && (l.leaf7.ebx >> 8u32) & 1u32 == 1u32, "leaf 7"),
        decoded(l)[30] == ("adx", 7 <= l.leaf0.eax && (l.leaf7.ebx >> 19u32) & 1u32 == 1u32, "leaf 7"),
        decoded(l)[31] == ("fsgsbase", 7 <= l.leaf0.eax && (l.leaf7.ebx >> 0u32) & 1u32 == 1u32, "leaf 7"),
{
    let t = bit_table();
    assert(t.len() == 117);
    assert(bit_table_part_1().len() == 16);
}

proof fn lemma_feature_bits_2(l: CoreLeaves)
    ensures
        decoded(l)[32] == ("smep", 7 <= l.leaf0.eax && (l.leaf7.ebx >> 7u32) & 1u32 == 1u32, "leaf 7"),
        decoded(l)[33] == ("smap", 7 <= l.leaf0.eax && (l.leaf7.ebx >> 20u32) & 1u32 == 1u32, "leaf 7"),
        decoded(l)[34] == ("umip", 7 <= l.leaf0.eax && (l.leaf7.ecx >> 2u32) & 1u32 == 1u32, "leaf 7"),
        decoded(l)[35] == ("pku", 7 <= l.leaf0.eax && (l.leaf7.ecx >> 3u32) & 1u32 == 1u32, "leaf 7"),
        decoded(l)[36] == ("ospke", 7 <= l.leaf0.eax && (l.leaf7.ecx >> 4u32) & 1u32 == 1u32, "leaf 7"),
        decoded(l)[37] == ("avx512f", 7 <= l.leaf0.eax && (l.leaf7.ebx >> 16u32) & 1u32 == 1u32, "leaf 7"),
        decoded(l)[38] == ("avx512cd", 7 <= l.leaf0.eax && (l.leaf7.ebx >> 28u32) & 1u32 == 1u32, "leaf 7"),
        decoded(l)[39] == ("avx512vl", 7 <= l.leaf0.eax && (l.leaf7.ebx >> 31u32) & 1u32 == 1u32, "leaf 7"),
        decoded(l)[40] == ("avx512dq", 7 <= l.leaf0.eax && (l.leaf7.ebx >> 17u32) & 1u32 == 1u32, "leaf 7"),
        decoded(l)[41] == ("avx512bw", 7 <= l.leaf0.eax && (l.leaf7.ebx >> 30u32) & 1u32 == 1u32, "leaf 7"),
        decoded(l)[42] == ("avx512ifma", 7 <= l.leaf0.eax && (l.leaf7.ebx >> 21u32) & 1u32 == 1u32, "leaf 7"),
        decoded(l)[43] == ("avx512vbmi", 7 <= l.leaf0.eax && (l.leaf7.ecx >> 1u32) & 1u32 == 1u32, "leaf 7"),
        decoded(l)[44] == ("avx512vbmi2", 7 <= l.leaf0.eax && (l.leaf7.ecx >> 6u32) & 1u32 == 1u32, "leaf 7"),
        decoded(l)[45] == ("avx512vnni", 7 <= l.leaf0.eax && (l.leaf7.ecx >> 11u32) & 1u32 == 1u32, "leaf 7"),
        decoded(l)[46] == ("avx512bitalg", 7 <= l.leaf0.eax && (l.leaf7.ecx >> 12u32) & 1u32 == 1u32, "leaf 7"),
        decoded(l)[47] == ("avx512vpopcntdq", 7 <= l.leaf0.eax && (l.leaf7.ecx >> 14u32) & 1u32 == 1u32, "leaf 7"),
{
    let t = bit_table();
    assert(t.len() == 117);
    assert(bit_table_part_2().len() == 16);
}

proof fn lemma_feature_bits_3(l: CoreLeaves)
    ensures
        decoded(l)[48] == ("avx512vp2intersect", 7 <= l.leaf0.eax && (l.leaf7.edx >> 8u32) & 1u32 == 1u32, "leaf 7"),
        decoded(l)[49] == ("avx512bf16", 7 <= l.leaf0.eax && (l.leaf7_1.eax >> 5u32) & 1u32 == 1u32, "leaf 7"),
        decoded(l)[50] == ("avx512fp16", 7 <= l.leaf0.eax && (l.leaf7.edx >> 23u32) & 1u32 == 1u32, "leaf 7"),
        decoded(l)[51] == ("avx10", 7 <= l.leaf0.eax && (l.leaf7_1.edx >> 19u32) & 1u32 == 1u32, "leaf 7"),
        decoded(l)[52] == ("avx_vnni", 7 <= l.leaf0.eax && (l.leaf7_1.eax >> 4u32) & 1u32 == 1u32, "leaf 7"),
        decoded(l)[53] == ("avx_vnni_int8", 7 <= l.leaf0.eax && (l.leaf7_1.edx >> 4u32) & 1u32 == 1u32, "leaf 7"),
        decoded(l)[54] == ("avx_vnni_int16", 7 <= l.leaf0.eax && (l.leaf7_1.edx >> 10u32) & 1u32 == 1u32, "leaf 7"),
        decoded(l)[55] == ("avx_ifma", 7 <= l.leaf0.eax && (l.leaf7_1.eax >> 23u32) & 1u32 == 1u32, "leaf 7"),
        decoded(l)[56] == ("avx_ne_convert", 7 <= l.leaf0.eax && (l.leaf7_1.edx >> 5u32) & 1u32 == 1u32, "leaf 7"),
        decoded(l)[57] == ("amx_tile", 7 <= l.leaf0.eax && (l.leaf7.edx >> 24u32) & 1u32 == 1u32, "leaf 7"),
        decoded(l)[58] == ("amx_int8", 7 <= l.leaf0.eax && (l.leaf7.edx >> 25u32) & 1u32 == 1u32, "leaf 7"),
        decoded(l)[59] == ("amx_bf16", 7 <= l.leaf0.eax && (l.leaf7.edx >> 22u32) & 1u32 == 1u32, "leaf 7"),
        decoded(l)[60] == ("sha", 7 <= l.leaf0.eax && (l.leaf7.ebx >> 29u32) & 1u32 == 1u32, "leaf 7"),
        decoded(l)[61] == ("vaes", 7 <= l.leaf0.eax && (l.leaf7.ecx >> 9u32) & 1u32 == 1u32, "leaf 7"),
        decoded(l)[62] == ("vpclmulqdq", 7 <= l.leaf0.eax && (l.leaf7.ecx >> 10u32) & 1u32 == 1u32, "leaf 7"),
        decoded(l)[63] == ("gfni", 7 <= l.leaf0.eax && (l.leaf7.ecx >> 8u32) & 1u32 == 1u32, "leaf 7"),
{
    let t = bit_table();
    assert(t.len() == 117);
    assert(bit_table_part_3().len() == 16);
}

proof fn lemma_feature_bits_4(l: CoreLeaves)
    ensures
        decoded(l)[64] == ("rdseed", 7 <= l.leaf0.eax && (l.leaf7.ebx >> 18u32) & 1u32 == 1u32, "leaf 7"),
        decoded(l)[65] == ("rtm", 7 <= l.leaf0.eax && (l.leaf7.ebx >> 11u32) & 1u32 == 1u32, "leaf 7"),
        decoded(l)[66] == ("hle", 7 <= l.leaf0.eax && (l.leaf7.ebx >> 4u32) & 1u32 == 1u32, "leaf 7"),
        decoded(l)[67] == ("clflushopt", 7 <= l.leaf0.eax && (l.leaf7.ebx >> 23u32) & 1u32 == 1u32, "leaf 7"),
        decoded(l)[68] == ("clwb", 7 <= l.leaf0.eax && (l.leaf7.ebx >> 24u32) & 1u32 == 1u32, "leaf 7"),
        decoded(l)[69] == ("waitpkg", 7 <= l.leaf0.eax && (l.leaf7.ecx >> 5u32) & 1u32 == 1u32, "leaf 7"),
        decoded(l)[70] == ("hreset", 7 <= l.leaf0.eax && (l.leaf7_1.eax >> 22u32) & 1u32 == 1u32, "leaf 7"),
        decoded(l)[71] == ("prefetchi", 7 <= l.leaf0.eax && (l.leaf7_1.edx >> 14u32) & 1u32 == 1u32, "leaf 7"),
        decoded(l)[72] == ("rdpid", 7 <= l.leaf0.eax && (l.leaf7.ecx >> 22u32) & 1u32 == 1u32, "leaf 7"),
        decoded(l)[73] == ("cet_ss", 7 <= l.leaf0.eax && (l.leaf7.ecx >> 7u32) & 1u32 == 1u32, "leaf 7"),
        decoded(l)[74] == ("cet_sss", 7 <= l.leaf0.eax && (l.leaf7_1.edx >> 18u32) & 1u32 == 1u32, "leaf 7"),
        decoded(l)[75] == ("mpx", 7 <= l.leaf0.eax && (l.leaf7.ebx >> 14u32) & 1u32 == 1u32, "leaf 7"),
        decoded(l)[76] == ("sgx", 7 <= l.leaf0.eax && (l.leaf7.ebx >> 2u32) & 1u32 == 1u32, "leaf 7"),
        decoded(l)[77] == ("sgx_lc", 7 <= l.leaf0.eax && (l.leaf7.ecx >> 30u32) & 1u32 == 1u32, "leaf 7"),
        decoded(l)[78] == ("tme", 7 <= l.leaf0.eax && (l.leaf7.ecx >> 13u32) & 1u32 == 1u32, "leaf 7"),
        decoded(l)[79] == ("lam", 7 <= l.leaf0.eax && (l.leaf7_1.eax >> 26u32) & 1u32 == 1u32, "leaf 7"),
{
    let t = bit_table();
    assert(t.len() == 117);
    assert(bit_table_part_4().len() == 16);
}

proof fn lemma_feature_bits_5(l: CoreLeaves)
    ensures
        decoded(l)[80] == ("intel_pt", 7 <= l.leaf0.eax && (l.leaf7.ebx >> 25u32) & 1u32 == 1u32, "leaf 7"),
        decoded(l)[81] == ("rdt_m", 7 <= l.leaf0.eax && (l.leaf7.ebx >> 12u32) & 1u32 == 1u32, "leaf 7"),
        decoded(l)[82] == ("rdt_a", 7 <= l.leaf0.eax && (l.leaf7.ebx >> 15u32) & 1u32 == 1u32, "leaf 7"),
        decoded(l)[83] == ("movdiri", (l.leaf7.ecx >> 27u32) & 1u32 == 1u32, "leaf 7:ECX[27]"),
        decoded(l)[84] == ("movdir64b", (l.leaf7.ecx >> 28u32) & 1u32 == 1u32, "leaf 7:ECX[28]"),
        decoded(l)[85] == ("fsrm", (l.leaf7.edx >> 4u32) & 1u32 == 1u32, "leaf 7:EDX[4]"),
        decoded(l)[86] == ("serialize", (l.leaf7.edx >> 14u32) & 1u32 == 1u32, "leaf 7:EDX[14]"),
        decoded(l)[87] == ("hybrid", (l.leaf7.edx >> 15u32) & 1u32 == 1u32, "leaf 7:EDX[15]"),
        decoded(l)[88] == ("arch_lbr", (l.leaf7.edx >> 19u32) & 1u32 == 1u32, "leaf 7:EDX[19]"),
        decoded(l)[89] == ("cet_ibt", (l.leaf7.edx >> 20u32) & 1u32 == 1u32, "leaf 7:EDX[20]"),
        decoded(l)[90] == ("hwp", 6 <= l.leaf0.eax && (l.leaf6.eax >> 7u32) & 1u32 == 1u32, "leaf 6"),
        decoded(l)[91] == ("hwp_notification", 6 <= l.leaf0.eax && (l.leaf6.eax >> 8u32) & 1u32 == 1u32, "leaf 6"),
        decoded(l)[92] == ("hwp_epp", 6 <= l.leaf0.eax && (l.leaf6.eax >> 10u32) & 1u32 == 1u32, "leaf 6"),
        decoded(l)[93] == ("hwp_activity_window", 6 <= l.leaf0.eax && (l.leaf6.eax >> 9u32) & 1u32 == 1u32, "leaf 6"),
        decoded(l)[94] == ("hwp_package", 6 <= l.leaf0.eax && (l.leaf6.eax >> 11u32) & 1u32 == 1u32, "leaf 6"),
        decoded(l)[95] == ("turbo", 6 <= l.leaf0.eax && (l.leaf6.eax >> 1u32) & 1u32 == 1u32, "leaf 6"),
{
    let t = bit_table();
    assert(t.len() == 117);
    assert(bit_table_part_5().len() == 16);
}

proof fn lemma_feature_bits_6(l: CoreLeaves)
    ensures
        decoded(l)[96] == ("turbo3", 6 <= l.leaf0.eax && (l.leaf6.eax >> 14u32) & 1u32 == 1u32, "leaf 6"),
        decoded(l)[97] == ("arat", 6 <= l.leaf0.eax && (l.leaf6.eax >> 2u32) & 1u32 == 1u32, "leaf 6"),
        decoded(l)[98] == ("hdc", 6 <= l.leaf0.eax && (l.leaf6.eax >> 13u32) & 1u32 == 1u32, "leaf 6"),
        decoded(l)[99] == ("dts", 6 <= l.leaf0.eax && (l.leaf6.eax >> 0u32) & 1u32 == 1u32, "leaf 6"),
        decoded(l)[100] == ("ptm", 6 <= l.leaf0.eax && (l.leaf6.eax >> 6u32) & 1u32 == 1u32, "leaf 6"),
        decoded(l)[101] == ("epb", 6 <= l.leaf0.eax && (l.leaf6.ecx >> 3u32) & 1u32 == 1u32, "leaf 6"),
        decoded(l)[102] == ("pln", 6 <= l.leaf0.eax && (l.leaf6.eax >> 4u32) & 1u32 == 1u32, "leaf 6"),
        decoded(l)[103] == ("xsaveopt", 0xd <= l.leaf0.eax && (l.leaf_d_1.eax >> 0u32) & 1u32 == 1u32, "leaf 0xD"),
        decoded(l)[104] == ("xsavec", 0xd <= l.leaf0.eax && (l.leaf_d_1.eax >> 1u32) & 1u32 == 1u32, "leaf 0xD"),
        decoded(l)[105] == ("xsaves", 0xd <= l.leaf0.eax && (l.leaf_d_1.eax >> 3u32) & 1u32 == 1u32, "leaf 0xD"),
        decoded(l)[106] == ("nx", 0x8000_0001 <= l.ext0.eax && (l.ext1.edx >> 20u32) & 1u32 == 1u32, "ext leaf 1"),
        decoded(l)[107] == ("lzcnt", 0x8000_0001 <= l.ext0.eax && (l.ext1.ecx >> 5u32) & 1u32 == 1u32, "ext leaf 1"),
        decoded(l)[108] == ("arch_perfmon", !is_amd(l) && 0xa <= l.leaf0.eax && l.leaf_a.eax & 0xffu32 >= 1u32, "leaf 0xA"),
        decoded(l)[109] == ("ptwrite", 0x14 <= l.leaf0.eax && (l.leaf_14.ebx >> 4u32) & 1u32 == 1u32, "leaf 0x14"),
        decoded(l)[110] == ("cmt", 0xf <= l.leaf0.eax && (l.leaf_f.edx >> 1u32) & 1u32 == 1u32 && (l.leaf_f_1.edx >> 0u32) & 1u32 == 1u32, "leaf 0xF"),
        decoded(l)[111] == ("mbm_local", 0xf <= l.leaf0.eax && (l.leaf_f.edx >> 1u32) & 1u32 == 1u32 && (l.leaf_f_1.edx >> 2u32) & 1u32 == 1u32, "leaf 0xF"),
{
    let t = bit_table();
    assert(t.len() == 117);
    assert(bit_table_part_6().len() == 16);
}

proof fn lemma_feature_bits_7(l: CoreLeaves)
    ensures
        decoded(l)[112] == ("mbm_total", 0xf <= l.leaf0.eax && (l.leaf_f.edx >> 1u32) & 1u32 == 1u32 && (l.leaf_f_1.edx >> 1u32) & 1u32 == 1u32, "leaf 0xF"),
        decoded(l)[113] == ("cat_l3", 0x10 <= l.leaf0.eax && (l.leaf_10.ebx >> 1u32) & 1u32 == 1u32, "leaf 0x10"),
        decoded(l)[114] == ("cat_l2", 0x10 <= l.leaf0.eax && (l.leaf_10.ebx >> 2u32) & 1u32 == 1u32, "leaf 0x10"),
        decoded(l)[115] == ("mba", 0x10 <= l.leaf0.eax && (l.leaf_10.ebx >> 3u32) & 1u32 == 1u32, "leaf 0x10"),
        decoded(l)[116] == ("cdp_l3", 0x10 <= l.leaf0.eax && (l.leaf_10.ebx >> 1u32) & 1u32 == 1u32 && (l.leaf_10_1.ecx >> 2u32) & 1u32 == 1u32, "leaf 0x10"),
{
    let t = bit_table();
    assert(t.len() == 117);
    assert(bit_table_part_7().len() == 5);
}

/// Every feature the CPUID probe decodes is read from its own leaf, register and bit
/// (Intel SDM vol. 2A, `CPUID`), and only while that leaf is available: basic leaves up
/// to the maximum in leaf 0 EAX, extended leaves up to the maximum in leaf 0x8000_0000
/// EAX. The decoded list names each feature, its value and its leaf tag, in this order.
#[verifier::spinoff_prover]
#[verifier::rlimit(60)]
pub proof fn cpuid_feature_bits(l: CoreLeaves)
    ensures
        decoded(l).len() == 117,
        decoded(l)[0] == ("sse", 1 <= l.leaf0.eax && (l.leaf1.edx >> 25u32) & 1u32 == 1u32, "leaf 1"),
        decoded(l)[1] == ("sse2", 1 <= l.leaf0.eax && (l.leaf1.edx >> 26u32) & 1u32 == 1u32, "leaf 1"),
        decoded(l)[2] == ("sse3", 1 <= l.leaf0.eax && (l.leaf1.ecx >> 0u32) & 1u32 == 1u32, "leaf 1"),
        decoded(l)[3] == ("ssse3", 1 <= l.leaf0.eax && (l.leaf1.ecx >> 9u32) & 1u32 == 1u32, "leaf 1"),
        decoded(l)[4] == ("sse4_1", 1 <= l.leaf0.eax && (l.leaf1.ecx >> 19u32) & 1u32 == 1u32, "leaf 1"),
        decoded(l)[5] == ("sse4_2", 1 <= l.leaf0.eax && (l.leaf1.ecx >> 20u32) & 1u32 == 1u32, "leaf 1"),
        decoded(l)[6] == ("avx", 1 <= l.leaf0.eax && (l.leaf1.ecx >> 28u32) & 1u32 == 1u32, "leaf 1"),
        decoded(l)[7] == ("fma", 1 <= l.leaf0.eax && (l.leaf1.ecx >> 12u32) & 1u32 == 1u32, "leaf 1"),
        decoded(l)[8] == ("f16c", 1 <= l.leaf0.eax && (l.leaf1.ecx >> 29u32) & 1u32 == 1u32, "leaf 1"),
        decoded(l)[9] == ("popcnt", 1 <= l.leaf0.eax && (l.leaf1.ecx >> 23u32) & 1u32 == 1u32, "leaf 1"),
        decoded(l)[10] == ("movbe", 1 <= l.leaf0.eax && (l.leaf1.ecx >> 22u32) & 1u32 == 1u32, "leaf 1"),
        decoded(l)[11] == ("aes", 1 <= l.leaf0.eax && (l.leaf1.ecx >> 25u32) & 1u32 == 1u32, "leaf 1"),
        decoded(l)[12] == ("pclmulqdq", 1 <= l.leaf0.eax && (l.leaf1.ecx >> 1u32) & 1u32 == 1u32, "leaf 1"),
        decoded(l)[13] == ("rdrand", 1 <= l.leaf0.eax && (l.leaf1.ecx >> 30u32) & 1u32 == 1u32, "leaf 1"),
        decoded(l)[14] == ("cmpxchg16b", 1 <= l.leaf0.eax && (l.leaf1.ecx >> 13u32) & 1u32 == 1u32, "leaf 1"),
        decoded(l)[15] == ("xsave", 1 <= l.leaf0.eax && (l.leaf1.ecx >> 26u32) & 1u32 == 1u32, "leaf 1"),
        decoded(l)[16] == ("monitor", 1 <= l.leaf0.eax && (l.leaf1.ecx >> 3u32) & 1u32 == 1u32, "leaf 1"),
        decoded(l)[17] == ("vmx", 1 <= l.leaf0.eax && (l.leaf1.ecx >> 5u32) & 1u32 == 1u32, "leaf 1"),
        decoded(l)[18] == ("smx", 1 <= l.leaf0.eax && (l.leaf1.ecx >> 6u32) & 1u32 == 1u32, "leaf 1"),
        decoded(l)[19] == ("eist", 1 <= l.leaf0.eax && (l.leaf1.ecx >> 7u32) & 1u32 == 1u32, "leaf 1"),
        decoded(l)[20] == ("tm2", 1 <= l.leaf0.eax && (l.leaf1.ecx >> 8u32) & 1u32 == 1u32, "leaf 1"),
        decoded(l)[21] == ("x2apic", 1 <= l.leaf0.eax && (l.leaf1.ecx >> 21u32) & 1u32 == 1u32, "leaf 1"),
        decoded(l)[22] == ("htt", 1 <= l.leaf0.eax && (l.leaf1.edx >> 28u32) & 1u32 == 1u32, "leaf 1"),
        decoded(l)[23] == ("hypervisor", 1 <= l.leaf0.eax && (l.leaf1.ecx >> 31u32) & 1u32 == 1u32, "leaf 1"),
        decoded(l)[24] == ("tsc_deadline", 1 <= l.leaf0.eax && (l.leaf1.ecx >> 24u32) & 1u32 == 1u32, "leaf 1"),
        decoded(l)[25] == ("pdcm", 1 <= l.leaf0.eax && (l.leaf1.ecx >> 15u32) & 1u32 == 1u32, "leaf 1"),
        decoded(l)[26] == ("bts", 1 <= l.leaf0.eax && (l.leaf1.edx >> 21u32) & 1u32 == 1u32, "leaf 1 (DS)"),
        decoded(l)[27] == ("avx2", 7 <= l.leaf0.eax && (l.leaf7.ebx >> 5u32) & 1u32 == 1u32, "leaf 7"),
        decoded(l)[28] == ("bmi1", 7 <= l.leaf0.eax && (l.leaf7.ebx >> 3u32) & 1u32 == 1u32, "leaf 7"),
        decoded(l)[29] == ("bmi2", 7 <= l.leaf0.eax && (l.leaf7.ebx >> 8u32) & 1u32 == 1u32, "leaf 7"),
        decoded(l)[30] == ("adx", 7 <= l.leaf0.eax && (l.leaf7.ebx >> 19u32) & 1u32 == 1u32, "leaf 7"),
        decoded(l)[31] == ("fsgsbase", 7 <= l.leaf0.eax && (l.leaf7.ebx >> 0u32) & 1u32 == 1u32, "leaf 7"),
        decoded(l)[32] == ("smep", 7 <= l.leaf0.eax && (l.leaf7.ebx >> 7u32) & 1u32 == 1u32, "leaf 7"),
        decoded(l)[33] == ("smap", 7 <= l.leaf0.eax && (l.leaf7.ebx >> 20u32) & 1u32 == 1u32, "leaf 7"),
        decoded(l)[34] == ("umip", 7 <= l.leaf0.eax && (l.leaf7.ecx >> 2u32) & 1u32 == 1u32, "leaf 7"),
        decoded(l)[35] == ("pku", 7 <= l.leaf0.eax && (l.leaf7.ecx >> 3u32) & 1u32 == 1u32, "leaf 7"),
        decoded(l)[36] == ("ospke", 7 <= l.leaf0.eax && (l.leaf7.ecx >> 4u32) & 1u32 == 1u32, "leaf 7"),
        decoded(l)[37] == ("avx512f", 7 <= l.leaf0.eax && (l.leaf7.ebx >> 16u32) & 1u32 == 1u32, "leaf 7"),
        decoded(l)[38] == ("avx512cd", 7 <= l.leaf0.eax && (l.leaf7.ebx >> 28u32) & 1u32 == 1u32, "leaf 7"),
        decoded(l)[39] == ("avx512vl", 7 <= l.leaf0.eax && (l.leaf7.ebx >> 31u32) & 1u32 == 1u32, "leaf 7"),
        decoded(l)[40] == ("avx512dq", 7 <= l.leaf0.eax && (l.leaf7.ebx >> 17u32) & 1u32 == 1u32, "leaf 7"),
        decoded(l)[41] == ("avx512bw", 7 <= l.leaf0.eax && (l.leaf7.ebx >> 30u32) & 1u32 == 1u32, "leaf 7"),
        decoded(l)[42] == ("avx512ifma", 7 <= l.leaf0.eax && (l.leaf7.ebx >> 21u32) & 1u32 == 1u32, "leaf 7"),
        decoded(l)[43] == ("avx512vbmi", 7 <= l.leaf0.eax && (l.leaf7.ecx >> 1u32) & 1u32 == 1u32, "leaf 7"),
        decoded(l)[44] == ("avx512vbmi2", 7 <= l.leaf0.eax && (l.leaf7.ecx >> 6u32) & 1u32 == 1u32, "leaf 7"),
        decoded(l)[45] == ("avx512vnni", 7 <= l.leaf0.eax && (l.leaf7.ecx >> 11u32) & 1u32 == 1u32, "leaf 7"),
        decoded(l)[46] == ("avx512bitalg", 7 <= l.leaf0.eax && (l.leaf7.ecx >> 12u32) & 1u32 == 1u32, "leaf 7"),
        decoded(l)[47] == ("avx512vpopcntdq", 7 <= l.leaf0.eax && (l.leaf7.ecx >> 14u32) & 1u32 == 1u32, "leaf 7"),
        decoded(l)[48] == ("avx512vp2intersect", 7 <= l.leaf0.eax && (l.leaf7.edx >> 8u32) & 1u32 == 1u32, "leaf 7"),
        decoded(l)[49] == ("avx512bf16", 7 <= l.leaf0.eax && (l.leaf7_1.eax >> 5u32) & 1u32 == 1u32, "leaf 7"),
        decoded(l)[50] == ("avx512fp16", 7 <= l.leaf0.eax && (l.leaf7.edx >> 23u32) & 1u32 == 1u32, "leaf 7"),
        decoded(l)[51] == ("avx10", 7 <= l.leaf0.eax && (l.leaf7_1.edx >> 19u32) & 1u32 == 1u32, "leaf 7"),
        decoded(l)[52] == ("avx_vnni", 7 <= l.leaf0.eax && (l.leaf7_1.eax >> 4u32) & 1u32 == 1u32, "leaf 7"),
        decoded(l)[53] == ("avx_vnni_int8", 7 <= l.leaf0.eax && (l.leaf7_1.edx >> 4u32) & 1u32 == 1u32, "leaf 7"),
        decoded(l)[54] == ("avx_vnni_int16", 7 <= l.leaf0.eax && (l.leaf7_1.edx >> 10u32) & 1u32 == 1u32, "leaf 7"),
        decoded(l)[55] == ("avx_ifma", 7 <= l.leaf0.eax && (l.leaf7_1.eax >> 23u32) & 1u32 == 1u32, "leaf 7"),
        decoded(l)[56] == ("avx_ne_convert", 7 <= l.leaf0.eax && (l.leaf7_1.edx >> 5u32) & 1u32 == 1u32, "leaf 7"),
        decoded(l)[57] == ("amx_tile", 7 <= l.leaf0.eax && (l.leaf7.edx >> 24u32) & 1u32 == 1u32, "leaf 7"),
        decoded(l)[58] == ("amx_int8", 7 <= l.leaf0.eax && (l.leaf7.edx >> 25u32) & 1u32 == 1u32, "leaf 7"),
        decoded(l)[59] == ("amx_bf16", 7 <= l.leaf0.eax && (l.leaf7.edx >> 22u32) & 1u32 == 1u32, "leaf 7"),
        decoded(l)[60] == ("sha", 7 <= l.leaf0.eax && (l.leaf7.ebx >> 29u32) & 1u32 == 1u32, "leaf 7"),
        decoded(l)[61] == ("vaes", 7 <= l.leaf0.eax && (l.leaf7.ecx >> 9u32) & 1u32 == 1u32, "leaf 7"),
        decoded(l)[62] == ("vpclmulqdq", 7 <= l.leaf0.eax && (l.leaf7.ecx >> 10u32) & 1u32 == 1u32, "leaf 7"),
        decoded(l)[63] == ("gfni", 7 <= l.leaf0.eax && (l.leaf7.ecx >> 8u32) & 1u32 == 1u32, "leaf 7"),
        decoded(l)[64] == ("rdseed", 7 <= l.leaf0.eax && (l.leaf7.ebx >> 18u32) & 1u32 == 1u32, "leaf 7"),
        decoded(l)[65] == ("rtm", 7 <= l.leaf0.eax && (l.leaf7.ebx >> 11u32) & 1u32 == 1u32, "leaf 7"),
        decoded(l)[66] == ("hle", 7 <= l.leaf0.eax && (l.leaf7.ebx >> 4u32) & 1u32 == 1u32, "leaf 7"),
        decoded(l)[67] == ("clflushopt", 7 <= l.leaf0.eax && (l.leaf7.ebx >> 23u32) & 1u32 == 1u32, "leaf 7"),
        decoded(l)[68] == ("clwb", 7 <= l.leaf0.eax && (l.leaf7.ebx >> 24u32) & 1u32 == 1u32, "leaf 7"),
        decoded(l)[69] == ("waitpkg", 7 <= l.leaf0.eax && (l.leaf7.ecx >> 5u32) & 1u32 == 1u32, "leaf 7"),
        decoded(l)[70] == ("hreset", 7 <= l.leaf0.eax && (l.leaf7_1.eax >> 22u32) & 1u32 == 1u32, "leaf 7"),
        decoded(l)[71] == ("prefetchi", 7 <= l.leaf0.eax && (l.leaf7_1.edx >> 14u32) & 1u32 == 1u32, "leaf 7"),
        decoded(l)[72] == ("rdpid", 7 <= l.leaf0.eax && (l.leaf7.ecx >> 22u32) & 1u32 == 1u32, "leaf 7"),
        decoded(l)[73] == ("cet_ss", 7 <= l.leaf0.eax && (l.leaf7.ecx >> 7u32) & 1u32 == 1u32, "leaf 7"),
        decoded(l)[74] == ("cet_sss", 7 <= l.leaf0.eax && (l.leaf7_1.edx >> 18u32) & 1u32 == 1u32, "leaf 7"),
        decoded(l)[75] == ("mpx", 7 <= l.leaf0.eax && (l.leaf7.ebx >> 14u32) & 1u32 == 1u32, "leaf 7"),
        decoded(l)[76] == ("sgx", 7 <= l.leaf0.eax && (l.leaf7.ebx >> 2u32) & 1u32 == 1u32, "leaf 7"),
        decoded(l)[77] == ("sgx_lc", 7 <= l.leaf0.eax && (l.leaf7.ecx >> 30u32) & 1u32 == 1u32, "leaf 7"),
        decoded(l)[78] == ("tme", 7 <= l.leaf0.eax && (l.leaf7.ecx >> 13u32) & 1u32 == 1u32, "leaf 7"),
        decoded(l)[79] == ("lam", 7 <= l.leaf0.eax && (l.leaf7_1.eax >> 26u32) & 1u32 == 1u32, "leaf 7"),
        decoded(l)[80] == ("intel_pt", 7 <= l.leaf0.eax && (l.leaf7.ebx >> 25u32) & 1u32 == 1u32, "leaf 7"),
        decoded(l)[81] == ("rdt_m", 7 <= l.leaf0.eax && (l.leaf7.ebx >> 12u32) & 1u32 == 1u32, "leaf 7"),
        decoded(l)[82] == ("rdt_a", 7 <= l.leaf0.eax && (l.leaf7.ebx >> 15u32) & 1u32 == 1u32, "leaf 7"),
        decoded(l)[83] == ("movdiri", (l.leaf7.ecx >> 27u32) & 1u32 == 1u32, "leaf 7:ECX[27]"),
        decoded(l)[84] == ("movdir64b", (l.leaf7.ecx >> 28u32) & 1u32 == 1u32, "leaf 7:ECX[28]"),
        decoded(l)[85] == ("fsrm", (l.leaf7.edx >> 4u32) & 1u32 == 1u32, "leaf 7:EDX[4]"),
        decoded(l)[86] == ("serialize", (l.leaf7.edx >> 14u32) & 1u32 == 1u32, "leaf 7:EDX[14]"),
        decoded(l)[87] == ("hybrid", (l.leaf7.edx >> 15u32) & 1u32 == 1u32, "leaf 7:EDX[15]"),
        decoded(l)[88] == ("arch_lbr", (l.leaf7.edx >> 19u32) & 1u32 == 1u32, "leaf 7:EDX[19]"),
        decoded(l)[89] == ("cet_ibt", (l.leaf7.edx >> 20u32) & 1u32 == 1u32, "leaf 7:EDX[20]"),
        decoded(l)[90] == ("hwp", 6 <= l.leaf0.eax && (l.leaf6.eax >> 7u32) & 1u32 == 1u32, "leaf 6"),
        decoded(l)[91] == ("hwp_notification", 6 <= l.leaf0.eax && (l.leaf6.eax >> 8u32) & 1u32 == 1u32, "leaf 6"),
        decoded(l)[92] == ("hwp_epp", 6 <= l.leaf0.eax && (l.leaf6.eax >> 10u32) & 1u32 == 1u32, "leaf 6"),
        decoded(l)[93] == ("hwp_activity_window", 6 <= l.leaf0.eax && (l.leaf6.eax >> 9u32) & 1u32 == 1u32, "leaf 6"),
        decoded(l)[94] == ("hwp_package", 6 <= l.leaf0.eax && (l.leaf6.eax >> 11u32) & 1u32 == 1u32, "leaf 6"),
        decoded(l)[95] == ("turbo", 6 <= l.leaf0.eax && (l.leaf6.eax >> 1u32) & 1u32 == 1u32, "leaf 6"),
        decoded(l)[96] == ("turbo3", 6 <= l.leaf0.eax && (l.leaf6.eax >> 14u32) & 1u32 == 1u32, "leaf 6"),
        decoded(l)[97] == ("arat", 6 <= l.leaf0.eax && (l.leaf6.eax >> 2u32) & 1u32 == 1u32, "leaf 6"),
        decoded(l)[98] == ("hdc", 6 <= l.leaf0.eax && (l.leaf6.eax >> 13u32) & 1u32 == 1u32, "leaf 6"),
        decoded(l)[99] == ("dts", 6 <= l.leaf0.eax && (l.leaf6.eax >> 0u32) & 1u32 == 1u32, "leaf 6"),
        decoded(l)[100] == ("ptm", 6 <= l.leaf0.eax && (l.leaf6.eax >> 6u32) & 1u32 == 1u32, "leaf 6"),
        decoded(l)[101] == ("epb", 6 <= l.leaf0.eax && (l.leaf6.ecx >> 3u32) & 1u32 == 1u32, "leaf 6"),
        decoded(l)[102] == ("pln", 6 <= l.leaf0.eax && (l.leaf6.eax >> 4u32) & 1u32 == 1u32, "leaf 6"),
        decoded(l)[103] == ("xsaveopt", 0xd <= l.leaf0.eax && (l.leaf_d_1.eax >> 0u32) & 1u32 == 1u32, "leaf 0xD"),
        decoded(l)[104] == ("xsavec", 0xd <= l.leaf0.eax && (l.leaf_d_1.eax >> 1u32) & 1u32 == 1u32, "leaf 0xD"),
        decoded(l)[105] == ("xsaves", 0xd <= l.leaf0.eax && (l.leaf_d_1.eax >> 3u32) & 1u32 == 1u32, "leaf 0xD"),
        decoded(l)[106] == ("nx", 0x8000_0001 <= l.ext0.eax && (l.ext1.edx >> 20u32) & 1u32 == 1u32, "ext leaf 1"),
        decoded(l)[107] == ("lzcnt", 0x8000_0001 <= l.ext0.eax && (l.ext1.ecx >> 5u32) & 1u32 == 1u32, "ext leaf 1"),
        decoded(l)[108] == ("arch_perfmon", !is_amd(l) && 0xa <= l.leaf0.eax && l.leaf_a.eax & 0xffu32 >= 1u32, "leaf 0xA"),
        decoded(l)[109] == ("ptwrite", 0x14 <= l.leaf0.eax && (l.leaf_14.ebx >> 4u32) & 1u32 == 1u32, "leaf 0x14"),
        decoded(l)[110] == ("cmt", 0xf <= l.leaf0.eax && (l.leaf_f.edx >> 1u32) & 1u32 == 1u32 && (l.leaf_f_1.edx >> 0u32) & 1u32 == 1u32, "leaf 0xF"),
        decoded(l)[111] == ("mbm_local", 0xf <= l.leaf0.eax && (l.leaf_f.edx >> 1u32) & 1u32 == 1u32 && (l.leaf_f_1.edx >> 2u32) & 1u32 == 1u32, "leaf 0xF"),
        decoded(l)[112] == ("mbm_total", 0xf <= l.leaf0.eax && (l.leaf_f.edx >> 1u32) & 1u32 == 1u32 && (l.leaf_f_1.edx >> 1u32) & 1u32 == 1u32, "leaf 0xF"),
        decoded(l)[113] == ("cat_l3", 0x10 <= l.leaf0.eax && (l.leaf_10.ebx >> 1u32) & 1u32 == 1u32, "leaf 0x10"),
        decoded(l)[114] == ("cat_l2", 0x10 <= l.leaf0.eax && (l.leaf_10.ebx >> 2u32) & 1u32 == 1u32, "leaf 0x10"),
        decoded(l)[115] == ("mba", 0x10 <= l.leaf0.eax && (l.leaf_10.ebx >> 3u32) & 1u32 == 1u32, "leaf 0x10"),
        decoded(l)[116] == ("cdp_l3", 0x10 <= l.leaf0.eax && (l.leaf_10.ebx >> 1u32) & 1u32 == 1u32 && (l.leaf_10_1.ecx >> 2u32) & 1u32 == 1u32, "leaf 0x10"),
{
    assert(bit_table().len() == 117);
    lemma_feature_bits_0(l);
    lemma_feature_bits_1(l);
    lemma_feature_bits_2(l);
    lemma_feature_bits_3(l);
    lemma_feature_bits_4(l);
    lemma_feature_bits_5(l);
    lemma_feature_bits_6(l);
    lemma_feature_bits_7(l);
}

} // verus!
