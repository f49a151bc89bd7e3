//! Model-Specific Register probe (root).
//!
//! Reads (never writes) CPU 0's MSRs. Without access to the MSR device it emits an
//! `msr` status finding explaining why and an explicit `Unknown` finding for every
//! MSR-only feature. When the device node is missing, the probe is root, and the user
//! opted in, it asks for one `modprobe msr` attempt per run and re-opens the device.
//!
//! Individual MSRs may `#GP` if unimplemented on this part; the kernel surfaces that as
//! an I/O error, which leaves the feature undetermined. The VMX capability MSRs are read
//! only after `IA32_VMX_BASIC` (0x480) read successfully, and the RAPL registers only
//! after the power-unit register (0x606), so no avoidable faults are provoked.
//!
//! The caller performs the device and register I/O: [`MsrProbe::access`] and
//! [`MsrProbe::after_load`] decide device access, [`next_register`] names each register
//! to read next, and [`MsrProbe::decide`] turns the reads into findings.

use vstd::prelude::*;

use crate::model::{Detection, Status};
use crate::probes::{
    Probe,
    all_unknown, detection_is, findings_are, lemma_findings_push, unavailable, Context,
    Findings, IoErrorKind, IoFailure,
};
use crate::model::Privilege;
use crate::text::{dec, hex_prefixed, push_dec, push_hex_prefixed};

verus! {

pub const SRC: &'static str = "msr";

/// Outcome of reading one register.
pub type MsrRead = Result<u64, IoFailure>;

/// The registers read so far, in order, with their outcomes.
pub type MsrReads = Vec<(u32, MsrRead)>;

// ---- device access ------------------------------------------------------------------

/// What to do after trying to open `/dev/cpu/0/msr`.
#[derive(Debug)]
pub enum AccessStep {
    /// The device is readable; the detail for the `msr` finding.
    Ready(String),
    /// MSRs cannot be read; the reason for the `msr` finding.
    Unavailable(String),
    /// Run `modprobe msr` once, then re-open the device (see [`MsrProbe::after_load`]).
    LoadModule,
}

pub open spec fn access_step_ok(
    step: AccessStep,
    open: Result<(), IoFailure>,
    root: bool,
    opt_in: bool,
    first_attempt: bool,
) -> bool {
    match open {
        Ok(_) => step matches AccessStep::Ready(d) && d@ == "/dev/cpu/0/msr readable"@,
        Err(e) => if e.kind == IoErrorKind::PermissionDenied {
            step matches AccessStep::Unavailable(m) && m@ == "requires root"@
        } else if e.kind == IoErrorKind::NotFound {
            if !root {
                step matches AccessStep::Unavailable(m) && m@
                    == "no /dev/cpu/0/msr (msr module not loaded; loading it requires root)"@
            } else if !opt_in {
                step matches AccessStep::Unavailable(m) && m@
                    == "no /dev/cpu/0/msr (msr module not loaded; pass --load-msr-module to load it)"@
            } else if !first_attempt {
                step matches AccessStep::Unavailable(m) && m@
                    == "no /dev/cpu/0/msr (msr module load already attempted)"@
            } else {
                step is LoadModule
            }
        } else {
            step matches AccessStep::Unavailable(m) && m@ == "open failed: "@ + e.message@
        },
    }
}

pub open spec fn after_load_ok(
    r: Result<String, String>,
    load: Result<(), String>,
    reopen: Result<(), IoFailure>,
) -> bool {
    match load {
        Err(reason) => r matches Err(m) && m@ == "msr module not loaded and modprobe failed: "@
            + reason@,
        Ok(_) => match reopen {
            Ok(_) => r matches Ok(d) && d@ == "readable (auto-loaded msr module)"@,
            Err(e) => r matches Err(m) && m@ == "msr module loaded but open failed: "@ + e.message@,
        },
    }
}

// ---- which register next --------------------------------------------------------------

/// The first read of register `r`, if it was read.
pub open spec fn reg_read(reads: Seq<(u32, MsrRead)>, r: u32) -> Option<MsrRead>
    decreases reads.len(),
{
    if reads.len() == 0 {
        None
    } else {
        match reg_read(reads.drop_last(), r) {
            Some(x) => Some(x),
            None => if reads.last().0 == r {
                Some(reads.last().1)
            } else {
                None
            },
        }
    }
}

/// The value of register `r`, when its first read succeeded.
pub open spec fn reg_value(reads: Seq<(u32, MsrRead)>, r: u32) -> Option<u64> {
    match reg_read(reads, r) {
        Some(Ok(v)) => Some(v),
        _ => None,
    }
}

/// The registers to read, in order: the VMX capability MSRs only when `IA32_VMX_BASIC`
/// read, and the package power registers only when the RAPL power unit read.
pub open spec fn read_plan(reads: Seq<(u32, MsrRead)>) -> Seq<u32> {
    seq![0x10Au32, 0x3A, 0x480] + (if reg_value(reads, 0x480) is Some {
        seq![0x48Bu32, 0x481, 0x48C]
    } else {
        Seq::<u32>::empty()
    }) + seq![0x770u32, 0x1A2, 0x606] + (if reg_value(reads, 0x606) is Some {
        seq![0x614u32, 0x610]
    } else {
        Seq::<u32>::empty()
    }) + seq![0x34u32, 0x13A]
}

pub open spec fn spec_next_register(reads: Seq<(u32, MsrRead)>) -> Option<u32> {
    let plan = read_plan(reads);
    if reads.len() < plan.len() {
        Some(plan[reads.len() as int])
    } else {
        None
    }
}

pub proof fn lemma_reg_read_prefix(reads: Seq<(u32, MsrRead)>, n: int, r: u32)
    requires
        0 <= n <= reads.len(),
        reg_read(reads.take(n), r) is Some,
    ensures
        reg_read(reads, r) == reg_read(reads.take(n), r),
    decreases reads.len(),
{
    if n < reads.len() {
        assert(reads.drop_last().take(n) =~= reads.take(n));
        lemma_reg_read_prefix(reads.drop_last(), n, r);
    } else {
        assert(reads.take(n) =~= reads);
    }
}

/// Executable [`reg_value`].
pub fn register_value(reads: &MsrReads, r: u32) -> (v: Option<u64>)
    ensures
        v == reg_value(reads@, r),
{
    let mut i: usize = 0;
    assert(reads@.take(0) =~= Seq::<(u32, MsrRead)>::empty());
    while i < reads.len()
        invariant
            i <= reads@.len(),
            reg_read(reads@.take(i as int), r) is None,
        decreases reads.len() - i,
    {
        assert(reads@.take(i + 1).drop_last() =~= reads@.take(i as int));
        if reads[i].0 == r {
            proof {
                lemma_reg_read_prefix(reads@, i + 1, r);
            }
            return match &reads[i].1 {
                Ok(v) => Some(*v),
                Err(_) => None,
            };
        }
        i += 1;
    }
    assert(reads@.take(i as int) =~= reads@);
    None
}

/// The register to read next, or `None` when every planned register has been read.
/// A VMX capability MSR is named only once `IA32_VMX_BASIC` read successfully, and a
/// package power register only once the RAPL power unit did.
pub fn next_register(reads: &MsrReads) -> (r: Option<u32>)
    ensures
        r == spec_next_register(reads@),
        r matches Some(x) && (x == 0x48B || x == 0x481 || x == 0x48C) ==> reg_value(reads@, 0x480)
            is Some,
        r matches Some(x) && (x == 0x614 || x == 0x610) ==> reg_value(reads@, 0x606) is Some,
{
    let mut plan: Vec<u32> = vec![0x10A, 0x3A, 0x480];
    let vmx = register_value(reads, 0x480).is_some();
    if vmx {
        plan.push(0x48B);
        plan.push(0x481);
        plan.push(0x48C);
    }
    plan.push(0x770);
    plan.push(0x1A2);
    plan.push(0x606);
    let rapl = register_value(reads, 0x606).is_some();
    if rapl {
        plan.push(0x614);
        plan.push(0x610);
    }
    plan.push(0x34);
    plan.push(0x13A);
    assert(plan@ =~= read_plan(reads@));
    if reads.len() < plan.len() {
        Some(plan[reads.len()])
    } else {
        None
    }
}

// ---- decoding the values --------------------------------------------------------------

pub open spec fn bit64(v: u64, n: u64) -> bool {
    (v >> n) & 1 == 1
}

pub open spec fn present(cond: bool) -> Status {
    if cond {
        Status::Present
    } else {
        Status::Absent
    }
}

/// `(id, bit)` of the IA32_ARCH_CAPABILITIES bits, per the Intel SDM.
pub open spec fn arch_cap_bits() -> Seq<(&'static str, u64)> {
    seq![
        ("rdcl_no", 0u64),
        ("eibrs", 1),
        ("rsba", 2),
        ("ssb_no", 4),
        ("mds_no", 5),
        ("if_pschange_no", 6),
        ("tsx_ctrl", 7),
        ("taa_no", 8),
        ("misc_package_ctls", 10),
        ("fb_clear", 17),
        ("rrsba", 19),
        ("bhi_no", 20),
        ("pbrsb_no", 24),
        ("gds_no", 26),
        ("rfds_no", 27),
    ]
}

pub open spec fn arch_cap_findings(v: u64) -> Seq<(&'static str, (Status, Seq<char>))> {
    Seq::new(
        arch_cap_bits().len(),
        |k: int|
            (
                arch_cap_bits()[k].0,
                (
                    present(bit64(v, arch_cap_bits()[k].1)),
                    "IA32_ARCH_CAPABILITIES["@ + dec(arch_cap_bits()[k].1 as nat) + "] (value "@
                        + hex_prefixed(v as nat) + ")"@,
                ),
            ),
    )
}

pub open spec fn feature_control_findings(v: u64) -> Seq<(&'static str, (Status, Seq<char>))> {
    let locked = bit64(v, 0);
    let base = seq![
        (
            "feature_control_locked",
            if locked {
                (Status::Enabled, "locked by firmware"@)
            } else {
                (Status::Disabled, "unlocked"@)
            },
        ),
        (
            "vmx",
            if !locked {
                (Status::Present, "FEATURE_CONTROL unlocked"@)
            } else if bit64(v, 2) {
                (Status::Enabled, "locked; VMX enabled outside SMX"@)
            } else if bit64(v, 1) {
                (Status::Enabled, "locked; VMX enabled (SMX only)"@)
            } else {
                (Status::Disabled, "locked; VMX disabled in firmware"@)
            },
        ),
    ];
    let with_sgx = if bit64(v, 18) {
        base.push(("sgx", (Status::Enabled, "FEATURE_CONTROL SGX enabled"@)))
    } else {
        base
    };
    if bit64(v, 17) {
        with_sgx.push(("sgx_lc", (Status::Enabled, "SGX launch control enabled"@)))
    } else {
        with_sgx
    }
}

pub open spec fn vmx_cap_findings(reads: Seq<(u32, MsrRead)>) -> Seq<(&'static str, (Status, Seq<char>))> {
    if reg_value(reads, 0x480) is None {
        Seq::empty()
    } else {
        let procbased = match reg_value(reads, 0x48B) {
            Some(v) => seq![
                ("ept", (present(bit64(v, 33)), "VMX_PROCBASED_CTLS2[1]"@)),
                ("vpid", (present(bit64(v, 37)), "VMX_PROCBASED_CTLS2[5]"@)),
                ("unrestricted_guest", (present(bit64(v, 39)), "VMX_PROCBASED_CTLS2[7]"@)),
                ("apicv", (present(bit64(v, 41)), "virtual-interrupt delivery"@)),
                ("vmcs_shadow", (present(bit64(v, 46)), "VMX_PROCBASED_CTLS2[14]"@)),
            ],
            None => Seq::empty(),
        };
        let pinbased = match reg_value(reads, 0x481) {
            Some(v) => seq![("posted_intr", (present(bit64(v, 39)), "VMX_PINBASED_CTLS[7]"@))],
            None => Seq::empty(),
        };
        let ept = match reg_value(reads, 0x48C) {
            Some(v) => seq![
                ("ept_ad", (present(bit64(v, 21)), "VMX_EPT_VPID_CAP[21]"@)),
                ("ept_1gb", (present(bit64(v, 17)), "VMX_EPT_VPID_CAP[17]"@)),
            ],
            None => Seq::empty(),
        };
        procbased + pinbased + ept
    }
}

/// `n / d` rounded to the nearest integer, ties to even (how `{:.0}` renders the exact
/// binary fraction `n / d` when `d` is a power of two).
pub open spec fn round_half_even(n: nat, d: nat) -> nat {
    let q = n / d;
    let r = n % d;
    if 2 * r > d {
        q + 1
    } else if 2 * r < d {
        q
    } else if q % 2 == 0 {
        q
    } else {
        q + 1
    }
}

/// Watts of a RAPL power field: `field / 2^unit`, rounded to whole watts.
pub open spec fn watts(field: u64, unit: u64) -> Seq<char> {
    dec(round_half_even(field as nat, (1u64 << (unit & 0xf)) as nat)) + " W"@
}

pub open spec fn power_findings(reads: Seq<(u32, MsrRead)>) -> Seq<(&'static str, (Status, Seq<char>))> {
    let hwp = match reg_value(reads, 0x770) {
        Some(v) => seq![
            (
                "hwp",
                (if bit64(v, 0) {
                    Status::Enabled
                } else {
                    Status::Disabled
                }, "IA32_PM_ENABLE[0]"@),
            ),
        ],
        None => Seq::empty(),
    };
    let tjmax = match reg_value(reads, 0x1A2) {
        Some(v) => seq![("tjmax", (Status::Present, dec(((v >> 16) & 0xff) as nat) + " °C"@))],
        None => Seq::empty(),
    };
    let rapl = match reg_value(reads, 0x606) {
        Some(u) => {
            let tdp = match reg_value(reads, 0x614) {
                Some(v) => seq![("pkg_tdp", (Status::Present, watts(v & 0x7fff, u)))],
                None => Seq::empty(),
            };
            let limits = match reg_value(reads, 0x610) {
                Some(v) => seq![
                    (
                        "pkg_power_limit",
                        (
                            Status::Present,
                            "PL1 "@ + watts(v & 0x7fff, u) + ", PL2 "@ + watts(
                                (v >> 32) & 0x7fff,
                                u,
                            ),
                        ),
                    ),
                ],
                None => Seq::empty(),
            };
            tdp + limits
        },
        None => Seq::empty(),
    };
    hwp + tjmax + rapl
}

pub open spec fn misc_findings(reads: Seq<(u32, MsrRead)>) -> Seq<(&'static str, (Status, Seq<char>))> {
    let smi = match reg_value(reads, 0x34) {
        Some(v) => seq![("smi_count", (Status::Present, dec((v & 0xffff_ffff) as nat) + " SMIs"@))],
        None => Seq::empty(),
    };
    let bg = match reg_value(reads, 0x13A) {
        Some(v) => seq![("boot_guard", (Status::Present, "SACM_INFO = "@ + hex_prefixed(v as nat)))],
        None => Seq::empty(),
    };
    smi + bg
}

/// Findings from the register reads, in report order.
pub open spec fn register_findings(reads: Seq<(u32, MsrRead)>) -> Seq<(&'static str, (Status, Seq<char>))> {
    (match reg_value(reads, 0x10A) {
        Some(v) => arch_cap_findings(v),
        None => Seq::empty(),
    }) + (match reg_value(reads, 0x3A) {
        Some(v) => feature_control_findings(v),
        None => Seq::empty(),
    }) + vmx_cap_findings(reads) + power_findings(reads) + misc_findings(reads)
}

/// The features only this probe reports.
pub open spec fn msr_only_ids() -> Seq<&'static str> {
    seq![
        "rdcl_no",
        "eibrs",
        "rsba",
        "ssb_no",
        "mds_no",
        "if_pschange_no",
        "tsx_ctrl",
        "taa_no",
        "misc_package_ctls",
        "fb_clear",
        "rrsba",
        "bhi_no",
        "pbrsb_no",
        "gds_no",
        "rfds_no",
        "feature_control_locked",
        "ept",
        "vpid",
        "unrestricted_guest",
        "apicv",
        "vmcs_shadow",
        "posted_intr",
        "ept_ad",
        "ept_1gb",
        "tjmax",
        "pkg_tdp",
        "pkg_power_limit",
        "smi_count",
        "boot_guard",
    ]
}

pub open spec fn msr_feature_ids() -> Seq<&'static str> {
    seq!["msr", "vmx", "sgx", "sgx_lc", "hwp"] + msr_only_ids()
}

/// The findings owed for an access outcome and the register reads.
pub open spec fn msr_findings_ok(
    out: Seq<(&'static str, Detection)>,
    access: Result<String, String>,
    reads: Seq<(u32, MsrRead)>,
) -> bool {
    match access {
        Ok(d) => findings_are(
            out,
            SRC,
            seq![("msr", (Status::Enabled, d@))] + register_findings(reads),
        ),
        Err(reason) => {
            &&& out.len() == msr_only_ids().len() + 1
            &&& out[0].0 == "msr"
            &&& detection_is(out[0].1, SRC, (Status::Disabled, reason@))
            &&& all_unknown(out.drop_first(), SRC, msr_only_ids(), reason@)
        },
    }
}

// ---- executable decoding ------------------------------------------------------------------

fn det(status: Status, text: &str) -> (r: Detection)
    ensures
        detection_is(r, SRC, (status, text@)),
{
    Detection::with_detail(status, SRC, String::from_str(text))
}

fn bit_exec(v: u64, n: u64) -> (r: bool)
    requires
        n < 64,
    ensures
        r == bit64(v, n),
{
    (v >> n) & 1 == 1
}

fn present_exec(cond: bool) -> (r: Status)
    ensures
        r == present(cond),
{
    if cond {
        Status::Present
    } else {
        Status::Absent
    }
}

/// Appends a finding whose detection is the expected `e`.
fn push_finding(
    out: &mut Findings,
    id: &'static str,
    d: Detection,
    Ghost(expected): Ghost<Seq<(&'static str, (Status, Seq<char>))>>,
    Ghost(e): Ghost<(Status, Seq<char>)>,
)
    requires
        findings_are(old(out)@, SRC, expected),
        detection_is(d, SRC, e),
    ensures
        findings_are(final(out)@, SRC, expected.push((id, e))),
{
    proof {
        lemma_findings_push(out@, SRC, expected, (id, d), (id, e));
    }
    out.push((id, d));
}

fn arch_caps(out: &mut Findings, v: u64, Ghost(expected): Ghost<Seq<(&'static str, (Status, Seq<char>))>>)
    requires
        findings_are(old(out)@, SRC, expected),
    ensures
        findings_are(final(out)@, SRC, expected + arch_cap_findings(v)),
{
    let bits: Vec<(&'static str, u64)> = vec![
        ("rdcl_no", 0),
        ("eibrs", 1),
        ("rsba", 2),
        ("ssb_no", 4),
        ("mds_no", 5),
        ("if_pschange_no", 6),
        ("tsx_ctrl", 7),
        ("taa_no", 8),
        ("misc_package_ctls", 10),
        ("fb_clear", 17),
        ("rrsba", 19),
        ("bhi_no", 20),
        ("pbrsb_no", 24),
        ("gds_no", 26),
        ("rfds_no", 27),
    ];
    assert(bits@ =~= arch_cap_bits());
    let ghost all = arch_cap_findings(v);
    let mut k: usize = 0;
    assert(expected + all.take(0) =~= expected);
    while k < bits.len()
        invariant
            k <= bits@.len(),
            bits@ == arch_cap_bits(),
            all == arch_cap_findings(v),
            findings_are(out@, SRC, expected + all.take(k as int)),
        decreases bits.len() - k,
    {
        let (id, b) = bits[k];
        assert(b < 64);
        let mut s = String::from_str("IA32_ARCH_CAPABILITIES[");
        push_dec(&mut s, b);
        s.append("] (value ");
        push_hex_prefixed(&mut s, v);
        s.append(")");
        let d = Detection::with_detail(present_exec(bit_exec(v, b)), SRC, s);
        push_finding(out, id, d, Ghost(expected + all.take(k as int)), Ghost(all[k as int].1));
        assert((expected + all.take(k as int)).push((id, all[k as int].1)) =~= expected + all.take(
            k + 1,
        ));
        k += 1;
    }
    assert(all.take(k as int) =~= all);
}

fn feature_control(out: &mut Findings, v: u64, Ghost(expected): Ghost<Seq<(&'static str, (Status, Seq<char>))>>)
    requires
        findings_are(old(out)@, SRC, expected),
    ensures
        findings_are(final(out)@, SRC, expected + feature_control_findings(v)),
{
    let locked = bit_exec(v, 0);
    let lock = if locked {
        det(Status::Enabled, "locked by firmware")
    } else {
        det(Status::Disabled, "unlocked")
    };
    let ghost e0 = feature_control_findings(v)[0];
    push_finding(out, "feature_control_locked", lock, Ghost(expected), Ghost(e0.1));
    let vmx = if !locked {
        det(Status::Present, "FEATURE_CONTROL unlocked")
    } else if bit_exec(v, 2) {
        det(Status::Enabled, "locked; VMX enabled outside SMX")
    } else if bit_exec(v, 1) {
        det(Status::Enabled, "locked; VMX enabled (SMX only)")
    } else {
        det(Status::Disabled, "locked; VMX disabled in firmware")
    };
    let ghost e1 = feature_control_findings(v)[1];
    push_finding(out, "vmx", vmx, Ghost(expected.push(e0)), Ghost(e1.1));
    let ghost mut exp = expected.push(e0).push(e1);
    if bit_exec(v, 18) {
        push_finding(out, "sgx", det(Status::Enabled, "FEATURE_CONTROL SGX enabled"), Ghost(exp), Ghost((Status::Enabled, "FEATURE_CONTROL SGX enabled"@)));
        proof {
            exp = exp.push(("sgx", (Status::Enabled, "FEATURE_CONTROL SGX enabled"@)));
        }
    }
    if bit_exec(v, 17) {
        push_finding(out, "sgx_lc", det(Status::Enabled, "SGX launch control enabled"), Ghost(exp), Ghost((Status::Enabled, "SGX launch control enabled"@)));
        proof {
            exp = exp.push(("sgx_lc", (Status::Enabled, "SGX launch control enabled"@)));
        }
    }
    assert(exp =~= expected + feature_control_findings(v));
}

fn vmx_caps(out: &mut Findings, reads: &MsrReads, Ghost(expected): Ghost<Seq<(&'static str, (Status, Seq<char>))>>)
    requires
        findings_are(old(out)@, SRC, expected),
    ensures
        findings_are(final(out)@, SRC, expected + vmx_cap_findings(reads@)),
{
    if register_value(reads, 0x480).is_none() {
        assert(expected + vmx_cap_findings(reads@) =~= expected);
        return;
    }
    let ghost mut exp = expected;
    match register_value(reads, 0x48B) {
        Some(v) => {
            push_finding(out, "ept", det(present_exec(bit_exec(v, 33)), "VMX_PROCBASED_CTLS2[1]"), Ghost(exp), Ghost((present(bit64(v, 33)), "VMX_PROCBASED_CTLS2[1]"@)));
            proof { exp = exp.push(("ept", (present(bit64(v, 33)), "VMX_PROCBASED_CTLS2[1]"@))); }
            push_finding(out, "vpid", det(present_exec(bit_exec(v, 37)), "VMX_PROCBASED_CTLS2[5]"), Ghost(exp), Ghost((present(bit64(v, 37)), "VMX_PROCBASED_CTLS2[5]"@)));
            proof { exp = exp.push(("vpid", (present(bit64(v, 37)), "VMX_PROCBASED_CTLS2[5]"@))); }
            push_finding(out, "unrestricted_guest", det(present_exec(bit_exec(v, 39)), "VMX_PROCBASED_CTLS2[7]"), Ghost(exp), Ghost((present(bit64(v, 39)), "VMX_PROCBASED_CTLS2[7]"@)));
            proof { exp = exp.push(("unrestricted_guest", (present(bit64(v, 39)), "VMX_PROCBASED_CTLS2[7]"@))); }
            push_finding(out, "apicv", det(present_exec(bit_exec(v, 41)), "virtual-interrupt delivery"), Ghost(exp), Ghost((present(bit64(v, 41)), "virtual-interrupt delivery"@)));
            proof { exp = exp.push(("apicv", (present(bit64(v, 41)), "virtual-interrupt delivery"@))); }
            push_finding(out, "vmcs_shadow", det(present_exec(bit_exec(v, 46)), "VMX_PROCBASED_CTLS2[14]"), Ghost(exp), Ghost((present(bit64(v, 46)), "VMX_PROCBASED_CTLS2[14]"@)));
            proof { exp = exp.push(("vmcs_shadow", (present(bit64(v, 46)), "VMX_PROCBASED_CTLS2[14]"@))); }
        },
        None => {},
    }
    match register_value(reads, 0x481) {
        Some(v) => {
            push_finding(out, "posted_intr", det(present_exec(bit_exec(v, 39)), "VMX_PINBASED_CTLS[7]"), Ghost(exp), Ghost((present(bit64(v, 39)), "VMX_PINBASED_CTLS[7]"@)));
            proof { exp = exp.push(("posted_intr", (present(bit64(v, 39)), "VMX_PINBASED_CTLS[7]"@))); }
        },
        None => {},
    }
    match register_value(reads, 0x48C) {
        Some(v) => {
            push_finding(out, "ept_ad", det(present_exec(bit_exec(v, 21)), "VMX_EPT_VPID_CAP[21]"), Ghost(exp), Ghost((present(bit64(v, 21)), "VMX_EPT_VPID_CAP[21]"@)));
            proof { exp = exp.push(("ept_ad", (present(bit64(v, 21)), "VMX_EPT_VPID_CAP[21]"@))); }
            push_finding(out, "ept_1gb", det(present_exec(bit_exec(v, 17)), "VMX_EPT_VPID_CAP[17]"), Ghost(exp), Ghost((present(bit64(v, 17)), "VMX_EPT_VPID_CAP[17]"@)));
            proof { exp = exp.push(("ept_1gb", (present(bit64(v, 17)), "VMX_EPT_VPID_CAP[17]"@))); }
        },
        None => {},
    }
    assert(exp =~= expected + vmx_cap_findings(reads@));
}

/// Appends `field / 2^unit` rounded half to even, then " W".
fn push_watts(s: &mut String, field: u64, unit: u64)
    requires
        field <= 0x7fff,
    ensures
        final(s)@ == old(s)@ + watts(field, unit),
{
    let e = unit & 0xf;
    assert(e <= 15) by (bit_vector)
        requires
            e == unit & 0xf,
    ;
    let d: u64 = 1u64 << e;
    assert(1 <= d <= 32768) by (bit_vector)
        requires
            e == unit & 0xf,
            d == 1u64 << e,
    ;
    let q = field / d;
    let r = field % d;
    let w = if 2 * r > d {
        q + 1
    } else if 2 * r < d {
        q
    } else if q % 2 == 0 {
        q
    } else {
        q + 1
    };
    assert(w == round_half_even(field as nat, d as nat));
    push_dec(s, w);
    s.append(" W");
}

fn power(out: &mut Findings, reads: &MsrReads, Ghost(expected): Ghost<Seq<(&'static str, (Status, Seq<char>))>>)
    requires
        findings_are(old(out)@, SRC, expected),
    ensures
        findings_are(final(out)@, SRC, expected + power_findings(reads@)),
{
    let ghost mut exp = expected;
    match register_value(reads, 0x770) {
        Some(v) => {
            let st = if bit_exec(v, 0) {
                Status::Enabled
            } else {
                Status::Disabled
            };
            push_finding(out, "hwp", det(st, "IA32_PM_ENABLE[0]"), Ghost(exp), Ghost((st, "IA32_PM_ENABLE[0]"@)));
            proof { exp = exp.push(("hwp", (st, "IA32_PM_ENABLE[0]"@))); }
        },
        None => {},
    }
    match register_value(reads, 0x1A2) {
        Some(v) => {
            let t = (v >> 16) & 0xff;
            let mut s = String::new();
            push_dec(&mut s, t);
            s.append(" °C");
            let ghost e = (Status::Present, dec(t as nat) + " °C"@);
            assert(s@ =~= e.1);
            push_finding(out, "tjmax", Detection::with_detail(Status::Present, SRC, s), Ghost(exp), Ghost(e));
            proof { exp = exp.push(("tjmax", e)); }
        },
        None => {},
    }
    match register_value(reads, 0x606) {
        Some(u) => {
            match register_value(reads, 0x614) {
                Some(v) => {
                    let f = v & 0x7fff;
                    assert(f <= 0x7fff) by (bit_vector)
                        requires
                            f == v & 0x7fff,
                    ;
                    let mut s = String::new();
                    push_watts(&mut s, f, u);
                    let ghost e = (Status::Present, watts(f, u));
                    assert(s@ =~= e.1);
                    push_finding(out, "pkg_tdp", Detection::with_detail(Status::Present, SRC, s), Ghost(exp), Ghost(e));
                    proof { exp = exp.push(("pkg_tdp", e)); }
                },
                None => {},
            }
            match register_value(reads, 0x610) {
                Some(v) => {
                    let f1 = v & 0x7fff;
                    let f2 = (v >> 32) & 0x7fff;
                    assert(f1 <= 0x7fff && f2 <= 0x7fff) by (bit_vector)
                        requires
                            f1 == v & 0x7fff,
                            f2 == (v >> 32) & 0x7fff,
                    ;
                    let mut s = String::from_str("PL1 ");
                    push_watts(&mut s, f1, u);
                    s.append(", PL2 ");
                    push_watts(&mut s, f2, u);
                    let ghost e = (Status::Present, "PL1 "@ + watts(f1, u) + ", PL2 "@ + watts(f2, u));
                    assert(s@ =~= e.1);
                    push_finding(out, "pkg_power_limit", Detection::with_detail(Status::Present, SRC, s), Ghost(exp), Ghost(e));
                    proof { exp = exp.push(("pkg_power_limit", e)); }
                },
                None => {},
            }
        },
        None => {},
    }
    assert(exp =~= expected + power_findings(reads@));
}

fn misc(out: &mut Findings, reads: &MsrReads, Ghost(expected): Ghost<Seq<(&'static str, (Status, Seq<char>))>>)
    requires
        findings_are(old(out)@, SRC, expected),
    ensures
        findings_are(final(out)@, SRC, expected + misc_findings(reads@)),
{
    let ghost mut exp = expected;
    match register_value(reads, 0x34) {
        Some(v) => {
            let c = v & 0xffff_ffff;
            let mut s = String::new();
            push_dec(&mut s, c);
            s.append(" SMIs");
            let ghost e = (Status::Present, dec(c as nat) + " SMIs"@);
            assert(s@ =~= e.1);
            push_finding(out, "smi_count", Detection::with_detail(Status::Present, SRC, s), Ghost(exp), Ghost(e));
            proof { exp = exp.push(("smi_count", e)); }
        },
        None => {},
    }
    match register_value(reads, 0x13A) {
        Some(v) => {
            let mut s = String::from_str("SACM_INFO = ");
            push_hex_prefixed(&mut s, v);
            let ghost e = (Status::Present, "SACM_INFO = "@ + hex_prefixed(v as nat));
            assert(s@ =~= e.1);
            push_finding(out, "boot_guard", Detection::with_detail(Status::Present, SRC, s), Ghost(exp), Ghost(e));
            proof { exp = exp.push(("boot_guard", e)); }
        },
        None => {},
    }
    assert(exp =~= expected + misc_findings(reads@));
}

/// Findings when the MSR device is readable: the `msr` finding, then those of the reads.
#[verifier::rlimit(30)]
fn ready_findings(detail: &String, reads: &MsrReads) -> (out: Findings)
    ensures
        findings_are(out@, SRC, seq![("msr", (Status::Enabled, detail@))] + register_findings(reads@)),
{
    let mut out: Findings = Vec::new();
    let ghost e0 = (Status::Enabled, detail@);
    assert(findings_are(out@, SRC, Seq::empty()));
    push_finding(&mut out, "msr", Detection::with_detail(Status::Enabled, SRC, detail.clone()), Ghost(Seq::empty()), Ghost(e0));
    let ghost mut exp: Seq<(&'static str, (Status, Seq<char>))> = seq![("msr", e0)];
    assert(Seq::<(&'static str, (Status, Seq<char>))>::empty().push(("msr", e0)) =~= exp);
    match register_value(reads, 0x10A) {
        Some(v) => {
            arch_caps(&mut out, v, Ghost(exp));
            proof { exp = exp + arch_cap_findings(v); }
        },
        None => {},
    }
    match register_value(reads, 0x3A) {
        Some(v) => {
            feature_control(&mut out, v, Ghost(exp));
            proof { exp = exp + feature_control_findings(v); }
        },
        None => {},
    }
    vmx_caps(&mut out, reads, Ghost(exp));
    proof { exp = exp + vmx_cap_findings(reads@); }
    power(&mut out, reads, Ghost(exp));
    proof { exp = exp + power_findings(reads@); }
    misc(&mut out, reads, Ghost(exp));
    proof { exp = exp + misc_findings(reads@); }
    assert(exp =~= seq![("msr", e0)] + register_findings(reads@));
    out
}

// ---- the probe ----------------------------------------------------------------------

pub struct MsrProbe;

impl Probe for MsrProbe {
    fn name(&self) -> (r: &'static str)
        ensures
            r == SRC,
    {
        SRC
    }

    fn feature_ids(&self) -> (r: Vec<&'static str>)
        ensures
            r@ == msr_feature_ids(),
    {
        let mut r = vec!["msr", "vmx", "sgx", "sgx_lc", "hwp"];
        let mut rest = Self::only_ids();
        r.append(&mut rest);
        assert(r@ =~= msr_feature_ids());
        r
    }
}

impl MsrProbe {
    fn only_ids() -> (r: Vec<&'static str>)
        ensures
            r@ == msr_only_ids(),
    {
        let r = vec![
            "rdcl_no",
            "eibrs",
            "rsba",
            "ssb_no",
            "mds_no",
            "if_pschange_no",
            "tsx_ctrl",
            "taa_no",
            "misc_package_ctls",
            "fb_clear",
            "rrsba",
            "bhi_no",
            "pbrsb_no",
            "gds_no",
            "rfds_no",
            "feature_control_locked",
            "ept",
            "vpid",
            "unrestricted_guest",
            "apicv",
            "vmcs_shadow",
            "posted_intr",
            "ept_ad",
            "ept_1gb",
            "tjmax",
            "pkg_tdp",
            "pkg_power_limit",
            "smi_count",
            "boot_guard",
        ];
        assert(r@ =~= msr_only_ids());
        r
    }

    /// Decides access from the outcome of opening `/dev/cpu/0/msr`. A missing device is
    /// worth one `modprobe msr` only for root, only when the user opted in, and only
    /// once per context; asking claims that attempt.
    pub fn access(&self, open: &Result<(), IoFailure>, ctx: &mut Context) -> (r: AccessStep)
        ensures
            access_step_ok(
                r,
                *open,
                old(ctx).privilege == Privilege::Root,
                old(ctx).options.load_msr_module,
                !old(ctx).module_load_tried(),
            ),
            final(ctx).privilege == old(ctx).privilege,
            final(ctx).options == old(ctx).options,
            final(ctx).module_load_tried() == (old(ctx).module_load_tried() || r is LoadModule),
    {
        match open {
            Ok(_) => AccessStep::Ready(String::from_str("/dev/cpu/0/msr readable")),
            Err(e) => if e.kind == IoErrorKind::PermissionDenied {
                AccessStep::Unavailable(String::from_str("requires root"))
            } else if e.kind == IoErrorKind::NotFound {
                if !ctx.is_root() {
                    AccessStep::Unavailable(
                        String::from_str(
                            "no /dev/cpu/0/msr (msr module not loaded; loading it requires root)",
                        ),
                    )
                } else if !ctx.options.load_msr_module {
                    AccessStep::Unavailable(
                        String::from_str(
                            "no /dev/cpu/0/msr (msr module not loaded; pass --load-msr-module to load it)",
                        ),
                    )
                } else if !ctx.try_mark_module_load() {
                    AccessStep::Unavailable(
                        String::from_str("no /dev/cpu/0/msr (msr module load already attempted)"),
                    )
                } else {
                    AccessStep::LoadModule
                }
            } else {
                let mut m = String::from_str("open failed: ");
                m.append(e.message.as_str());
                AccessStep::Unavailable(m)
            },
        }
    }

    /// Access after the `modprobe msr` attempt and the re-open that follows it.
    pub fn after_load(&self, load: &Result<(), String>, reopen: &Result<(), IoFailure>) -> (r: Result<
        String,
        String,
    >)
        ensures
            after_load_ok(r, *load, *reopen),
    {
        match load {
            Err(reason) => {
                let mut m = String::from_str("msr module not loaded and modprobe failed: ");
                m.append(reason.as_str());
                Err(m)
            },
            Ok(_) => match reopen {
                Ok(_) => Ok(String::from_str("readable (auto-loaded msr module)")),
                Err(e) => {
                    let mut m = String::from_str("msr module loaded but open failed: ");
                    m.append(e.message.as_str());
                    Err(m)
                },
            },
        }
    }

    /// Findings from the access outcome (the `msr` detail, or why MSRs are unreadable)
    /// and the register reads.
    pub fn decide(&self, access: &Result<String, String>, reads: &MsrReads) -> (out: Findings)
        ensures
            msr_findings_ok(out@, *access, reads@),
    {
        match access {
            Err(reason) => {
                let mut out: Findings = Vec::new();
                out.push(("msr", Detection::with_detail(Status::Disabled, SRC, reason.clone())));
                let mut rest = unavailable(SRC, &Self::only_ids(), reason.as_str());
                let ghost r0 = out@[0];
                let ghost tail = rest@;
                out.append(&mut rest);
                assert(out@.drop_first() =~= tail);
                out
            },
            Ok(detail) => ready_findings(detail, reads),
        }
    }
}

// ---- laws -------------------------------------------------------------------------------

/// The read plan names no register twice, and only the six registers every part is
/// asked for are planned when neither gate register read.
pub proof fn read_plan_rules(reads: Seq<(u32, MsrRead)>)
    ensures
        read_plan(reads).no_duplicates(),
        reg_value(reads, 0x480) is None && reg_value(reads, 0x606) is None ==> read_plan(reads)
            =~= seq![0x10Au32, 0x3A, 0x480, 0x770, 0x1A2, 0x606, 0x34, 0x13A],
{
    let p = read_plan(reads);
    assert forall|i: int, j: int| 0 <= i < p.len() && 0 <= j < p.len() && i != j implies p[i]
        != p[j] by {
        if reg_value(reads, 0x480) is Some {
            if reg_value(reads, 0x606) is Some {
                assert(p =~= seq![0x10Au32, 0x3A, 0x480, 0x48B, 0x481, 0x48C, 0x770, 0x1A2, 0x606, 0x614, 0x610, 0x34, 0x13A]);
            } else {
                assert(p =~= seq![0x10Au32, 0x3A, 0x480, 0x48B, 0x481, 0x48C, 0x770, 0x1A2, 0x606, 0x34, 0x13A]);
            }
        } else {
            if reg_value(reads, 0x606) is Some {
                assert(p =~= seq![0x10Au32, 0x3A, 0x480, 0x770, 0x1A2, 0x606, 0x614, 0x610, 0x34, 0x13A]);
            } else {
                assert(p =~= seq![0x10Au32, 0x3A, 0x480, 0x770, 0x1A2, 0x606, 0x34, 0x13A]);
            }
        }
    }
}

/// `modprobe msr` is asked for only when the device node is missing, the probe runs as
/// root, the user opted in, and the context's single attempt was still unused.
pub proof fn module_load_only_when_permitted(
    step: AccessStep,
    open: Result<(), IoFailure>,
    root: bool,
    opt_in: bool,
    first_attempt: bool,
)
    requires
        access_step_ok(step, open, root, opt_in, first_attempt),
        step is LoadModule,
    ensures
        open matches Err(e) && e.kind == IoErrorKind::NotFound,
        root,
        opt_in,
        first_attempt,
{
}

/// `fs` holds a finding for `id` with status `st`.
pub open spec fn reports(fs: Seq<(&'static str, (Status, Seq<char>))>, id: &'static str, st: Status) -> bool {
    exists|k: int| 0 <= k < fs.len() && (#[trigger] fs[k]).0 == id && fs[k].1.0 == st
}

/// IA32_FEATURE_CONTROL (MSR 0x3A): bit 0 is the firmware lock, bit 1 enables VMX inside
/// SMX, bit 2 VMX outside SMX, bit 17 SGX launch control and bit 18 SGX. VMX counts as
/// enabled only once the register is locked with bit 1 or 2 set, and as only present
/// while the register is unlocked; SGX and its launch control are reported only when
/// their bits are set.
pub proof fn feature_control_bits(v: u64)
    ensures
        feature_control_findings(v)[0].0 == "feature_control_locked",
        feature_control_findings(v)[0].1.0 == (if v & 1u64 == 1u64 { Status::Enabled } else { Status::Disabled }),
        feature_control_findings(v)[1].0 == "vmx",
        feature_control_findings(v)[1].1.0 == (if v & 1u64 == 0u64 {
            Status::Present
        } else if (v >> 2u64) & 1u64 == 1u64 || (v >> 1u64) & 1u64 == 1u64 {
            Status::Enabled
        } else {
            Status::Disabled
        }),
        reports(feature_control_findings(v), "sgx", Status::Enabled) <==> (v >> 18u64) & 1u64 == 1u64,
        reports(feature_control_findings(v), "sgx_lc", Status::Enabled) <==> (v >> 17u64) & 1u64 == 1u64,
        feature_control_findings(v).len() == 2 + (if (v >> 18u64) & 1u64 == 1u64 { 1int } else { 0int })
            + (if (v >> 17u64) & 1u64 == 1u64 { 1int } else { 0int }),
{
    assert((v >> 0u64) & 1u64 == v & 1u64) by (bit_vector);
    assert(v & 1u64 == 1u64 || v & 1u64 == 0u64) by (bit_vector);
    let f = feature_control_findings(v);
    if (v >> 18u64) & 1u64 == 1u64 {
        assert(f[2].0 == "sgx");
    }
    if (v >> 17u64) & 1u64 == 1u64 {
        assert(f[f.len() - 1].0 == "sgx_lc");
    }
}

/// The VMX capabilities, read once IA32_VMX_BASIC (MSR 0x480) was read: from the
/// allowed-1 half of IA32_VMX_PROCBASED_CTLS2 (MSR 0x48B) EPT bit 33, VPID 37,
/// unrestricted guest 39, virtual-interrupt delivery 41 and VMCS shadowing 46; from
/// IA32_VMX_PINBASED_CTLS (MSR 0x481) posted interrupts bit 39; from
/// IA32_VMX_EPT_VPID_CAP (MSR 0x48C) EPT accessed/dirty bit 21 and 1-GByte pages bit 17.
/// A set bit is `Present`, a clear one `Absent`; nothing is reported without MSR 0x480.
pub proof fn vmx_capability_bits(reads: Seq<(u32, MsrRead)>)
    ensures
        reg_value(reads, 0x480) is None ==> vmx_cap_findings(reads).len() == 0,
        reg_value(reads, 0x480) is Some ==> (reg_value(reads, 0x48B) matches Some(v) ==> {
            &&& reports(vmx_cap_findings(reads), "ept", present((v >> 33u64) & 1u64 == 1u64))
            &&& reports(vmx_cap_findings(reads), "vpid", present((v >> 37u64) & 1u64 == 1u64))
            &&& reports(vmx_cap_findings(reads), "unrestricted_guest", present((v >> 39u64) & 1u64 == 1u64))
            &&& reports(vmx_cap_findings(reads), "apicv", present((v >> 41u64) & 1u64 == 1u64))
            &&& reports(vmx_cap_findings(reads), "vmcs_shadow", present((v >> 46u64) & 1u64 == 1u64))
        }),
        reg_value(reads, 0x480) is Some ==> (reg_value(reads, 0x481) matches Some(v) ==> reports(
            vmx_cap_findings(reads),
            "posted_intr",
            present((v >> 39u64) & 1u64 == 1u64),
        )),
        reg_value(reads, 0x480) is Some ==> (reg_value(reads, 0x48C) matches Some(v) ==> {
            &&& reports(vmx_cap_findings(reads), "ept_ad", present((v >> 21u64) & 1u64 == 1u64))
            &&& reports(vmx_cap_findings(reads), "ept_1gb", present((v >> 17u64) & 1u64 == 1u64))
        }),
{
    let f = vmx_cap_findings(reads);
    if reg_value(reads, 0x480) is Some {
        let n1: int = if reg_value(reads, 0x48B) is Some { 5 } else { 0 };
        let n2: int = if reg_value(reads, 0x481) is Some { 1 } else { 0 };
        if let Some(v) = reg_value(reads, 0x48B) {
            assert(f[0].0 == "ept");
            assert(f[1].0 == "vpid");
            assert(f[2].0 == "unrestricted_guest");
            assert(f[3].0 == "apicv");
            assert(f[4].0 == "vmcs_shadow");
        }
        if let Some(v) = reg_value(reads, 0x481) {
            assert(f[n1].0 == "posted_intr");
        }
        if let Some(v) = reg_value(reads, 0x48C) {
            assert(f[n1 + n2].0 == "ept_ad");
            assert(f[n1 + n2 + 1].0 == "ept_1gb");
        }
    }
}

/// IA32_PM_ENABLE (MSR 0x770) bit 0 says whether HWP is enabled, and the thermal target
/// Tj max is bits 23:16 of MSR_TEMPERATURE_TARGET (0x1A2), in °C.
pub proof fn power_register_bits(reads: Seq<(u32, MsrRead)>)
    ensures
        reg_value(reads, 0x770) matches Some(v) ==> power_findings(reads)[0] == (
            "hwp",
            (if v & 1u64 == 1u64 { Status::Enabled } else { Status::Disabled }, "IA32_PM_ENABLE[0]"@),
        ),
        reg_value(reads, 0x1A2) matches Some(v) ==> reports(power_findings(reads), "tjmax", Status::Present)
            && power_findings(reads)[if reg_value(reads, 0x770) is Some { 1int } else { 0int }].1.1
            == dec(((v >> 16u64) & 0xffu64) as nat) + " °C"@,
{
    if let Some(v) = reg_value(reads, 0x770) {
        assert((v >> 0u64) & 1u64 == v & 1u64) by (bit_vector);
    }
    let f = power_findings(reads);
    if reg_value(reads, 0x1A2) is Some {
        let n: int = if reg_value(reads, 0x770) is Some { 1 } else { 0 };
        assert(f[n].0 == "tjmax");
    }
}

/// The SMI count is the low 32 bits of MSR_SMI_COUNT (0x34), and the Boot Guard finding
/// shows the raw value of MSR 0x13A.
pub proof fn misc_register_bits(reads: Seq<(u32, MsrRead)>)
    ensures
        reg_value(reads, 0x34) matches Some(v) ==> misc_findings(reads)[0] == (
            "smi_count",
            (Status::Present, dec((v & 0xffff_ffffu64) as nat) + " SMIs"@),
        ),
        reg_value(reads, 0x13A) matches Some(v) ==> misc_findings(reads).last() == (
            "boot_guard",
            (Status::Present, "SACM_INFO = "@ + hex_prefixed(v as nat)),
        ),
{
}

/// Each immunity or control that IA32_ARCH_CAPABILITIES (MSR 0x10A) enumerates is read
/// from its own bit, per the Intel SDM: RDCL_NO 0, IBRS_ALL (enhanced IBRS) 1, RSBA 2,
/// SSB_NO 4, MDS_NO 5, IF_PSCHANGE_MC_NO 6, TSX_CTRL 7, TAA_NO 8, MISC_PACKAGE_CTLS 10,
/// FB_CLEAR 17, RRSBA 19, BHI_NO 20, PBRSB_NO 24, GDS_NO 26, RFDS_NO 27. A set bit is
/// reported `Present`, a clear one `Absent`, with the bit and the register value.
pub proof fn arch_capability_bits(v: u64)
    ensures
        arch_cap_findings(v).len() == 15,
        arch_cap_findings(v)[0] == (
            "rdcl_no",
            (
                if (v >> 0u64) & 1u64 == 1u64 { Status::Present } else { Status::Absent },
                "IA32_ARCH_CAPABILITIES["@ + dec(0nat) + "] (value "@ + hex_prefixed(v as nat) + ")"@,
            ),
        ),
        arch_cap_findings(v)[1] == (
            "eibrs",
            (
                if (v >> 1u64) & 1u64 == 1u64 { Status::Present } else { Status::Absent },
                "IA32_ARCH_CAPABILITIES["@ + dec(1nat) + "] (value "@ + hex_prefixed(v as nat) + ")"@,
            ),
        ),
        arch_cap_findings(v)[2] == (
            "rsba",
            (
                if (v >> 2u64) & 1u64 == 1u64 { Status::Present } else { Status::Absent },
                "IA32_ARCH_CAPABILITIES["@ + dec(2nat) + "] (value "@ + hex_prefixed(v as nat) + ")"@,
            ),
        ),
        arch_cap_findings(v)[3] == (
            "ssb_no",
            (
                if (v >> 4u64) & 1u64 == 1u64 { Status::Present } else { Status::Absent },
                "IA32_ARCH_CAPABILITIES["@ + dec(4nat) + "] (value "@ + hex_prefixed(v as nat) + ")"@,
            ),
        ),
        arch_cap_findings(v)[4] == (
            "mds_no",
            (
                if (v >> 5u64) & 1u64 == 1u64 { Status::Present } else { Status::Absent },
                "IA32_ARCH_CAPABILITIES["@ + dec(5nat) + "] (value "@ + hex_prefixed(v as nat) + ")"@,
            ),
        ),
        arch_cap_findings(v)[5] == (
            "if_pschange_no",
            (
                if (v >> 6u64) & 1u64 == 1u64 { Status::Present } else { Status::Absent },
                "IA32_ARCH_CAPABILITIES["@ + dec(6nat) + "] (value "@ + hex_prefixed(v as nat) + ")"@,
            ),
        ),
        arch_cap_findings(v)[6] == (
            "tsx_ctrl",
            (
                if (v >> 7u64) & 1u64 == 1u64 { Status::Present } else { Status::Absent },
                "IA32_ARCH_CAPABILITIES["@ + dec(7nat) + "] (value "@ + hex_prefixed(v as nat) + ")"@,
            ),
        ),
        arch_cap_findings(v)[7] == (
            "taa_no",
            (
                if (v >> 8u64) & 1u64 == 1u64 { Status::Present } else { Status::Absent },
                "IA32_ARCH_CAPABILITIES["@ + dec(8nat) + "] (value "@ + hex_prefixed(v as nat) + ")"@,
            ),
        ),
        arch_cap_findings(v)[8] == (
            "misc_package_ctls",
            (
                if (v >> 10u64) & 1u64 == 1u64 { Status::Present } else { Status::Absent },
                "IA32_ARCH_CAPABILITIES["@ + dec(10nat) + "] (value "@ + hex_prefixed(v as nat) + ")"@,
            ),
        ),
        arch_cap_findings(v)[9] == (
            "fb_clear",
            (
                if (v >> 17u64) & 1u64 == 1u64 { Status::Present } else { Status::Absent },
                "IA32_ARCH_CAPABILITIES["@ + dec(17nat) + "] (value "@ + hex_prefixed(v as nat) + ")"@,
            ),
        ),
        arch_cap_findings(v)[10] == (
            "rrsba",
            (
                if (v >> 19u64) & 1u64 == 1u64 { Status::Present } else { Status::Absent },
                "IA32_ARCH_CAPABILITIES["@ + dec(19nat) + "] (value "@ + hex_prefixed(v as nat) + ")"@,
            ),
        ),
        arch_cap_findings(v)[11] == (
            "bhi_no",
            (
                if (v >> 20u64) & 1u64 == 1u64 { Status::Present } else { Status::Absent },
                "IA32_ARCH_CAPABILITIES["@ + dec(20nat) + "] (value "@ + hex_prefixed(v as nat) + ")"@,
            ),
        ),
        arch_cap_findings(v)[12] == (
            "pbrsb_no",
            (
                if (v >> 24u64) & 1u64 == 1u64 { Status::Present } else { Status::Absent },
                "IA32_ARCH_CAPABILITIES["@ + dec(24nat) + "] (value "@ + hex_prefixed(v as nat) + ")"@,
            ),
        ),
        arch_cap_findings(v)[13] == (
            "gds_no",
            (
                if (v >> 26u64) & 1u64 == 1u64 { Status::Present } else { Status::Absent },
                "IA32_ARCH_CAPABILITIES["@ + dec(26nat) + "] (value "@ + hex_prefixed(v as nat) + ")"@,
            ),
        ),
        arch_cap_findings(v)[14] == (
            "rfds_no",
            (
                if (v >> 27u64) & 1u64 == 1u64 { Status::Present } else { Status::Absent },
                "IA32_ARCH_CAPABILITIES["@ + dec(27nat) + "] (value "@ + hex_prefixed(v as nat) + ")"@,
            ),
        ),
{
    assert(arch_cap_bits().len() == 15);
}

} // verus!
