//! Runtime state from Linux sysfs, procfs and device nodes: SMT, KVM, TPM, the cpufreq
//! and cpuidle drivers, turbo, RAPL powercap domains, resctrl, IPMI, Bluetooth and the
//! SGX enclave device.
//!
//! `intel_pstate` is deliberately not read as HWP enablement: `IA32_PM_ENABLE` is the
//! authoritative runtime source for HWP (see the MSR probe).

use vstd::prelude::*;

use crate::model::{Detection, Status};
use crate::probes::{
    Probe,
    all_listed, detection_is, every_entry_listed, findings_are, lemma_findings_push, path_exists,
    path_state, Findings, IoErrorKind, IoFailure, Listing, MetadataRead, TextRead,
};
use crate::text::{
    debug_quoted, debug_str, has_prefix, join, join_strings, str_eq, str_has_prefix, trim,
    trim_owned, views,
};

verus! {

pub const SRC: &'static str = "linux-sysfs";

pub open spec fn sysfs_feature_ids() -> Seq<&'static str> {
    seq![
        "smt",
        "kvm",
        "tpm",
        "intel_pstate",
        "turbo",
        "intel_idle",
        "rapl",
        "resctrl",
        "ipmi",
        "bluetooth",
        "sgx",
    ]
}

/// An entry of `/sys/class/powercap`, with the read of its `name` file.
#[derive(Debug)]
pub struct PowercapEntry {
    pub file_name: String,
    pub name: TextRead,
}

/// Listing of `/sys/class/powercap`; entries that could not be read are `None`.
pub type PowercapListing = Result<Vec<Option<PowercapEntry>>, IoFailure>;

/// What was read for the sysfs probe.
#[derive(Debug)]
pub struct SysfsReadings {
    /// `/sys/devices/system/cpu/smt/active`.
    pub smt_active: TextRead,
    /// Metadata of `/dev/kvm`.
    pub kvm: MetadataRead,
    /// Read-write open of `/dev/kvm`; consulted only when its metadata was read.
    pub kvm_open: Result<(), IoFailure>,
    /// Metadata of `/sys/class/tpm/tpm0`.
    pub tpm_class: MetadataRead,
    /// Metadata of `/dev/tpm0`.
    pub tpm_dev: MetadataRead,
    /// `/sys/devices/system/cpu/cpu0/cpufreq/scaling_driver`.
    pub scaling_driver: TextRead,
    /// `/sys/devices/system/cpu/cpu0/cpufreq/scaling_governor`.
    pub scaling_governor: TextRead,
    /// `/sys/devices/system/cpu/intel_pstate/no_turbo`.
    pub no_turbo: TextRead,
    /// `/sys/devices/system/cpu/cpuidle/current_driver`.
    pub idle_driver: TextRead,
    /// `/sys/devices/system/cpu/cpu0/cpuidle/state{i}/name` for `i = 0, 1, ...`, in order;
    /// only the first 16 are consulted, up to the first failed read.
    pub idle_states: Vec<TextRead>,
    /// `/sys/class/powercap` with each entry's `name`.
    pub powercap: PowercapListing,
    /// Metadata of `/sys/fs/resctrl/info`.
    pub resctrl_info: MetadataRead,
    /// Metadata of `/sys/fs/resctrl`.
    pub resctrl: MetadataRead,
    /// Metadata of `/dev/ipmi0`.
    pub ipmi: MetadataRead,
    /// Metadata of `/dev/ipmi/0`.
    pub ipmi_alt: MetadataRead,
    /// Listing of `/sys/class/bluetooth`.
    pub bluetooth: Listing,
    /// Metadata of `/dev/sgx_enclave`.
    pub sgx_enclave: MetadataRead,
}

// ---- what each reading decides ------------------------------------------------------

pub open spec fn spec_smt(r: TextRead) -> (Status, Seq<char>) {
    match r {
        Ok(s) => {
            let v = trim(s@);
            if v == "1"@ {
                (Status::Enabled, "smt/active=1"@)
            } else if v == "0"@ {
                (Status::Disabled, "smt/active=0"@)
            } else {
                (Status::Unknown, "malformed smt/active="@ + debug_str(v))
            }
        },
        Err(e) => (Status::Unknown, "cannot inspect smt/active: "@ + e.message@),
    }
}

pub open spec fn spec_kvm(m: MetadataRead, open: Result<(), IoFailure>) -> (Status, Seq<char>) {
    match m {
        Err(e) => if e.kind == IoErrorKind::NotFound {
            (Status::Absent, "/dev/kvm absent"@)
        } else {
            (Status::Unknown, "cannot inspect /dev/kvm: "@ + e.message@)
        },
        Ok(_) => match open {
            Ok(_) => (Status::Enabled, "/dev/kvm openable"@),
            Err(e) => if e.kind == IoErrorKind::PermissionDenied {
                (Status::Present, "/dev/kvm present but not permitted"@)
            } else {
                (Status::Unknown, "/dev/kvm open failed: "@ + e.message@)
            },
        },
    }
}

/// Whether either of two paths is known to exist, and whether both are known not to.
pub open spec fn either_exists(a: MetadataRead, b: MetadataRead) -> bool {
    path_state(a) == Ok::<bool, IoFailure>(true) || path_state(b) == Ok::<bool, IoFailure>(true)
}

pub open spec fn neither_exists(a: MetadataRead, b: MetadataRead) -> bool {
    path_state(a) == Ok::<bool, IoFailure>(false) && path_state(b) == Ok::<bool, IoFailure>(false)
}

pub open spec fn spec_tpm(class: MetadataRead, dev: MetadataRead) -> (Status, Seq<char>) {
    if either_exists(class, dev) {
        (Status::Present, "tpm0 device present"@)
    } else if neither_exists(class, dev) {
        (Status::Absent, "no tpm0 device"@)
    } else {
        (Status::Unknown, "cannot fully inspect TPM interfaces"@)
    }
}

pub open spec fn spec_pstate(driver: TextRead, governor: TextRead) -> (Status, Seq<char>) {
    match driver {
        Ok(d) => {
            let v = trim(d@);
            let detail = match governor {
                Ok(g) => "driver="@ + v + ", governor="@ + trim(g@),
                Err(_) => "driver="@ + v,
            };
            (if v == "intel_pstate"@ {
                Status::Enabled
            } else {
                Status::Absent
            }, detail)
        },
        Err(e) => (Status::Unknown, "cannot inspect cpufreq driver: "@ + e.message@),
    }
}

pub open spec fn spec_turbo(r: TextRead) -> (Status, Seq<char>) {
    match r {
        Ok(s) => {
            let v = trim(s@);
            if v == "0"@ {
                (Status::Enabled, "no_turbo=0"@)
            } else if v == "1"@ {
                (Status::Disabled, "no_turbo=1 (turbo off)"@)
            } else {
                (Status::Unknown, "malformed no_turbo="@ + debug_str(v))
            }
        },
        Err(e) => (Status::Unknown, "cannot inspect turbo state: "@ + e.message@),
    }
}

/// Trimmed cpuidle state names from index `i` on: the scan stops at state 16, at the end
/// of the reads, or at a missing state; any other failure makes it `None`.
pub open spec fn idle_scan(reads: Seq<TextRead>, i: nat) -> Option<Seq<Seq<char>>>
    decreases 16 - i,
{
    if i >= 16 || i >= reads.len() {
        Some(Seq::empty())
    } else {
        match reads[i as int] {
            Ok(name) => match idle_scan(reads, i + 1) {
                Some(rest) => Some(seq![trim(name@)] + rest),
                None => None,
            },
            Err(e) => if e.kind == IoErrorKind::NotFound {
                Some(Seq::empty())
            } else {
                None
            },
        }
    }
}

pub open spec fn spec_idle(driver: TextRead, states: Seq<TextRead>) -> (Status, Seq<char>) {
    match driver {
        Err(e) => (Status::Unknown, "cannot inspect cpuidle: "@ + e.message@),
        Ok(d) => match idle_scan(states, 0) {
            None => (Status::Unknown, "cpuidle state enumeration incomplete"@),
            Some(names) => {
                let v = trim(d@);
                (if v == "intel_idle"@ {
                    Status::Enabled
                } else {
                    Status::Absent
                }, "driver="@ + v + ", states: "@ + join(names, " "@))
            },
        },
    }
}

/// A powercap entry was listed, and if it is a RAPL domain its name was read.
pub open spec fn rapl_entry_ok(e: Option<PowercapEntry>) -> bool {
    match e {
        None => false,
        Some(p) => has_prefix(p.file_name@, "intel-rapl:"@) ==> p.name is Ok,
    }
}

pub open spec fn rapl_complete(es: Seq<Option<PowercapEntry>>) -> bool {
    forall|k: int| 0 <= k < es.len() ==> #[trigger] rapl_entry_ok(es[k])
}

/// Trimmed names of the readable `intel-rapl:*` domains, in listing order.
pub open spec fn rapl_domains(es: Seq<Option<PowercapEntry>>) -> Seq<Seq<char>>
    decreases es.len(),
{
    if es.len() == 0 {
        Seq::empty()
    } else {
        let rest = rapl_domains(es.drop_last());
        match es.last() {
            Some(p) => if has_prefix(p.file_name@, "intel-rapl:"@) {
                match p.name {
                    Ok(n) => rest.push(trim(n@)),
                    Err(_) => rest,
                }
            } else {
                rest
            },
            None => rest,
        }
    }
}

pub open spec fn spec_rapl(p: PowercapListing) -> (Status, Seq<char>) {
    match p {
        Err(e) => (Status::Unknown, "cannot inspect powercap: "@ + e.message@),
        Ok(es) => if !rapl_complete(es@) {
            (Status::Unknown, "powercap enumeration incomplete"@)
        } else if rapl_domains(es@).len() == 0 {
            (Status::Absent, "no intel-rapl powercap domains"@)
        } else {
            (Status::Enabled, "domains: "@ + join(rapl_domains(es@), ", "@))
        },
    }
}

pub open spec fn spec_resctrl(info: MetadataRead, root: MetadataRead) -> (Status, Seq<char>) {
    let i = path_state(info);
    let r = path_state(root);
    if i == Ok::<bool, IoFailure>(true) {
        (Status::Enabled, "mounted at /sys/fs/resctrl"@)
    } else if i == Ok::<bool, IoFailure>(false) && r == Ok::<bool, IoFailure>(true) {
        (Status::Present, "present but not mounted"@)
    } else if i == Ok::<bool, IoFailure>(false) && r == Ok::<bool, IoFailure>(false) {
        (Status::Absent, "no /sys/fs/resctrl"@)
    } else {
        (Status::Unknown, "cannot inspect resctrl"@)
    }
}

pub open spec fn spec_ipmi(a: MetadataRead, b: MetadataRead) -> (Status, Seq<char>) {
    if either_exists(a, b) {
        (Status::Enabled, "IPMI device present"@)
    } else if neither_exists(a, b) {
        (Status::Absent, "no IPMI device"@)
    } else {
        (Status::Unknown, "cannot fully inspect IPMI devices"@)
    }
}

pub open spec fn spec_bluetooth(l: Listing) -> (Status, Seq<char>) {
    match l {
        Ok(es) => if !all_listed(es@) {
            (Status::Unknown, "bluetooth enumeration incomplete"@)
        } else if es@.len() == 0 {
            (Status::Absent, "no bluetooth hci"@)
        } else {
            (Status::Enabled, "hci device present"@)
        },
        Err(e) => if e.kind == IoErrorKind::NotFound {
            (Status::Absent, "no bluetooth class"@)
        } else {
            (Status::Unknown, "cannot inspect bluetooth: "@ + e.message@)
        },
    }
}

/// SGX is reported only when the enclave device exists or cannot be inspected.
pub open spec fn spec_sgx(m: MetadataRead) -> Option<(Status, Seq<char>)> {
    match path_state(m) {
        Ok(true) => Some((Status::Enabled, "/dev/sgx_enclave present"@)),
        Ok(false) => None,
        Err(e) => Some((Status::Unknown, "cannot inspect SGX device: "@ + e.message@)),
    }
}

/// The findings the probe owes for `r`, in report order.
pub open spec fn sysfs_expected(r: SysfsReadings) -> Seq<(&'static str, (Status, Seq<char>))> {
    let base = seq![
        ("smt", spec_smt(r.smt_active)),
        ("kvm", spec_kvm(r.kvm, r.kvm_open)),
        ("tpm", spec_tpm(r.tpm_class, r.tpm_dev)),
        ("intel_pstate", spec_pstate(r.scaling_driver, r.scaling_governor)),
        ("turbo", spec_turbo(r.no_turbo)),
        ("intel_idle", spec_idle(r.idle_driver, r.idle_states@)),
        ("rapl", spec_rapl(r.powercap)),
        ("resctrl", spec_resctrl(r.resctrl_info, r.resctrl)),
        ("ipmi", spec_ipmi(r.ipmi, r.ipmi_alt)),
        ("bluetooth", spec_bluetooth(r.bluetooth)),
    ];
    match spec_sgx(r.sgx_enclave) {
        Some(s) => base.push(("sgx", s)),
        None => base,
    }
}

// ---- deciding -----------------------------------------------------------------------

fn det(status: Status, text: &str) -> (r: Detection)
    ensures
        detection_is(r, SRC, (status, text@)),
{
    Detection::with_detail(status, SRC, String::from_str(text))
}

fn det2(status: Status, head: &str, tail: &str) -> (r: Detection)
    ensures
        detection_is(r, SRC, (status, head@ + tail@)),
{
    let mut d = String::from_str(head);
    d.append(tail);
    Detection::with_detail(status, SRC, d)
}

fn detect_smt(r: &TextRead) -> (d: Detection)
    ensures
        detection_is(d, SRC, spec_smt(*r)),
{
    match r {
        Ok(s) => {
            let v = trim_owned(s.as_str());
            if str_eq(v.as_str(), "1") {
                det(Status::Enabled, "smt/active=1")
            } else if str_eq(v.as_str(), "0") {
                det(Status::Disabled, "smt/active=0")
            } else {
                let q = debug_quoted(v.as_str());
                det2(Status::Unknown, "malformed smt/active=", q.as_str())
            }
        },
        Err(e) => det2(Status::Unknown, "cannot inspect smt/active: ", e.message.as_str()),
    }
}

fn detect_kvm(m: &MetadataRead, open: &Result<(), IoFailure>) -> (d: Detection)
    ensures
        detection_is(d, SRC, spec_kvm(*m, *open)),
{
    match m {
        Err(e) => if e.kind == IoErrorKind::NotFound {
            det(Status::Absent, "/dev/kvm absent")
        } else {
            det2(Status::Unknown, "cannot inspect /dev/kvm: ", e.message.as_str())
        },
        Ok(_) => match open {
            Ok(_) => det(Status::Enabled, "/dev/kvm openable"),
            Err(e) => if e.kind == IoErrorKind::PermissionDenied {
                det(Status::Present, "/dev/kvm present but not permitted")
            } else {
                det2(Status::Unknown, "/dev/kvm open failed: ", e.message.as_str())
            },
        },
    }
}

fn is_true(r: &Result<bool, IoFailure>) -> (b: bool)
    ensures
        b == (*r == Ok::<bool, IoFailure>(true)),
{
    match r {
        Ok(v) => *v,
        Err(_) => false,
    }
}

fn is_false(r: &Result<bool, IoFailure>) -> (b: bool)
    ensures
        b == (*r == Ok::<bool, IoFailure>(false)),
{
    match r {
        Ok(v) => !*v,
        Err(_) => false,
    }
}

fn detect_tpm(class: &MetadataRead, dev: &MetadataRead) -> (d: Detection)
    ensures
        detection_is(d, SRC, spec_tpm(*class, *dev)),
{
    let a = path_exists(class);
    let b = path_exists(dev);
    if is_true(&a) || is_true(&b) {
        det(Status::Present, "tpm0 device present")
    } else if is_false(&a) && is_false(&b) {
        det(Status::Absent, "no tpm0 device")
    } else {
        det(Status::Unknown, "cannot fully inspect TPM interfaces")
    }
}

fn detect_pstate(driver: &TextRead, governor: &TextRead) -> (d: Detection)
    ensures
        detection_is(d, SRC, spec_pstate(*driver, *governor)),
{
    match driver {
        Ok(dr) => {
            let v = trim_owned(dr.as_str());
            let mut detail = String::from_str("driver=");
            detail.append(v.as_str());
            match governor {
                Ok(g) => {
                    let gv = trim_owned(g.as_str());
                    detail.append(", governor=");
                    detail.append(gv.as_str());
                },
                Err(_) => {},
            }
            let status = if str_eq(v.as_str(), "intel_pstate") {
                Status::Enabled
            } else {
                Status::Absent
            };
            Detection::with_detail(status, SRC, detail)
        },
        Err(e) => det2(Status::Unknown, "cannot inspect cpufreq driver: ", e.message.as_str()),
    }
}

fn detect_turbo(r: &TextRead) -> (d: Detection)
    ensures
        detection_is(d, SRC, spec_turbo(*r)),
{
    match r {
        Ok(s) => {
            let v = trim_owned(s.as_str());
            if str_eq(v.as_str(), "0") {
                det(Status::Enabled, "no_turbo=0")
            } else if str_eq(v.as_str(), "1") {
                det(Status::Disabled, "no_turbo=1 (turbo off)")
            } else {
                let q = debug_quoted(v.as_str());
                det2(Status::Unknown, "malformed no_turbo=", q.as_str())
            }
        },
        Err(e) => det2(Status::Unknown, "cannot inspect turbo state: ", e.message.as_str()),
    }
}

/// `acc` followed by what the scan from some index yields.
pub open spec fn prepend(acc: Seq<Seq<char>>, rest: Option<Seq<Seq<char>>>) -> Option<
    Seq<Seq<char>>,
> {
    match rest {
        Some(r) => Some(acc + r),
        None => None,
    }
}

fn detect_idle(driver: &TextRead, states: &Vec<TextRead>) -> (d: Detection)
    ensures
        detection_is(d, SRC, spec_idle(*driver, states@)),
{
    let dr = match driver {
        Err(e) => return det2(Status::Unknown, "cannot inspect cpuidle: ", e.message.as_str()),
        Ok(dr) => dr,
    };
    let ghost reads = states@;
    let mut names: Vec<String> = Vec::new();
    let mut done = false;
    let mut i: usize = 0;
    assert(views(names@) =~= Seq::<Seq<char>>::empty());
    assert(prepend(Seq::empty(), idle_scan(reads, 0)) == idle_scan(reads, 0)) by {
        if let Some(r) = idle_scan(reads, 0) {
            assert(Seq::<Seq<char>>::empty() + r =~= r);
        }
    }
    while !done && i < 16 && i < states.len()
        invariant
            i <= 16,
            i <= states.len(),
            reads == states@,
            *driver == Ok::<String, IoFailure>(*dr),
            !done ==> idle_scan(reads, 0) == prepend(views(names@), idle_scan(reads, i as nat)),
            done ==> idle_scan(reads, 0) == Some(views(names@)),
        decreases 16 - i + (if done {
            0int
        } else {
            1int
        }),
    {
        match &states[i] {
            Ok(name) => {
                let t = trim_owned(name.as_str());
                let ghost before = views(names@);
                names.push(t);
                proof {
                    assert(views(names@) =~= before.push(trim(name@)));
                    match idle_scan(reads, (i + 1) as nat) {
                        Some(rest) => {
                            assert(before + (seq![trim(name@)] + rest) =~= before.push(trim(name@))
                                + rest);
                        },
                        None => {},
                    }
                }
                i += 1;
            },
            Err(e) => {
                if e.kind == IoErrorKind::NotFound {
                    assert(views(names@) + Seq::<Seq<char>>::empty() =~= views(names@));
                    done = true;
                } else {
                    assert(idle_scan(reads, i as nat) is None);
                    return det(Status::Unknown, "cpuidle state enumeration incomplete");
                }
            },
        }
    }
    if !done {
        assert(idle_scan(reads, i as nat) == Some(Seq::<Seq<char>>::empty()));
        assert(views(names@) + Seq::<Seq<char>>::empty() =~= views(names@));
    }
    let v = trim_owned(dr.as_str());
    let mut detail = String::from_str("driver=");
    detail.append(v.as_str());
    detail.append(", states: ");
    let joined = join_strings(&names, " ");
    detail.append(joined.as_str());
    let status = if str_eq(v.as_str(), "intel_idle") {
        Status::Enabled
    } else {
        Status::Absent
    };
    Detection::with_detail(status, SRC, detail)
}

fn detect_rapl(p: &PowercapListing) -> (d: Detection)
    ensures
        detection_is(d, SRC, spec_rapl(*p)),
{
    let entries = match p {
        Err(e) => return det2(Status::Unknown, "cannot inspect powercap: ", e.message.as_str()),
        Ok(entries) => entries,
    };
    let mut domains: Vec<String> = Vec::new();
    let mut complete = true;
    let mut i: usize = 0;
    assert(entries@.take(0) =~= Seq::<Option<PowercapEntry>>::empty());
    assert(views(domains@) =~= Seq::<Seq<char>>::empty());
    while i < entries.len()
        invariant
            i <= entries.len(),
            complete == rapl_complete(entries@.take(i as int)),
            views(domains@) == rapl_domains(entries@.take(i as int)),
        decreases entries.len() - i,
    {
        let ghost pre = entries@.take(i as int);
        let ghost post = entries@.take(i + 1);
        assert(post.drop_last() =~= pre);
        assert(post.last() == entries@[i as int]);
        let ghost before = views(domains@);
        match &entries[i] {
            None => {
                complete = false;
            },
            Some(e) => {
                if str_has_prefix(e.file_name.as_str(), "intel-rapl:") {
                    match &e.name {
                        Ok(n) => {
                            domains.push(trim_owned(n.as_str()));
                            assert(views(domains@) =~= before.push(trim(n@)));
                        },
                        Err(_) => {
                            complete = false;
                        },
                    }
                }
            },
        }
        proof {
            assert(rapl_complete(post) == (rapl_complete(pre) && rapl_entry_ok(entries@[i as int])))
                by {
                if rapl_complete(post) {
                    assert forall|k: int| 0 <= k < pre.len() implies #[trigger] rapl_entry_ok(
                        pre[k],
                    ) by {
                        assert(pre[k] == post[k]);
                    }
                    assert(rapl_entry_ok(post[i as int]));
                }
                if rapl_complete(pre) && rapl_entry_ok(entries@[i as int]) {
                    assert forall|k: int| 0 <= k < post.len() implies #[trigger] rapl_entry_ok(
                        post[k],
                    ) by {
                        if k < i {
                            assert(pre[k] == post[k]);
                        }
                    }
                }
            }
        }
        i += 1;
    }
    assert(entries@.take(i as int) =~= entries@);
    if !complete {
        det(Status::Unknown, "powercap enumeration incomplete")
    } else if domains.len() == 0 {
        det(Status::Absent, "no intel-rapl powercap domains")
    } else {
        let joined = join_strings(&domains, ", ");
        det2(Status::Enabled, "domains: ", joined.as_str())
    }
}

fn detect_resctrl(info: &MetadataRead, root: &MetadataRead) -> (d: Detection)
    ensures
        detection_is(d, SRC, spec_resctrl(*info, *root)),
{
    let i = path_exists(info);
    let r = path_exists(root);
    if is_true(&i) {
        det(Status::Enabled, "mounted at /sys/fs/resctrl")
    } else if is_false(&i) && is_true(&r) {
        det(Status::Present, "present but not mounted")
    } else if is_false(&i) && is_false(&r) {
        det(Status::Absent, "no /sys/fs/resctrl")
    } else {
        det(Status::Unknown, "cannot inspect resctrl")
    }
}

fn detect_ipmi(a: &MetadataRead, b: &MetadataRead) -> (d: Detection)
    ensures
        detection_is(d, SRC, spec_ipmi(*a, *b)),
{
    let x = path_exists(a);
    let y = path_exists(b);
    if is_true(&x) || is_true(&y) {
        det(Status::Enabled, "IPMI device present")
    } else if is_false(&x) && is_false(&y) {
        det(Status::Absent, "no IPMI device")
    } else {
        det(Status::Unknown, "cannot fully inspect IPMI devices")
    }
}

fn detect_bluetooth(l: &Listing) -> (d: Detection)
    ensures
        detection_is(d, SRC, spec_bluetooth(*l)),
{
    match l {
        Ok(entries) => if !every_entry_listed(entries) {
            det(Status::Unknown, "bluetooth enumeration incomplete")
        } else if entries.len() == 0 {
            det(Status::Absent, "no bluetooth hci")
        } else {
            det(Status::Enabled, "hci device present")
        },
        Err(e) => if e.kind == IoErrorKind::NotFound {
            det(Status::Absent, "no bluetooth class")
        } else {
            det2(Status::Unknown, "cannot inspect bluetooth: ", e.message.as_str())
        },
    }
}

fn detect_sgx(m: &MetadataRead) -> (d: Option<Detection>)
    ensures
        match spec_sgx(*m) {
            Some(e) => d is Some && detection_is(d->0, SRC, e),
            None => d is None,
        },
{
    match path_exists(m) {
        Ok(true) => Some(det(Status::Enabled, "/dev/sgx_enclave present")),
        Ok(false) => None,
        Err(e) => Some(det2(Status::Unknown, "cannot inspect SGX device: ", e.message.as_str())),
    }
}

/// Appends a finding for `id` whose detection is the expected `e`.
fn push_finding(
    out: &mut Findings,
    id: &'static str,
    d: Detection,
    Ghost(expected): Ghost<Seq<(&'static str, (Status, Seq<char>))>>,
    Ghost(e): Ghost<(Status, Seq<char>)>,
)
    requires
        findings_are(old(out)@, SRC, expected),
        detection_is(d, SRC, e),
    ensures
        findings_are(final(out)@, SRC, expected.push((id, e))),
{
    proof {
        lemma_findings_push(out@, SRC, expected, (id, d), (id, e));
    }
    out.push((id, d));
}

pub struct SysfsProbe;

impl Probe for SysfsProbe {
    fn name(&self) -> (r: &'static str)
        ensures
            r == SRC,
    {
        SRC
    }

    fn feature_ids(&self) -> (r: Vec<&'static str>)
        ensures
            r@ == sysfs_feature_ids(),
    {
        let r = vec![
            "smt",
            "kvm",
            "tpm",
            "intel_pstate",
            "turbo",
            "intel_idle",
            "rapl",
            "resctrl",
            "ipmi",
            "bluetooth",
            "sgx",
        ];
        assert(r@ =~= sysfs_feature_ids());
        r
    }
}

impl SysfsProbe {
    /// Decide each runtime-state feature from what was read.
    pub fn decide(&self, r: &SysfsReadings) -> (out: Findings)
        ensures
            findings_are(out@, SRC, sysfs_expected(*r)),
    {
        let mut out: Findings = Vec::new();
        let ghost mut exp: Seq<(&'static str, (Status, Seq<char>))> = Seq::empty();
        push_finding(&mut out, "smt", detect_smt(&r.smt_active), Ghost(exp), Ghost(spec_smt(r.smt_active)));
        proof { exp = exp.push(("smt", spec_smt(r.smt_active))); }
        push_finding(&mut out, "kvm", detect_kvm(&r.kvm, &r.kvm_open), Ghost(exp), Ghost(spec_kvm(r.kvm, r.kvm_open)));
        proof { exp = exp.push(("kvm", spec_kvm(r.kvm, r.kvm_open))); }
        push_finding(&mut out, "tpm", detect_tpm(&r.tpm_class, &r.tpm_dev), Ghost(exp), Ghost(spec_tpm(r.tpm_class, r.tpm_dev)));
        proof { exp = exp.push(("tpm", spec_tpm(r.tpm_class, r.tpm_dev))); }
        push_finding(
            &mut out,
            "intel_pstate",
            detect_pstate(&r.scaling_driver, &r.scaling_governor),
            Ghost(exp),
            Ghost(spec_pstate(r.scaling_driver, r.scaling_governor)),
        );
        proof { exp = exp.push(("intel_pstate", spec_pstate(r.scaling_driver, r.scaling_governor))); }
        push_finding(&mut out, "turbo", detect_turbo(&r.no_turbo), Ghost(exp), Ghost(spec_turbo(r.no_turbo)));
        proof { exp = exp.push(("turbo", spec_turbo(r.no_turbo))); }
        push_finding(
            &mut out,
            "intel_idle",
            detect_idle(&r.idle_driver, &r.idle_states),
            Ghost(exp),
            Ghost(spec_idle(r.idle_driver, r.idle_states@)),
        );
        proof { exp = exp.push(("intel_idle", spec_idle(r.idle_driver, r.idle_states@))); }
        push_finding(&mut out, "rapl", detect_rapl(&r.powercap), Ghost(exp), Ghost(spec_rapl(r.powercap)));
        proof { exp = exp.push(("rapl", spec_rapl(r.powercap))); }
        push_finding(
            &mut out,
            "resctrl",
            detect_resctrl(&r.resctrl_info, &r.resctrl),
            Ghost(exp),
            Ghost(spec_resctrl(r.resctrl_info, r.resctrl)),
        );
        proof { exp = exp.push(("resctrl", spec_resctrl(r.resctrl_info, r.resctrl))); }
        push_finding(&mut out, "ipmi", detect_ipmi(&r.ipmi, &r.ipmi_alt), Ghost(exp), Ghost(spec_ipmi(r.ipmi, r.ipmi_alt)));
        proof { exp = exp.push(("ipmi", spec_ipmi(r.ipmi, r.ipmi_alt))); }
        push_finding(&mut out, "bluetooth", detect_bluetooth(&r.bluetooth), Ghost(exp), Ghost(spec_bluetooth(r.bluetooth)));
        proof { exp = exp.push(("bluetooth", spec_bluetooth(r.bluetooth))); }
        match detect_sgx(&r.sgx_enclave) {
            Some(d) => {
                let ghost e = spec_sgx(r.sgx_enclave)->0;
                push_finding(&mut out, "sgx", d, Ghost(exp), Ghost(e));
                proof { exp = exp.push(("sgx", e)); }
            },
            None => {},
        }
        assert(exp =~= sysfs_expected(*r));
        out
    }
}

// ---- laws -------------------------------------------------------------------------------

/// RAPL is reported `Absent` only after a full powercap listing whose RAPL domains were all
/// read, with none found.
pub proof fn rapl_absence_needs_full_listing(p: PowercapListing)
    requires
        spec_rapl(p).0 == Status::Absent,
    ensures
        p matches Ok(es) && rapl_complete(es@) && rapl_domains(es@).len() == 0,
{
}

/// The cpuidle driver is reported only when every state read up to the first missing
/// one succeeded.
pub proof fn idle_needs_complete_states(driver: TextRead, states: Seq<TextRead>)
    requires
        spec_idle(driver, states).0 != Status::Unknown,
    ensures
        driver is Ok,
        idle_scan(states, 0) is Some,
{
}

/// `intel_pstate/no_turbo` reads "0" while turbo is allowed and "1" when it is switched
/// off: "0" (after trimming) is `Enabled`, "1" is `Disabled`, anything else or a failed
/// read is `Unknown`.
pub proof fn turbo_state_rules(r: TextRead)
    ensures
        r matches Ok(s) && trim(s@) == "0"@ ==> spec_turbo(r).0 == Status::Enabled,
        r matches Ok(s) && trim(s@) == "1"@ ==> spec_turbo(r).0 == Status::Disabled,
        r matches Ok(s) && trim(s@) != "1"@ && trim(s@) != "0"@ ==> spec_turbo(r).0 == Status::Unknown,
        r is Err ==> spec_turbo(r).0 == Status::Unknown,
{
    reveal_strlit("1");
    reveal_strlit("0");
    assert("0"@[0] != "1"@[0]);
}

/// `/dev/kvm`: missing is `Absent`; present and openable is `Enabled`; present but
/// refused with a permission error is `Present`; anything else is `Unknown`.
pub proof fn kvm_state_rules(m: MetadataRead, open: Result<(), IoFailure>)
    ensures
        m matches Err(e) && e.kind == IoErrorKind::NotFound ==> spec_kvm(m, open).0 == Status::Absent,
        m matches Err(e) && e.kind != IoErrorKind::NotFound ==> spec_kvm(m, open).0 == Status::Unknown,
        m is Ok && open is Ok ==> spec_kvm(m, open).0 == Status::Enabled,
        m is Ok && (open matches Err(e) && e.kind == IoErrorKind::PermissionDenied) ==> spec_kvm(m, open).0
            == Status::Present,
        m is Ok && (open matches Err(e) && e.kind != IoErrorKind::PermissionDenied) ==> spec_kvm(m, open).0
            == Status::Unknown,
{
}

/// The frequency and idle drivers: `intel_pstate` is `Enabled` exactly when the cpufreq
/// driver reads "intel_pstate" (and `Absent` for any other driver), and `intel_idle` is
/// `Enabled` exactly when the cpuidle driver reads "intel_idle" and its states were
/// listed; failed reads are `Unknown`.
pub proof fn driver_rules(driver: TextRead, governor: TextRead, idle: TextRead, states: Seq<TextRead>)
    ensures
        driver matches Ok(d) ==> spec_pstate(driver, governor).0 == (if trim(d@) == "intel_pstate"@ {
            Status::Enabled
        } else {
            Status::Absent
        }),
        driver is Err ==> spec_pstate(driver, governor).0 == Status::Unknown,
        idle_scan(states, 0) is Some ==> (idle matches Ok(d) ==> spec_idle(idle, states).0 == (if trim(
            d@,
        ) == "intel_idle"@ {
            Status::Enabled
        } else {
            Status::Absent
        })),
        idle is Err || idle_scan(states, 0) is None ==> spec_idle(idle, states).0 == Status::Unknown,
{
}

/// Device presence: the TPM (either `tpm0` node) and IPMI (either device node) are found
/// when one node exists, `Absent` when both are known missing, otherwise `Unknown`;
/// resctrl is `Enabled` when mounted (its `info` directory exists), `Present` when only
/// the mount point exists, `Absent` when neither does; `/dev/sgx_enclave` is reported
/// `Enabled` when it exists and not at all when it is missing.
pub proof fn device_presence_rules(a: MetadataRead, b: MetadataRead)
    ensures
        a is Ok || b is Ok ==> spec_tpm(a, b).0 == Status::Present && spec_ipmi(a, b).0 == Status::Enabled,
        (a matches Err(e) && e.kind == IoErrorKind::NotFound) && (b matches Err(e) && e.kind
            == IoErrorKind::NotFound) ==> spec_tpm(a, b).0 == Status::Absent && spec_ipmi(a, b).0
            == Status::Absent && spec_resctrl(a, b).0 == Status::Absent,
        a is Ok ==> spec_resctrl(a, b).0 == Status::Enabled && (spec_sgx(a) matches Some(s) && s.0
            == Status::Enabled),
        (a matches Err(e) && e.kind == IoErrorKind::NotFound) && b is Ok ==> spec_resctrl(a, b).0
            == Status::Present,
        (a matches Err(e) && e.kind == IoErrorKind::NotFound) ==> spec_sgx(a) is None,
        a is Err && b is Err && !((a matches Err(e) && e.kind == IoErrorKind::NotFound) && (b matches Err(
            e,
        ) && e.kind == IoErrorKind::NotFound)) ==> spec_tpm(a, b).0 == Status::Unknown && spec_ipmi(a, b).0
            == Status::Unknown,
{
}

/// `smt/active` reads "1" when SMT is on and "0" when it is off or unsupported: "1"
/// (after trimming) is `Enabled`, "0" is `Disabled`, anything else or a failed read is
/// `Unknown`.
pub proof fn smt_state_rules(r: TextRead)
    ensures
        r matches Ok(s) && trim(s@) == "1"@ ==> spec_smt(r).0 == Status::Enabled && spec_smt(r).1
            == "smt/active=1"@,
        r matches Ok(s) && trim(s@) == "0"@ ==> spec_smt(r).0 == Status::Disabled && spec_smt(r).1
            == "smt/active=0"@,
        r matches Ok(s) && trim(s@) != "1"@ && trim(s@) != "0"@ ==> spec_smt(r).0 == Status::Unknown,
        r is Err ==> spec_smt(r).0 == Status::Unknown,
{
    reveal_strlit("1");
    reveal_strlit("0");
    assert("0"@[0] != "1"@[0]);
}

} // verus!
