//! Probe infrastructure: findings, the plain values that host interfaces hand to the
//! probes' decision logic, and the once-only gate for loading the `msr` module.
//!
//! Every probe here decides from what was read; reading the host (files, directories,
//! device nodes, CPUID, MSRs) is done by the caller, which hands over the outcome of
//! each read as an [`IoFailure`] or the data.

pub mod acpi;
pub mod cpuid;
pub mod cpuid_table;
pub mod firmware;
pub mod msr;
pub mod pci;
pub mod procfs;
pub mod sysfs;
pub mod vulns;

use vstd::prelude::*;

use crate::model::{Detection, Privilege, Status};
use crate::text::{chars_of, line_spans, owned_range, spans_view, lines, words, word_spans};

verus! {

/// Findings of one probe: detections keyed by catalog feature id.
pub type Findings = Vec<(&'static str, Detection)>;

pub type ProbeResult = Result<Findings, ProbeError>;

/// A probe could not run at all.
#[derive(Debug)]
pub struct ProbeError(pub String);

/// One entry of a directory listing.
#[derive(Debug, Clone)]
pub struct DirEntry {
    pub path: String,
    pub file_name: String,
}

#[derive(Debug, Clone, Copy)]
pub struct SystemMetadata {
    pub is_dir: bool,
}

/// The kinds of host-interface failure that the probes tell apart.
#[derive(Debug, Clone, Copy, PartialEq, Eq, Structural)]
pub enum IoErrorKind {
    NotFound,
    PermissionDenied,
    Other,
}

/// A failed read of a host interface: its kind, and its message as the OS reports it.
#[derive(Debug)]
pub struct IoFailure {
    pub kind: IoErrorKind,
    pub message: String,
}

impl Clone for IoFailure {
    fn clone(&self) -> (r: Self)
        ensures
            r == *self,
    {
        IoFailure { kind: self.kind, message: self.message.clone() }
    }
}

/// Outcome of reading a text file.
pub type TextRead = Result<String, IoFailure>;

/// Outcome of listing a directory; entries that could not be read are `None`.
pub type Listing = Result<Vec<Option<DirEntry>>, IoFailure>;

/// Outcome of inspecting a path.
pub type MetadataRead = Result<SystemMetadata, IoFailure>;

#[derive(Debug, Clone, Copy)]
pub struct ContextOptions {
    /// Permit one `modprobe msr` attempt when root and the MSR device is missing.
    pub load_msr_module: bool,
}

impl ContextOptions {
    /// Module loading is off unless asked for.
    pub fn default_options() -> (r: ContextOptions)
        ensures
            !r.load_msr_module,
    {
        ContextOptions { load_msr_module: false }
    }
}

pub fn finding(source: &'static str, id: &'static str, status: Status) -> (r: (
    &'static str,
    Detection,
))
    ensures
        r.0 == id,
        r.1.status == status,
        r.1.source == source,
        r.1.detail is None,
{
    (id, Detection::new(status, source))
}

pub fn finding_detail(source: &'static str, id: &'static str, status: Status, detail: String) -> (r:
    (&'static str, Detection))
    ensures
        r.0 == id,
        r.1.status == status,
        r.1.source == source,
        r.1.detail == Some(detail),
{
    (id, Detection::with_detail(status, source, detail))
}

/// A detection mechanism: its name and the catalog features it reports on.
pub trait Probe {
    fn name(&self) -> &'static str;

    fn feature_ids(&self) -> Vec<&'static str>;
}

/// `d` was produced by `source` with the status and detail of `sd`.
pub open spec fn detection_is(d: Detection, source: &'static str, sd: (Status, Seq<char>)) -> bool {
    &&& d.status == sd.0
    &&& d.source == source
    &&& d.detail is Some
    &&& d.detail->0@ == sd.1
}

/// `f` is an `Unknown` finding for `id` from `source` carrying `reason`.
pub open spec fn is_unknown_finding(
    f: (&'static str, Detection),
    id: &'static str,
    source: &'static str,
    reason: Seq<char>,
) -> bool {
    &&& f.0 == id
    &&& f.1.status == Status::Unknown
    &&& f.1.source == source
    &&& f.1.detail is Some
    &&& f.1.detail->0@ == reason
}

/// Every feature in `ids` is `Unknown` for the same reason.
pub open spec fn all_unknown(out: Seq<(&'static str, Detection)>, source: &'static str, ids: Seq<
    &'static str,
>, reason: Seq<char>) -> bool {
    &&& out.len() == ids.len()
    &&& forall|k: int|
        0 <= k < ids.len() ==> #[trigger] is_unknown_finding(out[k], ids[k], source, reason)
}

/// The names of every probe, in the order they run: CPUID, procfs, sysfs, the
/// vulnerability files, MSRs, PCI, ACPI, EFI and SMBIOS. A new probe is registered here.
pub open spec fn probe_order() -> Seq<&'static str> {
    seq![
        cpuid::SRC,
        procfs::SRC,
        sysfs::SRC,
        vulns::SRC,
        msr::SRC,
        pci::SRC,
        acpi::SRC,
        firmware::EFI_SRC,
        firmware::DMI_SRC,
    ]
}

/// The names of every probe, in run order.
pub fn all() -> (r: Vec<&'static str>)
    ensures
        r@ == probe_order(),
{
    let mut r: Vec<&'static str> = Vec::new();
    r.push(cpuid::SRC);
    r.push(procfs::SRC);
    r.push(sysfs::SRC);
    r.push(vulns::SRC);
    r.push(msr::SRC);
    r.push(pci::SRC);
    r.push(acpi::SRC);
    r.push(firmware::EFI_SRC);
    r.push(firmware::DMI_SRC);
    assert(r@ =~= probe_order());
    r
}

/// One `Unknown` finding per id, all carrying `reason`.
pub fn unavailable(source: &'static str, ids: &Vec<&'static str>, reason: &str) -> (r: Findings)
    ensures
        all_unknown(r@, source, ids@, reason@),
{
    let mut out: Findings = Vec::new();
    let mut i: usize = 0;
    while i < ids.len()
        invariant
            i <= ids.len(),
            out@.len() == i,
            forall|k: int|
                0 <= k < i ==> #[trigger] is_unknown_finding(out@[k], ids@[k], source, reason@),
        decreases ids.len() - i,
    {
        let f = finding_detail(source, ids[i], Status::Unknown, String::from_str(reason));
        assert(is_unknown_finding(f, ids@[i as int], source, reason@));
        out.push(f);
        i += 1;
    }
    out
}

/// `out` holds, in order, one finding per entry of `expected`: the same feature id, and a
/// detection from `source` with the expected status and detail.
pub open spec fn findings_are(
    out: Seq<(&'static str, Detection)>,
    source: &'static str,
    expected: Seq<(&'static str, (Status, Seq<char>))>,
) -> bool {
    &&& out.len() == expected.len()
    &&& forall|k: int|
        0 <= k < expected.len() ==> (#[trigger] out[k]).0 == expected[k].0 && detection_is(
            out[k].1,
            source,
            expected[k].1,
        )
}

/// Appending a matching finding keeps `findings_are`.
pub proof fn lemma_findings_push(
    out: Seq<(&'static str, Detection)>,
    source: &'static str,
    expected: Seq<(&'static str, (Status, Seq<char>))>,
    f: (&'static str, Detection),
    e: (&'static str, (Status, Seq<char>)),
)
    requires
        findings_are(out, source, expected),
        f.0 == e.0,
        detection_is(f.1, source, e.1),
    ensures
        findings_are(out.push(f), source, expected.push(e)),
{
    assert forall|k: int| 0 <= k < expected.len() + 1 implies (#[trigger] out.push(f)[k]).0
        == expected.push(e)[k].0 && detection_is(out.push(f)[k].1, source, expected.push(e)[k].1) by {
        if k < expected.len() {
            assert(out.push(f)[k] == out[k]);
            assert(expected.push(e)[k] == expected[k]);
        }
    }
}

/// Every entry of a listing could be read.
pub open spec fn all_listed(entries: Seq<Option<DirEntry>>) -> bool {
    forall|i: int| 0 <= i < entries.len() ==> #[trigger] entries[i] is Some
}

/// Executable [`all_listed`].
pub fn every_entry_listed(entries: &Vec<Option<DirEntry>>) -> (r: bool)
    ensures
        r == all_listed(entries@),
{
    let mut i: usize = 0;
    while i < entries.len()
        invariant
            i <= entries.len(),
            forall|k: int| 0 <= k < i ==> #[trigger] entries@[k] is Some,
        decreases entries.len() - i,
    {
        if entries[i].is_none() {
            assert(!(entries@[i as int] is Some));
            return false;
        }
        i += 1;
    }
    true
}

/// Whether a path exists: `NotFound` means no, any other failure leaves it open.
pub open spec fn path_state(m: MetadataRead) -> Result<bool, IoFailure> {
    match m {
        Ok(_) => Ok(true),
        Err(e) => if e.kind == IoErrorKind::NotFound {
            Ok(false)
        } else {
            Err(e)
        },
    }
}

/// Executable [`path_state`].
pub fn path_exists(m: &MetadataRead) -> (r: Result<bool, IoFailure>)
    ensures
        r == path_state(*m),
{
    match m {
        Ok(_) => Ok(true),
        Err(e) => if e.kind == IoErrorKind::NotFound {
            Ok(false)
        } else {
            Err(e.clone())
        },
    }
}

/// A finding a probe may emit: from the probe itself, for a feature it declares.
pub open spec fn declared(
    f: (&'static str, Detection),
    source: &'static str,
    covered: Seq<&'static str>,
) -> bool {
    &&& f.1.source@ == source@
    &&& exists|j: int| 0 <= j < covered.len() && #[trigger] covered[j]@ == f.0@
}

fn lists_id(covered: &Vec<&'static str>, id: &str) -> (r: bool)
    ensures
        r == exists|j: int| 0 <= j < covered@.len() && #[trigger] covered@[j]@ == id@,
{
    let mut j: usize = 0;
    while j < covered.len()
        invariant
            j <= covered@.len(),
            forall|k: int| 0 <= k < j ==> #[trigger] covered@[k]@ != id@,
        decreases covered.len() - j,
    {
        if crate::text::str_eq(covered[j], id) {
            return true;
        }
        j += 1;
    }
    false
}

/// The id of the first finding not declared by the probe that emitted it, if any.
pub fn undeclared_finding(findings: &Findings, source: &'static str, covered: &Vec<&'static str>) -> (r:
    Option<&'static str>)
    ensures
        match r {
            None => forall|k: int|
                0 <= k < findings@.len() ==> declared(#[trigger] findings@[k], source, covered@),
            Some(id) => exists|k: int|
                0 <= k < findings@.len() && findings@[k].0 == id && !declared(
                    #[trigger] findings@[k],
                    source,
                    covered@,
                ),
        },
{
    let mut k: usize = 0;
    while k < findings.len()
        invariant
            k <= findings@.len(),
            forall|m: int| 0 <= m < k ==> declared(#[trigger] findings@[m], source, covered@),
        decreases findings.len() - k,
    {
        let (id, d) = &findings[k];
        if !crate::text::str_eq(d.source, source) || !lists_id(covered, id) {
            assert(!declared(findings@[k as int], source, covered@));
            return Some(*id);
        }
        k += 1;
    }
    None
}

// ---- the once-only module-load gate ----------------------------------------------

/// Remembers whether loading the `msr` module has been attempted.
#[derive(Debug)]
pub struct ModuleLoadGate {
    tried: bool,
}

impl ModuleLoadGate {
    pub closed spec fn spec_tried(&self) -> bool {
        self.tried
    }

    pub fn new() -> (r: ModuleLoadGate)
        ensures
            !r.spec_tried(),
    {
        ModuleLoadGate { tried: false }
    }

    /// Claims the single attempt: `true` the first time only.
    pub fn try_mark(&mut self) -> (r: bool)
        ensures
            r == !old(self).spec_tried(),
            final(self).spec_tried(),
    {
        let first = !self.tried;
        self.tried = true;
        first
    }
}

/// Number of `true` answers that `calls` successive claims return, starting from a gate
/// whose attempt is (`tried`) or is not yet taken.
pub open spec fn claims_granted(tried: bool, calls: nat) -> nat
    decreases calls,
{
    if calls == 0 {
        0
    } else {
        (if tried {
            0nat
        } else {
            1nat
        }) + claims_granted(true, (calls - 1) as nat)
    }
}

/// The module load is granted at most once: never by a gate already taken, and once
/// by an untaken gate consulted one or more times.
pub proof fn module_load_granted_at_most_once(tried: bool, calls: nat)
    ensures
        claims_granted(tried, calls) <= 1,
        claims_granted(tried, calls) == (if !tried && calls > 0 {
            1nat
        } else {
            0nat
        }),
    decreases calls,
{
    if calls > 0 {
        module_load_granted_at_most_once(true, (calls - 1) as nat);
    }
}

// ---- the probe context --------------------------------------------------------------

/// What every probe may consult: the effective privilege, the options, and whether the
/// one permitted `msr` module load has been used.
#[derive(Debug)]
pub struct Context {
    pub privilege: Privilege,
    pub options: ContextOptions,
    pub module_load: ModuleLoadGate,
}

impl Context {
    pub fn new(privilege: Privilege, options: ContextOptions) -> (r: Context)
        ensures
            r.privilege == privilege,
            r.options == options,
            !r.module_load_tried(),
    {
        Context { privilege, options, module_load: ModuleLoadGate::new() }
    }

    /// The context of this process, from the contents of `/proc/self/status`.
    pub fn with_options(options: ContextOptions, status: &TextRead) -> (r: Context)
        ensures
            r.privilege == spec_privilege_from_status(text_read_view(*status)),
            r.options == options,
            !r.module_load_tried(),
    {
        Context::new(privilege_from_status(status), options)
    }

    /// [`Context::with_options`] with module loading off.
    pub fn detect(status: &TextRead) -> (r: Context)
        ensures
            r.privilege == spec_privilege_from_status(text_read_view(*status)),
            !r.options.load_msr_module,
            !r.module_load_tried(),
    {
        Context::with_options(ContextOptions::default_options(), status)
    }

    pub fn is_root(&self) -> (r: bool)
        ensures
            r == (self.privilege == Privilege::Root),
    {
        self.privilege == Privilege::Root
    }

    pub closed spec fn module_load_tried(&self) -> bool {
        self.module_load.spec_tried()
    }

    /// Claims the single module-load attempt: `true` the first time only.
    pub fn try_mark_module_load(&mut self) -> (r: bool)
        ensures
            r == !old(self).module_load_tried(),
            final(self).module_load_tried(),
            final(self).privilege == old(self).privilege,
            final(self).options == old(self).options,
    {
        self.module_load.try_mark()
    }
}

// ---- effective privilege ----------------------------------------------------------

/// Index of the first line of `ls` that starts with `p`.
pub open spec fn first_line_with_prefix(ls: Seq<Seq<char>>, p: Seq<char>) -> Option<int>
    decreases ls.len(),
{
    if ls.len() == 0 {
        None
    } else {
        match first_line_with_prefix(ls.drop_last(), p) {
            Some(k) => Some(k),
            None => if crate::text::has_prefix(ls.last(), p) {
                Some(ls.len() - 1)
            } else {
                None
            },
        }
    }
}

/// A first match inside a prefix of the lines is the first match of all of them.
pub proof fn lemma_first_line_prefix(ls: Seq<Seq<char>>, n: int, p: Seq<char>)
    requires
        0 <= n <= ls.len(),
        first_line_with_prefix(ls.take(n), p) is Some,
    ensures
        first_line_with_prefix(ls, p) == first_line_with_prefix(ls.take(n), p),
    decreases ls.len(),
{
    if n < ls.len() {
        assert(ls.drop_last().take(n) =~= ls.take(n));
        lemma_first_line_prefix(ls.drop_last(), n, p);
    } else {
        assert(ls.take(n) =~= ls);
    }
}

/// The rest of the first line of `text` that starts with `prefix`.
pub open spec fn line_rest(text: Seq<char>, prefix: Seq<char>) -> Option<Seq<char>> {
    let ls = lines(text);
    match first_line_with_prefix(ls, prefix) {
        Some(k) => Some(ls[k].skip(prefix.len() as int)),
        None => None,
    }
}

/// Executable [`line_rest`].
pub fn first_line_rest(text: &str, prefix: &str) -> (r: Option<String>)
    ensures
        match r {
            Some(s) => line_rest(text@, prefix@) == Some(s@),
            None => line_rest(text@, prefix@) is None,
        },
{
    let v = chars_of(text);
    let spans = line_spans(&v);
    let ghost ls = lines(v@);
    let pc = chars_of(prefix);
    let mut i: usize = 0;
    assert(ls.take(0) =~= Seq::<Seq<char>>::empty());
    while i < spans.len()
        invariant
            i <= spans.len(),
            spans_view(v@, spans@) == ls,
            crate::text::spans_valid(v@, spans@),
            first_line_with_prefix(ls.take(i as int), prefix@) is None,
            pc@ == prefix@,
            v@ == text@,
            ls == lines(text@),
        decreases spans.len() - i,
    {
        let (a, b) = spans[i];
        let line = owned_range(text, a, b);
        let lc = chars_of(line.as_str());
        assert(ls[i as int] == lc@);
        proof {
            assert(ls.take(i + 1).drop_last() =~= ls.take(i as int));
        }
        if crate::text::chars_have_prefix(&lc, &pc) {
            proof {
                lemma_first_line_prefix(ls, i + 1, prefix@);
            }
            let rest = owned_range(line.as_str(), pc.len(), lc.len());
            assert(rest@ =~= ls[i as int].skip(prefix@.len() as int));
            return Some(rest);
        }
        i += 1;
    }
    proof {
        assert(ls.take(i as int) =~= ls);
    }
    None
}

/// The effective uid field of the first `Uid:` line of `/proc/self/status`.
pub open spec fn status_euid(status: Seq<char>) -> Option<Seq<char>> {
    let ls = lines(status);
    match first_line_with_prefix(ls, "Uid:"@) {
        None => None,
        Some(k) => {
            let ws = words(ls[k].skip(4));
            if ws.len() >= 2 {
                Some(ws[1])
            } else {
                None
            }
        },
    }
}

/// Root when the effective uid of the first `Uid:` line is `0`; an unreadable status
/// means an ordinary user.
pub open spec fn spec_privilege_from_status(status: Result<Seq<char>, ()>) -> Privilege {
    match status {
        Ok(text) => match status_euid(text) {
            Some(e) => if e == "0"@ {
                Privilege::Root
            } else {
                Privilege::User
            },
            None => Privilege::User,
        },
        Err(_) => Privilege::User,
    }
}

pub open spec fn text_read_view(r: TextRead) -> Result<Seq<char>, ()> {
    match r {
        Ok(s) => Ok(s@),
        Err(_) => Err(()),
    }
}

/// Effective privilege of this process from the contents of `/proc/self/status`.
pub fn privilege_from_status(status: &TextRead) -> (r: Privilege)
    ensures
        r == spec_privilege_from_status(text_read_view(*status)),
{
    let text = match status {
        Ok(t) => t,
        Err(_) => return Privilege::User,
    };
    assert(text_read_view(*status) == Ok::<Seq<char>, ()>(text@));
    let v = chars_of(text.as_str());
    let spans = line_spans(&v);
    let ghost ls = lines(v@);
    let prefix = chars_of("Uid:");
    let mut i: usize = 0;
    proof {
        reveal_strlit("Uid:");
        assert(ls.take(0) =~= Seq::<Seq<char>>::empty());
    }
    while i < spans.len()
        invariant
            i <= spans.len(),
            spans_view(v@, spans@) == ls,
            crate::text::spans_valid(v@, spans@),
            first_line_with_prefix(ls.take(i as int), "Uid:"@) is None,
            prefix@ == "Uid:"@,
            v@ == text@,
            ls == lines(text@),
            text_read_view(*status) == Ok::<Seq<char>, ()>(text@),
        decreases spans.len() - i,
    {
        proof {
            reveal_strlit("Uid:");
        }
        let (a, b) = spans[i];
        let line = owned_range(text.as_str(), a, b);
        let lc = chars_of(line.as_str());
        assert(ls[i as int] == lc@);
        proof {
            assert(ls.take(i + 1).drop_last() =~= ls.take(i as int));
        }
        if crate::text::chars_have_prefix(&lc, &prefix) {
            // The first matching line decides.
            proof {
                lemma_first_line_prefix(ls, i + 1, "Uid:"@);
            }
            assert(first_line_with_prefix(ls.take(i + 1), "Uid:"@) == Some(i as int));
            assert(first_line_with_prefix(ls, "Uid:"@) == Some(i as int));
            let rest = owned_range(line.as_str(), 4, lc.len());
            let rc = chars_of(rest.as_str());
            assert(rc@ =~= ls[i as int].skip(4));
            let ws = word_spans(&rc);
            if ws.len() >= 2 {
                let (c, d) = ws[1];
                let euid = owned_range(rest.as_str(), c, d);
                assert(euid@ == words(ls[i as int].skip(4))[1]);
                assert(words(ls[i as int].skip(4)).len() >= 2);
                assert(status_euid(text@) == Some(euid@));
                let is_root = crate::text::str_eq(euid.as_str(), "0");
                return if is_root {
                    Privilege::Root
                } else {
                    Privilege::User
                };
            }
            return Privilege::User;
        }
        i += 1;
    }
    proof {
        assert(ls.take(i as int) =~= ls);
    }
    Privilege::User
}

} // verus!
