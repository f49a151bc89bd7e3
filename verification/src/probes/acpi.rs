//! ACPI firmware-table probe (no root).
//!
//! The presence of a table in `/sys/firmware/acpi/tables/` is readable without root and
//! is itself informative: DMAR means the platform supports VT-d, NFIT persistent memory,
//! CEDT CXL, LPIT low-power S0 idle, and so on. Presence is combined with two live
//! signals (`/sys/class/iommu`, `/sys/power/mem_sleep`) to tell "supported" from
//! "active". An incomplete table enumeration never proves absence.

use vstd::prelude::*;

use crate::model::{Detection, Status};
use crate::probes::{
    Probe, all_listed, all_unknown, detection_is, unavailable, DirEntry, Findings, Listing, TextRead};
use crate::text::{ascii_upper, chars_eq, chars_of, occurs_in, str_contains, upper_chars};

verus! {

pub const SRC: &'static str = "acpi";

pub const TABLES: &'static str = "/sys/firmware/acpi/tables";

pub open spec fn acpi_feature_ids() -> Seq<&'static str> {
    seq!["vt_d", "s0ix", "pmem", "cxl", "hmat", "hpet", "numa", "wsmt", "tpm"]
}

/// Table-presence features and their signatures, in report order.
pub open spec fn presence_table() -> Seq<(&'static str, &'static str)> {
    seq![
        ("pmem", "NFIT"),
        ("cxl", "CEDT"),
        ("hmat", "HMAT"),
        ("hpet", "HPET"),
        ("numa", "SRAT"),
        ("wsmt", "WSMT"),
    ]
}

/// What was read for the ACPI probe.
#[derive(Debug)]
pub struct AcpiReadings {
    /// Listing of `/sys/firmware/acpi/tables`.
    pub tables: Listing,
    /// Listing of `/sys/class/iommu`.
    pub iommu: Listing,
    /// Contents of `/sys/power/mem_sleep`.
    pub mem_sleep: TextRead,
}

/// A table with signature `sig` is listed (names compared in upper case).
pub open spec fn has_table(entries: Seq<Option<DirEntry>>, sig: Seq<char>) -> bool {
    exists|i: int|
        0 <= i < entries.len() && (#[trigger] entries[i] matches Some(e) && ascii_upper(
            e.file_name@,
        ) == sig)
}

/// A fully listed, non-empty directory.
pub open spec fn dir_nonempty(l: Listing) -> bool {
    match l {
        Ok(entries) => all_listed(entries@) && entries@.len() > 0,
        Err(_) => false,
    }
}

/// Whether `/sys/power/mem_sleep` offers `s2idle`; `None` when unreadable.
pub open spec fn s2idle(r: TextRead) -> Option<bool> {
    match r {
        Ok(s) => Some(occurs_in("s2idle"@, s@)),
        Err(_) => None,
    }
}

pub open spec fn presence(has: bool, complete: bool, sig: Seq<char>) -> (Status, Seq<char>) {
    if has {
        (Status::Present, "ACPI "@ + sig + " table"@)
    } else if complete {
        (Status::Absent, "no ACPI "@ + sig + " table"@)
    } else {
        (Status::Unknown, "ACPI table enumeration was incomplete"@)
    }
}

pub open spec fn spec_vt_d(entries: Seq<Option<DirEntry>>, iommu: Listing) -> (Status, Seq<char>) {
    if dir_nonempty(iommu) {
        (Status::Enabled, "ACPI DMAR + /sys/class/iommu active"@)
    } else if has_table(entries, "DMAR"@) {
        (Status::Present, "ACPI DMAR table (IOMMU not active)"@)
    } else if all_listed(entries) {
        (Status::Absent, "no ACPI DMAR table"@)
    } else {
        (Status::Unknown, "ACPI table enumeration was incomplete"@)
    }
}

pub open spec fn spec_s0ix(entries: Seq<Option<DirEntry>>, mem_sleep: TextRead) -> (Status, Seq<char>) {
    if s2idle(mem_sleep) == Some(true) {
        (Status::Enabled, "s2idle in /sys/power/mem_sleep"@)
    } else if has_table(entries, "LPIT"@) {
        (Status::Present, "ACPI LPIT table"@)
    } else if all_listed(entries) && s2idle(mem_sleep) == Some(false) {
        (Status::Absent, "no LPIT / s2idle"@)
    } else {
        (Status::Unknown, "ACPI or mem_sleep inspection incomplete"@)
    }
}

pub open spec fn spec_tpm(entries: Seq<Option<DirEntry>>) -> (Status, Seq<char>) {
    if has_table(entries, "TPM2"@) {
        (Status::Present, "TPM 2.0 (ACPI TPM2 table)"@)
    } else if all_listed(entries) {
        (Status::Absent, "no ACPI TPM2 table"@)
    } else {
        (Status::Unknown, "ACPI table enumeration was incomplete"@)
    }
}

pub open spec fn acpi_findings_ok(out: Seq<(&'static str, Detection)>, r: AcpiReadings) -> bool {
    match r.tables {
        Err(e) => all_unknown(out, SRC, acpi_feature_ids(), "cannot inspect ACPI tables: "@ + e.message@),
        Ok(entries) => {
            let es = entries@;
            &&& out.len() == 9
            &&& forall|k: int| 0 <= k < 9 ==> (#[trigger] out[k]).0 == acpi_feature_ids()[k]
            &&& detection_is(out[0].1, SRC, spec_vt_d(es, r.iommu))
            &&& detection_is(out[1].1, SRC, spec_s0ix(es, r.mem_sleep))
            &&& forall|k: int|
                0 <= k < 6 ==> detection_is(
                    (#[trigger] out[k + 2]).1,
                    SRC,
                    presence(
                        has_table(es, presence_table()[k].1@),
                        all_listed(es),
                        presence_table()[k].1@,
                    ),
                )
            &&& detection_is(out[8].1, SRC, spec_tpm(es))
        },
    }
}

pub struct AcpiProbe;

/// Upper-cased name of each listed entry, by position; `None` where an entry could not be read.
fn signatures(entries: &Vec<Option<DirEntry>>) -> (r: (Vec<Option<Vec<char>>>, bool))
    ensures
        r.1 == all_listed(entries@),
        r.0@.len() == entries@.len(),
        forall|j: int|
            0 <= j < entries@.len() ==> match (#[trigger] r.0@[j], entries@[j]) {
                (Some(n), Some(e)) => n@ == ascii_upper(e.file_name@),
                (None, None) => true,
                _ => false,
            },
{
    let mut names: Vec<Option<Vec<char>>> = Vec::new();
    let mut complete = true;
    let mut i: usize = 0;
    while i < entries.len()
        invariant
            i <= entries.len(),
            names@.len() == i,
            complete == (forall|k: int| 0 <= k < i ==> #[trigger] entries@[k] is Some),
            forall|j: int|
                0 <= j < i ==> match (#[trigger] names@[j], entries@[j]) {
                    (Some(n), Some(e)) => n@ == ascii_upper(e.file_name@),
                    (None, None) => true,
                    _ => false,
                },
        decreases entries.len() - i,
    {
        match &entries[i] {
            Some(e) => {
                let c = chars_of(e.file_name.as_str());
                names.push(Some(upper_chars(&c)));
            },
            None => {
                names.push(None);
                complete = false;
            },
        }
        i += 1;
    }
    (names, complete)
}

/// Whether a listed entry carries signature `sig`.
fn has(
    names: &Vec<Option<Vec<char>>>,
    Ghost(entries): Ghost<Seq<Option<DirEntry>>>,
    sig: &str,
) -> (r: bool)
    requires
        names@.len() == entries.len(),
        forall|j: int|
            0 <= j < entries.len() ==> match (#[trigger] names@[j], entries[j]) {
                (Some(n), Some(e)) => n@ == ascii_upper(e.file_name@),
                (None, None) => true,
                _ => false,
            },
    ensures
        r == has_table(entries, sig@),
{
    let s = chars_of(sig);
    let mut j: usize = 0;
    while j < names.len()
        invariant
            j <= names.len() == entries.len(),
            s@ == sig@,
            forall|k: int|
                0 <= k < entries.len() ==> match (#[trigger] names@[k], entries[k]) {
                    (Some(n), Some(e)) => n@ == ascii_upper(e.file_name@),
                    (None, None) => true,
                    _ => false,
                },
            forall|k: int|
                0 <= k < j ==> !(#[trigger] entries[k] matches Some(e) && ascii_upper(e.file_name@)
                    == sig@),
        decreases names.len() - j,
    {
        match &names[j] {
            Some(n) => {
                if chars_eq(n, &s) {
                    assert(entries[j as int] matches Some(e) && ascii_upper(e.file_name@) == sig@);
                    return true;
                }
            },
            None => {},
        }
        j += 1;
    }
    false
}

fn nonempty(l: &Listing) -> (r: bool)
    ensures
        r == dir_nonempty(*l),
{
    match l {
        Err(_) => false,
        Ok(entries) => {
            let mut i: usize = 0;
            while i < entries.len()
                invariant
                    i <= entries.len(),
                    *l == Ok::<Vec<Option<DirEntry>>, crate::probes::IoFailure>(*entries),
                    forall|k: int| 0 <= k < i ==> #[trigger] entries@[k] is Some,
                decreases entries.len() - i,
            {
                if entries[i].is_none() {
                    assert(!all_listed(entries@)) by {
                        assert(!(entries@[i as int] is Some));
                    }
                    return false;
                }
                i += 1;
            }
            entries.len() > 0
        },
    }
}

fn detail(status: Status, text: &str) -> (r: Detection)
    ensures
        detection_is(r, SRC, (status, text@)),
{
    Detection::with_detail(status, SRC, String::from_str(text))
}

fn presence_detection(has: bool, complete: bool, sig: &'static str) -> (r: Detection)
    ensures
        detection_is(r, SRC, presence(has, complete, sig@)),
{
    if has {
        let mut d = String::from_str("ACPI ");
        d.append(sig);
        d.append(" table");
        Detection::with_detail(Status::Present, SRC, d)
    } else if complete {
        let mut d = String::from_str("no ACPI ");
        d.append(sig);
        d.append(" table");
        Detection::with_detail(Status::Absent, SRC, d)
    } else {
        detail(Status::Unknown, "ACPI table enumeration was incomplete")
    }
}

impl Probe for AcpiProbe {
    fn name(&self) -> (r: &'static str)
        ensures
            r == SRC,
    {
        SRC
    }

    fn feature_ids(&self) -> (r: Vec<&'static str>)
        ensures
            r@ == acpi_feature_ids(),
    {
        let r = vec!["vt_d", "s0ix", "pmem", "cxl", "hmat", "hpet", "numa", "wsmt", "tpm"];
        assert(r@ =~= acpi_feature_ids());
        r
    }
}

impl AcpiProbe {
    /// Decide VT-d, S0ix, the table-presence features and TPM 2.0.
    pub fn decide(&self, r: &AcpiReadings) -> (out: Findings)
        ensures
            acpi_findings_ok(out@, *r),
    {
        let entries = match &r.tables {
            Err(e) => {
                let mut d = String::from_str("cannot inspect ACPI tables: ");
                d.append(e.message.as_str());
                return unavailable(SRC, &self.feature_ids(), d.as_str());
            },
            Ok(entries) => entries,
        };
        let (names, complete) = signatures(entries);
        let mut out: Findings = Vec::new();

        // VT-d: DMAR table = platform support; /sys/class/iommu = active.
        let vt_d = if nonempty(&r.iommu) {
            detail(Status::Enabled, "ACPI DMAR + /sys/class/iommu active")
        } else if has(&names, Ghost(entries@), "DMAR") {
            detail(Status::Present, "ACPI DMAR table (IOMMU not active)")
        } else if complete {
            detail(Status::Absent, "no ACPI DMAR table")
        } else {
            detail(Status::Unknown, "ACPI table enumeration was incomplete")
        };
        out.push(("vt_d", vt_d));

        // S0ix: LPIT table and/or s2idle offered by the kernel.
        let s2 = match &r.mem_sleep {
            Ok(s) => Some(str_contains(s.as_str(), "s2idle")),
            Err(_) => None,
        };
        let s0ix = if s2 == Some(true) {
            detail(Status::Enabled, "s2idle in /sys/power/mem_sleep")
        } else if has(&names, Ghost(entries@), "LPIT") {
            detail(Status::Present, "ACPI LPIT table")
        } else if complete && s2 == Some(false) {
            detail(Status::Absent, "no LPIT / s2idle")
        } else {
            detail(Status::Unknown, "ACPI or mem_sleep inspection incomplete")
        };
        out.push(("s0ix", s0ix));

        // Pure table-presence signals.
        let table = vec![
            ("pmem", "NFIT"),
            ("cxl", "CEDT"),
            ("hmat", "HMAT"),
            ("hpet", "HPET"),
            ("numa", "SRAT"),
            ("wsmt", "WSMT"),
        ];
        assert(table@ =~= presence_table());
        let mut k: usize = 0;
        while k < table.len()
            invariant
                k <= table.len() == 6,
                table@ == presence_table(),
                out@.len() == 2 + k,
                r.tables == Ok::<Vec<Option<DirEntry>>, crate::probes::IoFailure>(*entries),
                complete == all_listed(entries@),
                names@.len() == entries@.len(),
                forall|j: int|
                    0 <= j < entries@.len() ==> match (#[trigger] names@[j], entries@[j]) {
                        (Some(n), Some(e)) => n@ == ascii_upper(e.file_name@),
                        (None, None) => true,
                        _ => false,
                    },
                forall|m: int|
                    0 <= m < k ==> (#[trigger] out@[m + 2]).0 == presence_table()[m].0
                        && detection_is(
                        out@[m + 2].1,
                        SRC,
                        presence(
                            has_table(entries@, presence_table()[m].1@),
                            all_listed(entries@),
                            presence_table()[m].1@,
                        ),
                    ),
                out@[0].0 == "vt_d",
                detection_is(out@[0].1, SRC, spec_vt_d(entries@, r.iommu)),
                out@[1].0 == "s0ix",
                detection_is(out@[1].1, SRC, spec_s0ix(entries@, r.mem_sleep)),
            decreases table.len() - k,
        {
            let (feature, sig) = table[k];
            let h = has(&names, Ghost(entries@), sig);
            out.push((feature, presence_detection(h, complete, sig)));
            k += 1;
        }

        // TPM 2.0: the TPM2 table names the version.
        let tpm = if has(&names, Ghost(entries@), "TPM2") {
            detail(Status::Present, "TPM 2.0 (ACPI TPM2 table)")
        } else if complete {
            detail(Status::Absent, "no ACPI TPM2 table")
        } else {
            detail(Status::Unknown, "ACPI table enumeration was incomplete")
        };
        out.push(("tpm", tpm));
        assert(out@[0].0 == acpi_feature_ids()[0]);
        assert(out@[8].0 == acpi_feature_ids()[8]);
        assert forall|m: int| 0 <= m < 9 implies (#[trigger] out@[m]).0 == acpi_feature_ids()[m] by {
            if 2 <= m < 8 {
                assert(out@[(m - 2) + 2].0 == presence_table()[m - 2].0);
            }
        }
        out
    }
}

// ---- laws -------------------------------------------------------------------------------

/// Which ACPI table decides which feature: DMAR the VT-d IOMMU, LPIT S0ix, NFIT
/// persistent memory, CEDT CXL, HMAT the memory attributes table, HPET the event timer,
/// SRAT NUMA, WSMT the SMM mitigations table and TPM2 the TPM. Once the tables were
/// listed, each presence feature is `Present` exactly when its table is there.
pub proof fn acpi_table_signatures(out: Seq<(&'static str, Detection)>, r: AcpiReadings)
    requires
        acpi_findings_ok(out, r),
        r.tables is Ok,
    ensures
        out[0].0 == "vt_d" && (has_table(r.tables->Ok_0@, "DMAR"@) ==> out[0].1.status == Status::Present
            || out[0].1.status == Status::Enabled),
        out[1].0 == "s0ix" && (has_table(r.tables->Ok_0@, "LPIT"@) ==> out[1].1.status == Status::Present
            || out[1].1.status == Status::Enabled),
        out[2].0 == "pmem" && (out[2].1.status == Status::Present <==> has_table(
            r.tables->Ok_0@,
            "NFIT"@,
        )),
        out[3].0 == "cxl" && (out[3].1.status == Status::Present <==> has_table(
            r.tables->Ok_0@,
            "CEDT"@,
        )),
        out[4].0 == "hmat" && (out[4].1.status == Status::Present <==> has_table(
            r.tables->Ok_0@,
            "HMAT"@,
        )),
        out[5].0 == "hpet" && (out[5].1.status == Status::Present <==> has_table(
            r.tables->Ok_0@,
            "HPET"@,
        )),
        out[6].0 == "numa" && (out[6].1.status == Status::Present <==> has_table(
            r.tables->Ok_0@,
            "SRAT"@,
        )),
        out[7].0 == "wsmt" && (out[7].1.status == Status::Present <==> has_table(
            r.tables->Ok_0@,
            "WSMT"@,
        )),
        out[8].0 == "tpm" && (out[8].1.status == Status::Present <==> has_table(r.tables->Ok_0@, "TPM2"@)),
{
    let es = r.tables->Ok_0@;
    assert(detection_is(
        out[0int + 2].1,
        SRC,
        presence(has_table(es, presence_table()[0int].1@), all_listed(es), presence_table()[0int].1@),
    ));
    assert(detection_is(
        out[1int + 2].1,
        SRC,
        presence(has_table(es, presence_table()[1int].1@), all_listed(es), presence_table()[1int].1@),
    ));
    assert(detection_is(
        out[2int + 2].1,
        SRC,
        presence(has_table(es, presence_table()[2int].1@), all_listed(es), presence_table()[2int].1@),
    ));
    assert(detection_is(
        out[3int + 2].1,
        SRC,
        presence(has_table(es, presence_table()[3int].1@), all_listed(es), presence_table()[3int].1@),
    ));
    assert(detection_is(
        out[4int + 2].1,
        SRC,
        presence(has_table(es, presence_table()[4int].1@), all_listed(es), presence_table()[4int].1@),
    ));
    assert(detection_is(
        out[5int + 2].1,
        SRC,
        presence(has_table(es, presence_table()[5int].1@), all_listed(es), presence_table()[5int].1@),
    ));
}

/// ACPI reports a feature `Absent` only after listing every table.
pub proof fn acpi_absence_needs_full_listing(
    out: Seq<(&'static str, Detection)>,
    r: AcpiReadings,
    k: int,
)
    requires
        acpi_findings_ok(out, r),
        0 <= k < out.len(),
        out[k].1.status == Status::Absent,
    ensures
        r.tables matches Ok(entries) && all_listed(entries@),
{
    match r.tables {
        Err(e) => {
            assert(crate::probes::is_unknown_finding(
                out[k],
                acpi_feature_ids()[k],
                SRC,
                "cannot inspect ACPI tables: "@ + e.message@,
            ));
        },
        Ok(entries) => {
            if 2 <= k < 8 {
                assert(detection_is(
                    out[(k - 2) + 2].1,
                    SRC,
                    presence(
                        has_table(entries@, presence_table()[k - 2].1@),
                        all_listed(entries@),
                        presence_table()[k - 2].1@,
                    ),
                ));
            }
        },
    }
}

} // verus!
