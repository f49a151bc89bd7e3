//! Core data model shared by every probe and the reporter.
//!
//! "The silicon supports X", "the firmware/BIOS enabled X" and "the OS is using X" are
//! different answers, so a single feature collects several [`Detection`]s from
//! different probes, each reporting from its own vantage point.

use vstd::prelude::*;

verus! {

/// Outcome of a single probe looking at a single feature.
///
/// Precedence (see [`Status::rank`]) decides the headline status when a feature has
/// several detections: an explicit `Enabled`/`Disabled` (a firmware/OS fact) outranks a
/// bare `Present` (a silicon fact), which outranks `Absent`.
#[derive(Debug, Clone, Copy, PartialEq, Eq, Structural)]
pub enum Status {
    /// Present in silicon *and* actively turned on.
    Enabled,
    /// Present in silicon but turned off (firmware/OS/microcode).
    Disabled,
    /// Capability exists; enablement not determined by this probe.
    Present,
    /// Capability does not exist.
    Absent,
    /// Could not be determined (insufficient privilege, missing interface, ...).
    Unknown,
}

pub open spec fn status_rank(s: Status) -> nat {
    match s {
        Status::Enabled => 5,
        Status::Disabled => 4,
        Status::Present => 3,
        Status::Absent => 2,
        Status::Unknown => 1,
    }
}

pub open spec fn status_label(s: Status) -> Seq<char> {
    match s {
        Status::Enabled => "enabled"@,
        Status::Disabled => "disabled"@,
        Status::Present => "present"@,
        Status::Absent => "absent"@,
        Status::Unknown => "unknown"@,
    }
}

pub open spec fn status_glyph(s: Status) -> Seq<char> {
    match s {
        Status::Enabled => "✓"@,
        Status::Disabled => "✗"@,
        Status::Present => "•"@,
        Status::Absent => "·"@,
        Status::Unknown => "?"@,
    }
}

pub open spec fn status_color(s: Status) -> Seq<char> {
    match s {
        Status::Enabled => "32"@,
        Status::Present => "36"@,
        Status::Disabled => "33"@,
        Status::Absent => "90"@,
        Status::Unknown => "90"@,
    }
}

impl Status {
    /// Higher rank = more authoritative / more informative for the headline.
    pub fn rank(self) -> (r: u8)
        ensures
            r as nat == status_rank(self),
    {
        match self {
            Status::Enabled => 5,
            Status::Disabled => 4,
            Status::Present => 3,
            Status::Absent => 2,
            Status::Unknown => 1,
        }
    }

    /// Short human label.
    pub fn label(self) -> (r: &'static str)
        ensures
            r@ == status_label(self),
    {
        match self {
            Status::Enabled => "enabled",
            Status::Disabled => "disabled",
            Status::Present => "present",
            Status::Absent => "absent",
            Status::Unknown => "unknown",
        }
    }

    /// Glyph used in text output.
    pub fn glyph(self) -> (r: &'static str)
        ensures
            r@ == status_glyph(self),
    {
        match self {
            Status::Enabled => "✓",
            Status::Disabled => "✗",
            Status::Present => "•",
            Status::Absent => "·",
            Status::Unknown => "?",
        }
    }

    /// ANSI SGR color code (foreground) for text output.
    pub fn color(self) -> (r: &'static str)
        ensures
            r@ == status_color(self),
    {
        match self {
            Status::Enabled => "32",
            Status::Present => "36",
            Status::Disabled => "33",
            Status::Absent => "90",
            Status::Unknown => "90",
        }
    }
}

/// Ranks order the statuses strictly: two statuses of equal rank are equal, and the
/// order is Enabled > Disabled > Present > Absent > Unknown.
pub proof fn rank_is_strict_order(a: Status, b: Status)
    ensures
        status_rank(a) == status_rank(b) <==> a == b,
        status_rank(Status::Enabled) > status_rank(Status::Disabled),
        status_rank(Status::Disabled) > status_rank(Status::Present),
        status_rank(Status::Present) > status_rank(Status::Absent),
        status_rank(Status::Absent) > status_rank(Status::Unknown),
{
}

/// One probe's finding about one feature.
#[derive(Debug)]
pub struct Detection {
    pub status: Status,
    /// Name of the probe/mechanism that produced this finding (e.g. `"cpuid"`).
    pub source: &'static str,
    /// Optional human note: how it was found, or why it is unknown.
    pub detail: Option<String>,
}

impl Clone for Detection {
    fn clone(&self) -> (r: Self)
        ensures
            r == *self,
    {
        Detection {
            status: self.status,
            source: self.source,
            detail: match &self.detail {
                Some(d) => Some(d.clone()),
                None => None,
            },
        }
    }
}

impl Detection {
    pub fn new(status: Status, source: &'static str) -> (r: Detection)
        ensures
            r.status == status,
            r.source == source,
            r.detail is None,
    {
        Detection { status, source, detail: None }
    }

    pub fn with_detail(status: Status, source: &'static str, detail: String) -> (r: Detection)
        ensures
            r.status == status,
            r.source == source,
            r.detail == Some(detail),
    {
        Detection { status, source, detail: Some(detail) }
    }
}

/// Privilege required by a probe / feature check.
#[derive(Debug, Clone, Copy, PartialEq, Eq, Structural)]
pub enum Privilege {
    /// Ring 3, no special access (CPUID, most of sysfs/procfs).
    User,
    /// Needs root (MSRs, some PCI config space, ...).
    Root,
}

/// Top-level grouping for the report. Ordering here is display ordering.
#[derive(Debug, Clone, Copy, PartialEq, Eq, Structural)]
pub enum Category {
    Isa,
    Security,
    Vulnerabilities,
    ArchCapabilities,
    Virtualization,
    Power,
    Topology,
    Perf,
    Rdt,
    Accelerators,
    Platform,
    Firmware,
}

/// Display order of the categories.
pub open spec fn category_order() -> Seq<Category> {
    seq![
        Category::Isa,
        Category::Security,
        Category::Vulnerabilities,
        Category::ArchCapabilities,
        Category::Virtualization,
        Category::Power,
        Category::Topology,
        Category::Perf,
        Category::Rdt,
        Category::Accelerators,
        Category::Platform,
        Category::Firmware,
    ]
}

pub open spec fn category_title(c: Category) -> Seq<char> {
    match c {
        Category::Isa => "Instruction Set Extensions"@,
        Category::Security => "Security"@,
        Category::Vulnerabilities => "CPU Vulnerabilities & Mitigations"@,
        Category::ArchCapabilities => "Architectural Capabilities (IA32_ARCH_CAPABILITIES)"@,
        Category::Virtualization => "Virtualization"@,
        Category::Power => "Power & Thermal"@,
        Category::Topology => "Topology"@,
        Category::Perf => "Performance Monitoring & Trace"@,
        Category::Rdt => "Resource Director Technology"@,
        Category::Accelerators => "On-SoC Accelerators"@,
        Category::Platform => "Chipset & Platform Devices"@,
        Category::Firmware => "Platform & Firmware"@,
    }
}

/// Every category occurs exactly once in the display order.
pub proof fn category_order_is_complete(c: Category)
    ensures
        exists|k: int| 0 <= k < category_order().len() && category_order()[k] == c,
        forall|i: int, j: int|
            0 <= i < j < category_order().len() ==> category_order()[i] != category_order()[j],
{
    let o = category_order();
    match c {
        Category::Isa => assert(o[0] == c),
        Category::Security => assert(o[1] == c),
        Category::Vulnerabilities => assert(o[2] == c),
        Category::ArchCapabilities => assert(o[3] == c),
        Category::Virtualization => assert(o[4] == c),
        Category::Power => assert(o[5] == c),
        Category::Topology => assert(o[6] == c),
        Category::Perf => assert(o[7] == c),
        Category::Rdt => assert(o[8] == c),
        Category::Accelerators => assert(o[9] == c),
        Category::Platform => assert(o[10] == c),
        Category::Firmware => assert(o[11] == c),
    }
}

impl Category {
    /// Display order.
    pub fn order() -> (r: Vec<Category>)
        ensures
            r@ == category_order(),
    {
        let r = vec![
            Category::Isa,
            Category::Security,
            Category::Vulnerabilities,
            Category::ArchCapabilities,
            Category::Virtualization,
            Category::Power,
            Category::Topology,
            Category::Perf,
            Category::Rdt,
            Category::Accelerators,
            Category::Platform,
            Category::Firmware,
        ];
        assert(r@ =~= category_order());
        r
    }

    pub fn title(self) -> (r: &'static str)
        ensures
            r@ == category_title(self),
    {
        match self {
            Category::Isa => "Instruction Set Extensions",
            Category::Security => "Security",
            Category::Vulnerabilities => "CPU Vulnerabilities & Mitigations",
            Category::ArchCapabilities => "Architectural Capabilities (IA32_ARCH_CAPABILITIES)",
            Category::Virtualization => "Virtualization",
            Category::Power => "Power & Thermal",
            Category::Topology => "Topology",
            Category::Perf => "Performance Monitoring & Trace",
            Category::Rdt => "Resource Director Technology",
            Category::Accelerators => "On-SoC Accelerators",
            Category::Platform => "Chipset & Platform Devices",
            Category::Firmware => "Platform & Firmware",
        }
    }
}

/// How strongly a CPU family/model class is associated with a feature.
#[derive(Debug, Clone, Copy, PartialEq, Eq, Structural)]
pub enum ClassExpectation {
    /// Every member of the recognized class is expected to provide the feature.
    Expected,
    /// Some SKUs or platform configurations in the class provide the feature.
    Possible,
}

/// Static definition of a feature the tool knows how to look for.
///
/// This is metadata only: the actual answer comes from probes at runtime, keyed by
/// [`FeatureDef::id`].
#[derive(Debug, Clone, Copy)]
pub struct FeatureDef {
    /// Stable machine-readable id, e.g. `"avx2"`. Probes emit detections keyed by this.
    pub id: &'static str,
    /// Human display name, e.g. `"AVX2"`.
    pub name: &'static str,
    pub category: Category,
    /// What the feature is for / its notable instructions.
    pub description: &'static str,
    /// Minimum privilege needed to fully determine this feature.
    pub min_privilege: Privilege,
    /// Name of the corroborating `/proc/cpuinfo` flag, when the kernel has one.
    pub cpuinfo_flag: Option<&'static str>,
    /// Value features render the winning detection's detail inline.
    pub inline_detail: bool,
}

} // verus!
