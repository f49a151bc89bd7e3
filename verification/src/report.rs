//! Aggregation: folds the per-feature detections gathered from all probes against the
//! catalog into a [`Report`]. Rendering lives in [`render`].

pub mod render;

use vstd::prelude::*;

use crate::catalog::{catalog, features, spec_find};
use crate::cpu_db::spec_feature_expectation;
use crate::model::{
    category_order, category_title, status_rank, Category, ClassExpectation, Detection,
    FeatureDef, Privilege, Status,
};
use crate::probes::cpuid::Identity;
use crate::probes::firmware::SystemInfo;
use crate::text::str_eq;

verus! {

/// Name of the tool, as reported in the banner and the JSON output.
pub const TOOL: &'static str = "intel-features";

/// Version of the tool.
pub const VERSION: &'static str = "0.1.0";

/// Detections gathered per feature id, in probe run order.
pub type Results = Vec<(&'static str, Vec<Detection>)>;

/// Per-feature rolled-up result.
#[derive(Debug)]
pub struct FeatureReport {
    pub id: &'static str,
    pub name: &'static str,
    pub category: Category,
    pub description: &'static str,
    /// Headline status: the highest-ranked detection (see [`Status::rank`]).
    pub status: Status,
    /// Relationship to the recognized CPU family/model class, when known.
    pub class_expectation: Option<ClassExpectation>,
    /// A warning derived from status, cross-probe evidence, and class expectation.
    pub attention: Option<FeatureAttention>,
    /// Every probe's finding for this feature, in probe run order.
    pub detections: Vec<Detection>,
    /// Render the winning detection's detail inline instead of the probe names.
    pub inline_detail: bool,
}

/// Why a feature deserves attention beyond its literal probe status.
#[derive(Debug, Clone, Copy, PartialEq, Eq, Structural)]
pub enum FeatureAttention {
    /// Silicon reports the feature but the kernel does not expose it.
    Masked,
    /// The feature belongs to the class but is absent on this machine.
    ExpectedMissing,
    /// The feature belongs to the class but is explicitly disabled.
    ExpectedDisabled,
    /// Some members/configurations of the class offer it, but it is absent here.
    PossibleMissing,
    /// Some members/configurations of the class offer it, but it is disabled here.
    PossibleDisabled,
}

#[derive(Debug)]
pub struct CategoryReport {
    pub category: Category,
    pub title: &'static str,
    pub features: Vec<FeatureReport>,
}

#[derive(Debug)]
pub struct Report {
    pub tool: &'static str,
    pub version: &'static str,
    pub privilege: Privilege,
    pub identity: Option<Identity>,
    pub system: Option<SystemInfo>,
    pub categories: Vec<CategoryReport>,
    /// Conflicts and silicon-vs-kernel disparities found while folding the detections.
    pub notes: Vec<String>,
}

/// Rendering knobs for text output.
#[derive(Debug, Clone, Copy)]
pub struct TextOptions {
    pub color: bool,
    /// Show each probe's status + detail line under the feature.
    pub verbose: bool,
    /// Hide features whose headline status is `Absent`.
    pub hide_absent: bool,
}

#[derive(Debug, PartialEq, Eq)]
pub enum ReportError {
    UnknownFeatureId(&'static str),
}

impl ReportError {
    /// Human description, e.g. `unknown feature id "x"`.
    pub fn message(&self) -> (r: String)
        ensures
            r@ == spec_error_message(*self),
    {
        match self {
            ReportError::UnknownFeatureId(id) => {
                let mut s = String::from_str("unknown feature id ");
                let q = crate::text::debug_quoted(id);
                s.append(q.as_str());
                s
            },
        }
    }
}

pub open spec fn spec_error_message(e: ReportError) -> Seq<char> {
    match e {
        ReportError::UnknownFeatureId(id) => "unknown feature id "@ + crate::text::debug_str(id@),
    }
}

// ---------------------------------------------------------------------------------
// Specification of the fold
// ---------------------------------------------------------------------------------

/// All detections reported for `id`, in the order given.
pub open spec fn detections_for(results: Seq<(&'static str, Vec<Detection>)>, id: Seq<char>) -> Seq<
    Detection,
>
    decreases results.len(),
{
    if results.len() == 0 {
        Seq::<Detection>::empty()
    } else {
        let prev = detections_for(results.drop_last(), id);
        if results.last().0@ == id {
            prev + results.last().1@
        } else {
            prev
        }
    }
}

pub open spec fn has_status(dets: Seq<Detection>, s: Status) -> bool {
    exists|i: int| 0 <= i < dets.len() && #[trigger] dets[i].status == s
}

/// The highest-ranked status of `dets`; `Unknown` when there are none.
pub open spec fn max_rank_status(dets: Seq<Detection>) -> Status
    decreases dets.len(),
{
    if dets.len() == 0 {
        Status::Unknown
    } else {
        let m = max_rank_status(dets.drop_last());
        if status_rank(dets.last().status) >= status_rank(m) {
            dets.last().status
        } else {
            m
        }
    }
}

/// A probe's `Enabled` contradicted by another's `Disabled`.
pub open spec fn conflicting(dets: Seq<Detection>) -> bool {
    has_status(dets, Status::Enabled) && has_status(dets, Status::Disabled)
}

/// Headline status of a feature: unknown on conflict, else the highest-ranked detection.
pub open spec fn headline(dets: Seq<Detection>) -> Status {
    if conflicting(dets) {
        Status::Unknown
    } else {
        max_rank_status(dets)
    }
}

/// Status of the first detection from `source`.
pub open spec fn first_status(dets: Seq<Detection>, source: Seq<char>) -> Option<Status>
    decreases dets.len(),
{
    if dets.len() == 0 {
        None
    } else {
        match first_status(dets.drop_last(), source) {
            Some(s) => Some(s),
            None => if dets.last().source@ == source {
                Some(dets.last().status)
            } else {
                None
            },
        }
    }
}

pub open spec fn is_present(s: Status) -> bool {
    s == Status::Present || s == Status::Enabled
}

pub open spec fn spec_disparity_note(name: Seq<char>, dets: Seq<Detection>) -> Option<Seq<char>> {
    match (first_status(dets, "cpuid"@), first_status(dets, "procfs"@)) {
        (Some(cpuid), Some(procfs)) => if is_present(cpuid) && procfs == Status::Absent {
            Some(
                name
                    + ": CPUID reports present, but absent from /proc/cpuinfo (masked/firmware-disabled, or kernel too old)"@,
            )
        } else if cpuid == Status::Absent && is_present(procfs) {
            Some(
                name
                    + ": present in /proc/cpuinfo but CPUID probe reports absent (CPUID decode gap — please report)"@,
            )
        } else {
            None
        },
        _ => None,
    }
}

pub open spec fn conflict_note(name: Seq<char>) -> Seq<char> {
    name + ": conflicting enabled and disabled detections; headline set to unknown"@
}

/// Some detection from `source` has a status satisfying `present`-ness (`want_present`)
/// or equal to `Absent` (otherwise).
pub open spec fn source_says(dets: Seq<Detection>, source: Seq<char>, want_present: bool) -> bool {
    exists|i: int|
        0 <= i < dets.len() && #[trigger] dets[i].source@ == source && (if want_present {
            is_present(dets[i].status)
        } else {
            dets[i].status == Status::Absent
        })
}

pub open spec fn spec_attention(
    status: Status,
    dets: Seq<Detection>,
    class: Option<ClassExpectation>,
) -> Option<FeatureAttention> {
    if source_says(dets, "cpuid"@, true) && source_says(dets, "procfs"@, false) {
        Some(FeatureAttention::Masked)
    } else {
        match (class, status) {
            (Some(ClassExpectation::Expected), Status::Absent) => Some(
                FeatureAttention::ExpectedMissing,
            ),
            (Some(ClassExpectation::Expected), Status::Disabled) => Some(
                FeatureAttention::ExpectedDisabled,
            ),
            (Some(ClassExpectation::Possible), Status::Absent) => Some(
                FeatureAttention::PossibleMissing,
            ),
            (Some(ClassExpectation::Possible), Status::Disabled) => Some(
                FeatureAttention::PossibleDisabled,
            ),
            _ => None,
        }
    }
}

pub open spec fn class_expectation_of(identity: Option<Identity>, id: Seq<char>) -> Option<
    ClassExpectation,
> {
    match identity {
        Some(i) => spec_feature_expectation(i.vendor@, i.family, i.model, id),
        None => None,
    }
}

/// The catalog entries of category `c`, in catalog order.
pub open spec fn defs_in(defs: Seq<FeatureDef>, c: Category) -> Seq<FeatureDef>
    decreases defs.len(),
{
    if defs.len() == 0 {
        Seq::<FeatureDef>::empty()
    } else {
        let prev = defs_in(defs.drop_last(), c);
        if defs.last().category == c {
            prev.push(defs.last())
        } else {
            prev
        }
    }
}

/// The notes one feature contributes: a conflict note, then a disparity note.
pub open spec fn feature_notes(def: FeatureDef, dets: Seq<Detection>) -> Seq<Seq<char>> {
    (if conflicting(dets) {
        seq![conflict_note(def.name@)]
    } else {
        Seq::<Seq<char>>::empty()
    }) + match spec_disparity_note(def.name@, dets) {
        Some(n) => seq![n],
        None => Seq::<Seq<char>>::empty(),
    }
}

pub open spec fn notes_for_defs(
    defs: Seq<FeatureDef>,
    results: Seq<(&'static str, Vec<Detection>)>,
) -> Seq<Seq<char>>
    decreases defs.len(),
{
    if defs.len() == 0 {
        Seq::<Seq<char>>::empty()
    } else {
        notes_for_defs(defs.drop_last(), results) + feature_notes(
            defs.last(),
            detections_for(results, defs.last().id@),
        )
    }
}

pub open spec fn notes_for_categories(
    cats: Seq<Category>,
    results: Seq<(&'static str, Vec<Detection>)>,
) -> Seq<Seq<char>>
    decreases cats.len(),
{
    if cats.len() == 0 {
        Seq::<Seq<char>>::empty()
    } else {
        notes_for_categories(cats.drop_last(), results) + notes_for_defs(
            defs_in(catalog(), cats.last()),
            results,
        )
    }
}

/// `fr` is the roll-up of catalog entry `def`.
pub open spec fn feature_report_ok(
    fr: FeatureReport,
    def: FeatureDef,
    results: Seq<(&'static str, Vec<Detection>)>,
    identity: Option<Identity>,
) -> bool {
    &&& fr.id == def.id
    &&& fr.name == def.name
    &&& fr.category == def.category
    &&& fr.description == def.description
    &&& fr.inline_detail == def.inline_detail
    &&& fr.detections@ == detections_for(results, def.id@)
    &&& fr.status == headline(fr.detections@)
    &&& fr.class_expectation == class_expectation_of(identity, def.id@)
    &&& fr.attention == spec_attention(fr.status, fr.detections@, fr.class_expectation)
}

pub open spec fn category_report_ok(
    cr: CategoryReport,
    c: Category,
    results: Seq<(&'static str, Vec<Detection>)>,
    identity: Option<Identity>,
) -> bool {
    let defs = defs_in(catalog(), c);
    &&& cr.category == c
    &&& cr.title@ == category_title(c)
    &&& cr.features@.len() == defs.len()
    &&& forall|j: int|
        0 <= j < defs.len() ==> #[trigger] feature_report_ok(
            cr.features@[j],
            defs[j],
            results,
            identity,
        )
}

pub open spec fn notes_view(notes: Seq<String>) -> Seq<Seq<char>> {
    notes.map_values(|n: String| n@)
}

/// `r` is the fold of `results` against the catalog.
pub open spec fn report_ok(
    r: Report,
    results: Seq<(&'static str, Vec<Detection>)>,
    identity: Option<Identity>,
    system: Option<SystemInfo>,
    privilege: Privilege,
) -> bool {
    &&& r.tool@ == TOOL@
    &&& r.version@ == VERSION@
    &&& r.privilege == privilege
    &&& r.identity == identity
    &&& r.system == system
    &&& r.categories@.len() == category_order().len()
    &&& forall|k: int|
        0 <= k < category_order().len() ==> #[trigger] category_report_ok(
            r.categories@[k],
            category_order()[k],
            results,
            identity,
        )
    &&& notes_view(r.notes@) == notes_for_categories(category_order(), results)
}

/// Every id that `results` is keyed by names a catalog feature.
pub open spec fn all_ids_known(results: Seq<(&'static str, Vec<Detection>)>) -> bool {
    forall|k: int| 0 <= k < results.len() ==> #[trigger] spec_find(results[k].0@) is Some
}

// ---------------------------------------------------------------------------------
// Laws of the fold
// ---------------------------------------------------------------------------------

/// The headline of a feature without conflicting detections is the status of one of
/// its detections, and no detection outranks it; with no detections it is `Unknown`.
pub proof fn headline_is_highest_ranked(dets: Seq<Detection>)
    ensures
        dets.len() == 0 ==> headline(dets) == Status::Unknown,
        conflicting(dets) ==> headline(dets) == Status::Unknown,
        !conflicting(dets) && dets.len() > 0 ==> has_status(dets, headline(dets)),
        !conflicting(dets) ==> forall|i: int|
            0 <= i < dets.len() ==> status_rank(#[trigger] dets[i].status) <= status_rank(
                headline(dets),
            ),
    decreases dets.len(),
{
    lemma_max_rank(dets);
}

proof fn lemma_max_rank(dets: Seq<Detection>)
    ensures
        dets.len() > 0 ==> has_status(dets, max_rank_status(dets)),
        forall|i: int|
            0 <= i < dets.len() ==> status_rank(#[trigger] dets[i].status) <= status_rank(
                max_rank_status(dets),
            ),
    decreases dets.len(),
{
    if dets.len() > 0 {
        let p = dets.drop_last();
        lemma_max_rank(p);
        assert forall|i: int| 0 <= i < p.len() implies #[trigger] p[i] == dets[i] by {}
        if status_rank(dets.last().status) >= status_rank(max_rank_status(p)) {
            assert(dets[dets.len() - 1].status == max_rank_status(dets));
        } else {
            let i = choose|i: int| 0 <= i < p.len() && #[trigger] p[i].status == max_rank_status(p);
            assert(dets[i].status == max_rank_status(dets));
        }
        assert forall|i: int| 0 <= i < dets.len() implies status_rank(
            #[trigger] dets[i].status,
        ) <= status_rank(max_rank_status(dets)) by {
            if i < p.len() {
                assert(p[i] == dets[i]);
            }
        }
    }
}

/// Detections of another feature do not affect a feature's detections.
pub proof fn detections_are_keyed_by_id(
    results: Seq<(&'static str, Vec<Detection>)>,
    id: &'static str,
    dets: Vec<Detection>,
    other: Seq<char>,
)
    requires
        id@ != other,
    ensures
        detections_for(results.push((id, dets)), other) == detections_for(results, other),
        detections_for(results.push((id, dets)), id@) == detections_for(results, id@) + dets@,
{
    assert(results.push((id, dets)).drop_last() =~= results);
}

/// Simultaneous `Enabled` and `Disabled` findings make the headline `Unknown` and put a
/// conflict note first among the feature's notes.
pub proof fn conflict_is_unknown_and_noted(def: FeatureDef, dets: Seq<Detection>)
    requires
        has_status(dets, Status::Enabled),
        has_status(dets, Status::Disabled),
    ensures
        headline(dets) == Status::Unknown,
        feature_notes(def, dets).len() >= 1,
        feature_notes(def, dets)[0] == conflict_note(def.name@),
{
}

/// Number of catalog entries the categories `cats` hold between them.
pub open spec fn category_total(defs: Seq<FeatureDef>, cats: Seq<Category>) -> nat
    decreases cats.len(),
{
    if cats.len() == 0 {
        0
    } else {
        category_total(defs, cats.drop_last()) + defs_in(defs, cats.last()).len()
    }
}

/// How often `c` occurs in `cats`.
pub open spec fn occurrences(cats: Seq<Category>, c: Category) -> nat
    decreases cats.len(),
{
    if cats.len() == 0 {
        0
    } else {
        occurrences(cats.drop_last(), c) + if cats.last() == c {
            1nat
        } else {
            0nat
        }
    }
}

proof fn lemma_total_push(defs: Seq<FeatureDef>, cats: Seq<Category>)
    requires
        defs.len() > 0,
    ensures
        category_total(defs, cats) == category_total(defs.drop_last(), cats) + occurrences(
            cats,
            defs.last().category,
        ),
    decreases cats.len(),
{
    if cats.len() > 0 {
        lemma_total_push(defs, cats.drop_last());
    }
}

proof fn lemma_occurs_once(cats: Seq<Category>, c: Category)
    requires
        exists|k: int| 0 <= k < cats.len() && cats[k] == c,
        forall|i: int, j: int| 0 <= i < j < cats.len() ==> cats[i] != cats[j],
    ensures
        occurrences(cats, c) == 1,
    decreases cats.len(),
{
    let p = cats.drop_last();
    if cats.last() == c {
        assert(forall|k: int| 0 <= k < p.len() ==> p[k] == cats[k]);
        lemma_occurs_never(p, c);
    } else {
        let k = choose|k: int| 0 <= k < cats.len() && cats[k] == c;
        assert(p[k] == c);
        assert(forall|i: int, j: int| 0 <= i < j < p.len() ==> p[i] == cats[i] && p[j] == cats[j]);
        lemma_occurs_once(p, c);
    }
}

proof fn lemma_occurs_never(cats: Seq<Category>, c: Category)
    requires
        forall|k: int| 0 <= k < cats.len() ==> cats[k] != c,
    ensures
        occurrences(cats, c) == 0,
    decreases cats.len(),
{
    if cats.len() > 0 {
        let p = cats.drop_last();
        assert(forall|k: int| 0 <= k < p.len() ==> p[k] == cats[k]);
        lemma_occurs_never(p, c);
    }
}

proof fn lemma_total_is_len(defs: Seq<FeatureDef>)
    ensures
        category_total(defs, category_order()) == defs.len(),
    decreases defs.len(),
{
    if defs.len() == 0 {
        lemma_total_empty(defs, category_order());
    } else {
        lemma_total_is_len(defs.drop_last());
        lemma_total_push(defs, category_order());
        crate::model::category_order_is_complete(defs.last().category);
        lemma_occurs_once(category_order(), defs.last().category);
    }
}

proof fn lemma_total_empty(defs: Seq<FeatureDef>, cats: Seq<Category>)
    requires
        defs.len() == 0,
    ensures
        category_total(defs, cats) == 0,
    decreases cats.len(),
{
    if cats.len() > 0 {
        lemma_total_empty(defs, cats.drop_last());
    }
}

/// The report's categories, taken in display order, hold every catalog feature exactly
/// once: their sizes add up to the catalog's.
pub proof fn every_feature_in_one_category()
    ensures
        category_total(catalog(), category_order()) == catalog().len(),
{
    lemma_total_is_len(catalog());
}

// ---------------------------------------------------------------------------------
// Executable fold
// ---------------------------------------------------------------------------------

/// All detections of `results` keyed by `id`.
pub fn collect_detections(results: &Results, id: &str) -> (r: Vec<Detection>)
    ensures
        r@ == detections_for(results@, id@),
{
    let mut out: Vec<Detection> = Vec::new();
    let mut i: usize = 0;
    assert(results@.take(0) =~= Seq::<(&'static str, Vec<Detection>)>::empty());
    while i < results.len()
        invariant
            i <= results.len(),
            out@ == detections_for(results@.take(i as int), id@),
        decreases results.len() - i,
    {
        assert(results@.take(i + 1).drop_last() =~= results@.take(i as int));
        let (key, dets) = &results[i];
        if str_eq(key, id) {
            let ghost before = out@;
            let mut j: usize = 0;
            while j < dets.len()
                invariant
                    j <= dets.len(),
                    out@ == before + dets@.take(j as int),
                decreases dets.len() - j,
            {
                out.push(dets[j].clone());
                j += 1;
                assert(out@ =~= before + dets@.take(j as int));
            }
            assert(dets@.take(j as int) =~= dets@);
        }
        i += 1;
    }
    assert(results@.take(i as int) =~= results@);
    out
}

/// Whether some detection has status `s`.
fn any_status(dets: &Vec<Detection>, s: Status) -> (r: bool)
    ensures
        r == has_status(dets@, s),
{
    let mut i: usize = 0;
    while i < dets.len()
        invariant
            i <= dets.len(),
            forall|j: int| 0 <= j < i ==> dets@[j].status != s,
        decreases dets.len() - i,
    {
        if dets[i].status == s {
            return true;
        }
        i += 1;
    }
    false
}

/// The headline status of a feature's detections.
pub fn headline_status(dets: &Vec<Detection>) -> (r: Status)
    ensures
        r == headline(dets@),
{
    if any_status(dets, Status::Enabled) && any_status(dets, Status::Disabled) {
        return Status::Unknown;
    }
    let mut best = Status::Unknown;
    let mut i: usize = 0;
    assert(dets@.take(0) =~= Seq::<Detection>::empty());
    while i < dets.len()
        invariant
            i <= dets.len(),
            best == max_rank_status(dets@.take(i as int)),
        decreases dets.len() - i,
    {
        assert(dets@.take(i + 1).drop_last() =~= dets@.take(i as int));
        let s = dets[i].status;
        if s.rank() >= best.rank() {
            best = s;
        }
        i += 1;
    }
    assert(dets@.take(i as int) =~= dets@);
    best
}

/// Status of the first detection from `source`.
fn status_from(dets: &Vec<Detection>, source: &str) -> (r: Option<Status>)
    ensures
        r == first_status(dets@, source@),
{
    let mut i: usize = 0;
    assert(dets@.take(0) =~= Seq::<Detection>::empty());
    while i < dets.len()
        invariant
            i <= dets.len(),
            first_status(dets@.take(i as int), source@) is None,
        decreases dets.len() - i,
    {
        assert(dets@.take(i + 1).drop_last() =~= dets@.take(i as int));
        if str_eq(dets[i].source, source) {
            proof {
                lemma_first_status_prefix(dets@, i + 1, source@);
            }
            return Some(dets[i].status);
        }
        i += 1;
    }
    assert(dets@.take(i as int) =~= dets@);
    None
}

proof fn lemma_first_status_prefix(dets: Seq<Detection>, n: int, source: Seq<char>)
    requires
        0 <= n <= dets.len(),
        first_status(dets.take(n), source) is Some,
    ensures
        first_status(dets, source) == first_status(dets.take(n), source),
    decreases dets.len(),
{
    if n < dets.len() {
        assert(dets.drop_last().take(n) =~= dets.take(n));
        lemma_first_status_prefix(dets.drop_last(), n, source);
    } else {
        assert(dets.take(n) =~= dets);
    }
}

/// Compare the CPUID and procfs findings for one feature and, if they disagree in a
/// meaningful way, produce a note. Two directions matter:
///
/// * CPUID present but kernel flag absent: the feature exists in silicon but the kernel
///   does not advertise it (masked/disabled by firmware or microcode, or a kernel too
///   old to name the flag).
/// * CPUID absent but kernel flag present: the CPUID decode missed something the kernel
///   sees, a gap in this tool's probe.
pub fn disparity_note(name: &str, dets: &Vec<Detection>) -> (r: Option<String>)
    ensures
        match r {
            Some(n) => spec_disparity_note(name@, dets@) == Some(n@),
            None => spec_disparity_note(name@, dets@) is None,
        },
{
    let cpuid = match status_from(dets, "cpuid") {
        Some(s) => s,
        None => return None,
    };
    let procfs = match status_from(dets, "procfs") {
        Some(s) => s,
        None => return None,
    };
    let present_cpuid = cpuid == Status::Present || cpuid == Status::Enabled;
    let present_procfs = procfs == Status::Present || procfs == Status::Enabled;
    if present_cpuid && procfs == Status::Absent {
        let mut s = String::from_str(name);
        s.append(
            ": CPUID reports present, but absent from /proc/cpuinfo (masked/firmware-disabled, or kernel too old)",
        );
        Some(s)
    } else if cpuid == Status::Absent && present_procfs {
        let mut s = String::from_str(name);
        s.append(
            ": present in /proc/cpuinfo but CPUID probe reports absent (CPUID decode gap — please report)",
        );
        Some(s)
    } else {
        None
    }
}

/// Whether some detection from `source` is present (`want_present`) or absent.
fn source_reports(dets: &Vec<Detection>, source: &str, want_present: bool) -> (r: bool)
    ensures
        r == source_says(dets@, source@, want_present),
{
    let mut i: usize = 0;
    while i < dets.len()
        invariant
            i <= dets.len(),
            forall|j: int|
                0 <= j < i ==> !(#[trigger] dets@[j].source@ == source@ && (if want_present {
                    is_present(dets@[j].status)
                } else {
                    dets@[j].status == Status::Absent
                })),
        decreases dets.len() - i,
    {
        let s = dets[i].status;
        let matches_status = if want_present {
            s == Status::Present || s == Status::Enabled
        } else {
            s == Status::Absent
        };
        if matches_status && str_eq(dets[i].source, source) {
            return true;
        }
        i += 1;
    }
    false
}

/// Why a feature deserves attention: masked silicon, or a class feature that is
/// missing or disabled.
pub fn feature_attention(
    status: Status,
    dets: &Vec<Detection>,
    class_expectation: Option<ClassExpectation>,
) -> (r: Option<FeatureAttention>)
    ensures
        r == spec_attention(status, dets@, class_expectation),
{
    if source_reports(dets, "cpuid", true) && source_reports(dets, "procfs", false) {
        return Some(FeatureAttention::Masked);
    }
    match (class_expectation, status) {
        (Some(ClassExpectation::Expected), Status::Absent) => Some(
            FeatureAttention::ExpectedMissing,
        ),
        (Some(ClassExpectation::Expected), Status::Disabled) => Some(
            FeatureAttention::ExpectedDisabled,
        ),
        (Some(ClassExpectation::Possible), Status::Absent) => Some(
            FeatureAttention::PossibleMissing,
        ),
        (Some(ClassExpectation::Possible), Status::Disabled) => Some(
            FeatureAttention::PossibleDisabled,
        ),
        _ => None,
    }
}

/// The class expectation of `id` for the identified CPU.
fn class_expectation(identity: &Option<Identity>, id: &str) -> (r: Option<ClassExpectation>)
    ensures
        r == class_expectation_of(*identity, id@),
{
    match identity {
        Some(i) => crate::cpu_db::feature_expectation(i.vendor.as_str(), i.family, i.model, id),
        None => None,
    }
}

/// The roll-up of one catalog entry, with the notes it contributes.
fn feature_report(def: FeatureDef, results: &Results, identity: &Option<Identity>) -> (r: (
    FeatureReport,
    Vec<String>,
))
    ensures
        feature_report_ok(r.0, def, results@, *identity),
        notes_view(r.1@) == feature_notes(def, detections_for(results@, def.id@)),
{
    let detections = collect_detections(results, def.id);
    let conflict = any_status(&detections, Status::Enabled) && any_status(
        &detections,
        Status::Disabled,
    );
    let status = headline_status(&detections);
    let mut notes: Vec<String> = Vec::new();
    if conflict {
        let mut n = String::from_str(def.name);
        n.append(": conflicting enabled and disabled detections; headline set to unknown");
        notes.push(n);
    }
    let disparity = disparity_note(def.name, &detections);
    match disparity {
        Some(n) => notes.push(n),
        None => {},
    }
    let class_expectation = class_expectation(identity, def.id);
    let attention = feature_attention(status, &detections, class_expectation);
    assert(notes_view(notes@) =~= feature_notes(def, detections@));
    (
        FeatureReport {
            id: def.id,
            name: def.name,
            category: def.category,
            description: def.description,
            status,
            class_expectation,
            attention,
            detections,
            inline_detail: def.inline_detail,
        },
        notes,
    )
}

/// The report of category `c`, with the notes its features contribute.
fn category_report(
    c: Category,
    defs: &Vec<FeatureDef>,
    results: &Results,
    identity: &Option<Identity>,
) -> (r: (CategoryReport, Vec<String>))
    requires
        defs@ == catalog(),
    ensures
        category_report_ok(r.0, c, results@, *identity),
        notes_view(r.1@) == notes_for_defs(defs_in(catalog(), c), results@),
{
    let mut features: Vec<FeatureReport> = Vec::new();
    let mut notes: Vec<String> = Vec::new();
    let mut j: usize = 0;
    assert(catalog().take(0) =~= Seq::<FeatureDef>::empty());
    while j < defs.len()
        invariant
            j <= defs.len(),
            defs@ == catalog(),
            features@.len() == defs_in(catalog().take(j as int), c).len(),
            forall|m: int|
                0 <= m < features@.len() ==> #[trigger] feature_report_ok(
                    features@[m],
                    defs_in(catalog().take(j as int), c)[m],
                    results@,
                    *identity,
                ),
            notes_view(notes@) == notes_for_defs(defs_in(catalog().take(j as int), c), results@),
        decreases defs.len() - j,
    {
        let ghost pre = defs_in(catalog().take(j as int), c);
        assert(catalog().take(j + 1).drop_last() =~= catalog().take(j as int));
        let def = defs[j];
        if def.category == c {
            let (fr, fnotes) = feature_report(def, results, identity);
            let ghost old_notes = notes@;
            features.push(fr);
            let mut fnotes = fnotes;
            notes.append(&mut fnotes);
            proof {
                let post = defs_in(catalog().take(j + 1), c);
                assert(post == pre.push(def));
                assert(post.drop_last() =~= pre);
                assert(notes_view(notes@) =~= notes_view(old_notes) + feature_notes(
                    def,
                    detections_for(results@, def.id@),
                ));
                assert forall|m: int| 0 <= m < features@.len() implies #[trigger] feature_report_ok(
                    features@[m],
                    post[m],
                    results@,
                    *identity,
                ) by {
                    if m < pre.len() {
                        assert(post[m] == pre[m]);
                    }
                }
            }
        }
        j += 1;
    }
    assert(catalog().take(j as int) =~= catalog());
    (CategoryReport { category: c, title: c.title(), features }, notes)
}

/// The first id of `results` that names no catalog feature.
fn first_unknown_id(results: &Results) -> (r: Option<&'static str>)
    ensures
        r is None <==> all_ids_known(results@),
        r matches Some(id) ==> exists|k: int|
            0 <= k < results@.len() && results@[k].0 == id && spec_find(id@) is None,
{
    let mut i: usize = 0;
    while i < results.len()
        invariant
            i <= results.len(),
            forall|k: int| 0 <= k < i ==> #[trigger] spec_find(results@[k].0@) is Some,
        decreases results.len() - i,
    {
        let id = results[i].0;
        if crate::catalog::find(id).is_none() {
            return Some(id);
        }
        i += 1;
    }
    None
}

impl Report {
    /// Fold probe results against the catalog.
    pub fn try_build(
        results: Results,
        identity: Option<Identity>,
        system: Option<SystemInfo>,
        privilege: Privilege,
    ) -> (r: Result<Report, ReportError>)
        ensures
            r is Ok <==> all_ids_known(results@),
            r matches Ok(rep) ==> report_ok(rep, results@, identity, system, privilege),
            r matches Err(ReportError::UnknownFeatureId(id)) ==> exists|k: int|
                0 <= k < results@.len() && results@[k].0 == id && spec_find(id@) is None,
    {
        if let Some(id) = first_unknown_id(&results) {
            return Err(ReportError::UnknownFeatureId(id));
        }
        let defs = features();
        let order = Category::order();
        let mut categories: Vec<CategoryReport> = Vec::new();
        let mut notes: Vec<String> = Vec::new();
        let mut k: usize = 0;
        assert(category_order().take(0) =~= Seq::<Category>::empty());
        while k < order.len()
            invariant
                k <= order.len(),
                order@ == category_order(),
                defs@ == catalog(),
                categories@.len() == k,
                forall|m: int|
                    0 <= m < k ==> #[trigger] category_report_ok(
                        categories@[m],
                        category_order()[m],
                        results@,
                        identity,
                    ),
                notes_view(notes@) == notes_for_categories(
                    category_order().take(k as int),
                    results@,
                ),
            decreases order.len() - k,
        {
            let ghost old_notes = notes@;
            let (cr, cnotes) = category_report(order[k], &defs, &results, &identity);
            categories.push(cr);
            let mut cnotes = cnotes;
            notes.append(&mut cnotes);
            proof {
                let t = category_order().take(k + 1);
                assert(t.drop_last() =~= category_order().take(k as int));
                assert(notes_view(notes@) =~= notes_view(old_notes) + notes_for_defs(
                    defs_in(catalog(), order@[k as int]),
                    results@,
                ));
            }
            k += 1;
        }
        assert(category_order().take(k as int) =~= category_order());
        Ok(
            Report {
                tool: TOOL,
                version: VERSION,
                privilege,
                identity,
                system,
                categories,
                notes,
            },
        )
    }

    /// Fold probe results against the catalog; every id must name a catalog feature.
    pub fn build(
        results: Results,
        identity: Option<Identity>,
        system: Option<SystemInfo>,
        privilege: Privilege,
    ) -> (r: Report)
        requires
            all_ids_known(results@),
        ensures
            report_ok(r, results@, identity, system, privilege),
    {
        match Self::try_build(results, identity, system, privilege) {
            Ok(r) => r,
            Err(_) => {
                assert(false);
                Report {
                    tool: TOOL,
                    version: VERSION,
                    privilege,
                    identity: None,
                    system: None,
                    categories: Vec::new(),
                    notes: Vec::new(),
                }
            },
        }
    }
}

/// With no detections at all, every feature's headline is `Unknown` and no note is made.
pub proof fn empty_results_are_unknown(def: FeatureDef)
    ensures
        detections_for(Seq::empty(), def.id@).len() == 0,
        headline(detections_for(Seq::empty(), def.id@)) == Status::Unknown,
        feature_notes(def, detections_for(Seq::empty(), def.id@)).len() == 0,
{
    let dets = detections_for(Seq::<(&'static str, Vec<Detection>)>::empty(), def.id@);
    assert(!has_status(dets, Status::Enabled));
    assert(feature_notes(def, dets) =~= Seq::<Seq<char>>::empty());
}

} // verus!
