//! CPU vulnerability / mitigation probe.
//!
//! `/sys/devices/system/cpu/vulnerabilities/*` holds one file per known transient-
//! execution (and related) issue, each with a human status string. For a mitigation,
//! `Enabled` means the machine is protected (not affected, or a mitigation is active)
//! and `Disabled` means it is exposed (`Vulnerable`).
//!
//! Files matching a catalog id are reported individually; any file the catalog does not
//! yet know about is collected under `vuln_other` so a newer kernel's additions surface
//! rather than vanish.

use vstd::prelude::*;

use crate::catalog::{catalog, features};
use crate::model::{Category, Detection, FeatureDef, Status};
use crate::probes::{
    Probe, all_unknown, detection_is, unavailable, Findings, IoFailure, TextRead};
use crate::text::{
    ascii_lower, chars_of, find_char, find_char_in, has_prefix, join, lower_chars, owned_range,
    str_eq, trim, trim_owned, chars_have_prefix, join_strings, views,
};

verus! {

pub const SRC: &'static str = "linux-vuln";

pub const DIR: &'static str = "/sys/devices/system/cpu/vulnerabilities";

/// Status and detail for a kernel vulnerability status string.
pub open spec fn spec_classify(text: Seq<char>) -> (Status, Seq<char>) {
    let lower = ascii_lower(text);
    if has_prefix(lower, "not affected"@) {
        (Status::Enabled, "not affected"@)
    } else if has_prefix(lower, "mitigation"@) {
        let detail = match find_char(text, ':') {
            Some(i) => trim(text.skip(i + 1)),
            None => text,
        };
        (Status::Enabled, "mitigated: "@ + detail)
    } else if has_prefix(lower, "vulnerable"@) {
        (Status::Disabled, text)
    } else {
        (Status::Unknown, text)
    }
}

/// Map a kernel vulnerability status string onto the status model.
pub fn classify(text: &str) -> (r: Detection)
    ensures
        detection_is(r, SRC, spec_classify(text@)),
{
    let chars = chars_of(text);
    let lower = lower_chars(&chars);
    if chars_have_prefix(&lower, &chars_of("not affected")) {
        Detection::with_detail(Status::Enabled, SRC, String::from_str("not affected"))
    } else if chars_have_prefix(&lower, &chars_of("mitigation")) {
        // Keep the specific mitigation, dropping the "Mitigation: " prefix.
        let mut detail = String::from_str("mitigated: ");
        match find_char_in(&chars, 0, chars.len(), ':') {
            Some(i) => {
                assert(chars@.subrange(0, chars@.len() as int) =~= text@);
                let rest = owned_range(text, i + 1, chars.len());
                assert(rest@ =~= text@.skip(i + 1));
                let t = trim_owned(rest.as_str());
                detail.append(t.as_str());
            },
            None => {
                assert(chars@.subrange(0, chars@.len() as int) =~= text@);
                detail.append(text);
            },
        }
        Detection::with_detail(Status::Enabled, SRC, detail)
    } else if chars_have_prefix(&lower, &chars_of("vulnerable")) {
        Detection::with_detail(Status::Disabled, SRC, String::from_str(text))
    } else {
        Detection::with_detail(Status::Unknown, SRC, String::from_str(text))
    }
}

/// How a kernel vulnerability status is read, whatever its letter case: a text starting
/// "not affected" is `Enabled`; one starting "mitigation" is `Enabled` with a
/// "mitigated: " detail; one starting "vulnerable" (bare, or with a colon and details)
/// is `Disabled` and keeps the text; anything else is `Unknown` and keeps the text.
pub proof fn vulnerability_status_rules(text: Seq<char>)
    ensures
        has_prefix(ascii_lower(text), "not affected"@) ==> spec_classify(text) == (
            Status::Enabled,
            "not affected"@,
        ),
        has_prefix(ascii_lower(text), "mitigation"@) ==> spec_classify(text).0 == Status::Enabled
            && has_prefix(spec_classify(text).1, "mitigated: "@),
        has_prefix(ascii_lower(text), "vulnerable"@) ==> spec_classify(text) == (
            Status::Disabled,
            text,
        ),
        !has_prefix(ascii_lower(text), "not affected"@) && !has_prefix(ascii_lower(text), "mitigation"@)
            && !has_prefix(ascii_lower(text), "vulnerable"@) ==> spec_classify(text) == (
            Status::Unknown,
            text,
        ),
{
    reveal_strlit("not affected");
    reveal_strlit("mitigation");
    reveal_strlit("vulnerable");
    reveal_strlit("mitigated: ");
    let lower = ascii_lower(text);
    lemma_prefix_head(lower, "not affected"@);
    lemma_prefix_head(lower, "mitigation"@);
    lemma_prefix_head(lower, "vulnerable"@);
    if has_prefix(lower, "mitigation"@) && !has_prefix(lower, "not affected"@) {
        let d = spec_classify(text).1;
        let rest = match find_char(text, ':') {
            Some(i) => trim(text.skip(i + 1)),
            None => text,
        };
        assert(d == "mitigated: "@ + rest);
        assert(d.take(11) =~= "mitigated: "@);
    }
}

/// A string with a non-empty prefix starts with the prefix's first character.
proof fn lemma_prefix_head(s: Seq<char>, p: Seq<char>)
    requires
        p.len() > 0,
    ensures
        has_prefix(s, p) ==> s[0] == p[0],
{
    if has_prefix(s, p) {
        assert(s.take(p.len() as int)[0] == s[0]);
    }
}

// ---- lexicographic order of strings -------------------------------------------------

/// `a` sorts strictly before `b`, comparing code points (the order of `String`).
pub open spec fn lex_lt(a: Seq<char>, b: Seq<char>) -> bool
    decreases a.len(),
{
    if a.len() == 0 {
        b.len() > 0
    } else if b.len() == 0 {
        false
    } else if a[0] != b[0] {
        a[0] < b[0]
    } else {
        lex_lt(a.drop_first(), b.drop_first())
    }
}

pub open spec fn lex_le(a: Seq<char>, b: Seq<char>) -> bool {
    a == b || lex_lt(a, b)
}

pub open spec fn is_sorted(s: Seq<Seq<char>>) -> bool {
    forall|i: int, j: int| 0 <= i < j < s.len() ==> lex_le(#[trigger] s[i], #[trigger] s[j])
}

proof fn lemma_cons_eq(a: Seq<char>, b: Seq<char>)
    requires
        a.len() > 0,
        b.len() > 0,
        a[0] == b[0],
        a.drop_first() == b.drop_first(),
    ensures
        a == b,
{
    assert(a.len() == a.drop_first().len() + 1);
    assert(b.len() == b.drop_first().len() + 1);
    assert forall|k: int| 0 <= k < a.len() implies a[k] == b[k] by {
        if k > 0 {
            assert(a[k] == a.drop_first()[k - 1]);
            assert(b[k] == b.drop_first()[k - 1]);
        }
    }
    assert(a =~= b);
}

proof fn lemma_lex_total(a: Seq<char>, b: Seq<char>)
    ensures
        lex_le(a, b) || lex_lt(b, a),
    decreases a.len(),
{
    if a.len() > 0 && b.len() > 0 && a[0] == b[0] {
        lemma_lex_total(a.drop_first(), b.drop_first());
        if a.drop_first() == b.drop_first() {
            lemma_cons_eq(a, b);
        }
    } else if a.len() == 0 && b.len() == 0 {
        assert(a =~= b);
    }
}

proof fn lemma_lex_trans(a: Seq<char>, b: Seq<char>, c: Seq<char>)
    requires
        lex_le(a, b),
        lex_le(b, c),
    ensures
        lex_le(a, c),
    decreases a.len(),
{
    if a == b || b == c {
    } else if a.len() > 0 && b.len() > 0 && c.len() > 0 && a[0] == b[0] && b[0] == c[0] {
        lemma_lex_trans(a.drop_first(), b.drop_first(), c.drop_first());
        if a.drop_first() == c.drop_first() {
            lemma_cons_eq(a, c);
        }
    }
}

/// `a` sorts strictly before `b`.
fn lex_less(a: &Vec<char>, b: &Vec<char>) -> (r: bool)
    ensures
        r == lex_lt(a@, b@),
{
    let mut i: usize = 0;
    assert(a@.skip(0) =~= a@);
    assert(b@.skip(0) =~= b@);
    while i < a.len() && i < b.len() && a[i] == b[i]
        invariant
            i <= a.len(),
            i <= b.len(),
            lex_lt(a@, b@) == lex_lt(a@.skip(i as int), b@.skip(i as int)),
        decreases a.len() - i,
    {
        assert(a@.skip(i as int).drop_first() =~= a@.skip(i + 1));
        assert(b@.skip(i as int).drop_first() =~= b@.skip(i + 1));
        i += 1;
    }
    if i == a.len() {
        i < b.len()
    } else if i == b.len() {
        false
    } else {
        a[i] < b[i]
    }
}

/// The strings of `v` in ascending order.
pub fn sort_strings(v: Vec<String>) -> (r: Vec<String>)
    ensures
        is_sorted(views(r@)),
        views(r@).to_multiset() == views(v@).to_multiset(),
{
    let mut out: Vec<String> = Vec::new();
    let mut i: usize = 0;
    let mut rest = v;
    let ghost orig = views(rest@);
    assert(views(out@).to_multiset() =~= orig.take(0).to_multiset()) by {
        broadcast use vstd::seq_lib::to_multiset_len;
        assert(orig.take(0) =~= Seq::<Seq<char>>::empty());
        assert(views(out@) =~= Seq::<Seq<char>>::empty());
    }
    let n = rest.len();
    while i < n
        invariant
            i <= n == rest.len(),
            orig == views(rest@),
            is_sorted(views(out@)),
            views(out@).to_multiset() == orig.take(i as int).to_multiset(),
        decreases n - i,
    {
        let x = rest[i].clone();
        let xc = chars_of(x.as_str());
        // Insert after every element that does not sort after `x`.
        let mut p: usize = 0;
        while p < out.len() && !lex_less(&xc, &chars_of(out[p].as_str()))
            invariant
                p <= out.len(),
                xc@ == x@,
                forall|k: int| 0 <= k < p ==> lex_le(#[trigger] views(out@)[k], x@),
            decreases out.len() - p,
        {
            proof {
                lemma_lex_total(views(out@)[p as int], x@);
            }
            p += 1;
        }
        let ghost before = views(out@);
        proof {
            if p < out.len() {
                assert(lex_lt(x@, before[p as int]));
            }
            assert forall|k: int| p <= k < before.len() implies lex_lt(x@, #[trigger] before[k]) by {
                if p < k {
                    lemma_lex_trans(x@, before[p as int], before[k]);
                    if x@ == before[k] {
                        lemma_lex_antisym(x@, before[p as int]);
                    }
                }
            }
        }
        out.insert(p, x);
        proof {
            assert(views(out@) =~= before.insert(p as int, x@));
            vstd::seq_lib::to_multiset_insert(before, p as int, x@);
            assert(orig.take(i + 1) =~= orig.take(i as int).push(x@));
            vstd::seq_lib::to_multiset_build(orig.take(i as int), x@);
            let after = views(out@);
            assert forall|a: int, b: int| 0 <= a < b < after.len() implies lex_le(
                #[trigger] after[a],
                #[trigger] after[b],
            ) by {
                if b < p {
                    assert(after[a] == before[a] && after[b] == before[b]);
                } else if b == p {
                    assert(after[a] == before[a]);
                } else if a < p {
                    assert(after[a] == before[a] && after[b] == before[b - 1]);
                    if p < before.len() {
                        lemma_lex_trans(before[a], x@, before[b - 1]);
                    }
                } else if a == p {
                    assert(after[b] == before[b - 1]);
                } else {
                    assert(after[a] == before[a - 1] && after[b] == before[b - 1]);
                }
            }
        }
        i += 1;
    }
    assert(orig.take(n as int) =~= orig);
    out
}

proof fn lemma_lex_antisym(a: Seq<char>, b: Seq<char>)
    requires
        lex_lt(a, b),
    ensures
        !lex_lt(b, a),
        a != b,
    decreases a.len(),
{
    if a.len() > 0 && b.len() > 0 && a[0] == b[0] {
        lemma_lex_antisym(a.drop_first(), b.drop_first());
    }
}

// ---- the probe ------------------------------------------------------------------------

/// The vulnerability ids the catalog knows, in catalog order.
pub open spec fn known_ids(defs: Seq<FeatureDef>) -> Seq<&'static str>
    decreases defs.len(),
{
    if defs.len() == 0 {
        Seq::<&'static str>::empty()
    } else {
        let prev = known_ids(defs.drop_last());
        let d = defs.last();
        if d.category == Category::Vulnerabilities && d.id@ != "vuln_other"@ {
            prev.push(d.id)
        } else {
            prev
        }
    }
}

/// The features this probe reports on: the known vulnerabilities, then `vuln_other`.
pub open spec fn vuln_feature_ids() -> Seq<&'static str> {
    known_ids(catalog()).push("vuln_other")
}

/// The first known id equal to `name`.
pub open spec fn known_match(ids: Seq<&'static str>, name: Seq<char>) -> Option<&'static str>
    decreases ids.len(),
{
    if ids.len() == 0 {
        None
    } else {
        match known_match(ids.drop_last(), name) {
            Some(id) => Some(id),
            None => if ids.last()@ == name {
                Some(ids.last())
            } else {
                None
            },
        }
    }
}

/// One readable vulnerability file: its name and its trimmed status text.
pub open spec fn readable(e: Option<(String, TextRead)>) -> Option<(Seq<char>, Seq<char>)> {
    match e {
        Some((name, Ok(text))) => Some((name@, trim(text@))),
        _ => None,
    }
}

/// Findings for the recognised files, in listing order.
pub open spec fn known_findings(entries: Seq<Option<(String, TextRead)>>, ids: Seq<&'static str>) -> Seq<
    (&'static str, (Status, Seq<char>)),
>
    decreases entries.len(),
{
    if entries.len() == 0 {
        Seq::empty()
    } else {
        let prev = known_findings(entries.drop_last(), ids);
        match readable(entries.last()) {
            Some((name, text)) => match known_match(ids, name) {
                Some(id) => prev.push((id, spec_classify(text))),
                None => prev,
            },
            None => prev,
        }
    }
}

/// `name = status` for the files the catalog does not know, in listing order.
pub open spec fn unknown_items(entries: Seq<Option<(String, TextRead)>>, ids: Seq<&'static str>) -> Seq<
    Seq<char>,
>
    decreases entries.len(),
{
    if entries.len() == 0 {
        Seq::empty()
    } else {
        let prev = unknown_items(entries.drop_last(), ids);
        match readable(entries.last()) {
            Some((name, text)) => match known_match(ids, name) {
                Some(_) => prev,
                None => prev.push(name + " = "@ + text),
            },
            None => prev,
        }
    }
}

/// Listing of the vulnerabilities directory: each entry's name and contents.
pub type VulnListing = Result<Vec<Option<(String, TextRead)>>, IoFailure>;

pub open spec fn vuln_findings_ok(out: Seq<(&'static str, Detection)>, listing: VulnListing) -> bool {
    match listing {
        Err(e) => all_unknown(
            out,
            SRC,
            vuln_feature_ids(),
            "cannot inspect "@ + DIR@ + ": "@ + e.message@,
        ),
        Ok(entries) => {
            let ids = known_ids(catalog());
            let kf = known_findings(entries@, ids);
            let unknown = unknown_items(entries@, ids);
            &&& out.len() == kf.len() + (if unknown.len() > 0 {
                1int
            } else {
                0int
            })
            &&& forall|k: int|
                0 <= k < kf.len() ==> (#[trigger] out[k]).0 == kf[k].0 && detection_is(
                    out[k].1,
                    SRC,
                    kf[k].1,
                )
            &&& unknown.len() > 0 ==> {
                let last = out[kf.len() as int];
                &&& last.0 == "vuln_other"
                &&& last.1.status == Status::Unknown
                &&& last.1.source == SRC
                &&& last.1.detail is Some
                &&& exists|sorted: Seq<Seq<char>>|
                    #![trigger is_sorted(sorted)]
                    is_sorted(sorted) && sorted.to_multiset() == unknown.to_multiset()
                        && last.1.detail->0@ == join(sorted, "; "@)
            }
        },
    }
}

pub struct VulnProbe;

impl Probe for VulnProbe {
    fn name(&self) -> (r: &'static str)
        ensures
            r == SRC,
    {
        SRC
    }

    /// The features this probe reports on.
    fn feature_ids(&self) -> (r: Vec<&'static str>)
        ensures
            r@ == vuln_feature_ids(),
    {
        let mut ids = self.known();
        ids.push("vuln_other");
        ids
    }
}

impl VulnProbe {
    /// The catalog's vulnerability ids.
    fn known(&self) -> (r: Vec<&'static str>)
        ensures
            r@ == known_ids(catalog()),
    {
        let defs = features();
        let mut ids: Vec<&'static str> = Vec::new();
        let mut i: usize = 0;
        assert(catalog().take(0) =~= Seq::<FeatureDef>::empty());
        while i < defs.len()
            invariant
                i <= defs.len(),
                defs@ == catalog(),
                ids@ == known_ids(catalog().take(i as int)),
            decreases defs.len() - i,
        {
            assert(catalog().take(i + 1).drop_last() =~= catalog().take(i as int));
            let d = defs[i];
            if d.category == Category::Vulnerabilities && !str_eq(d.id, "vuln_other") {
                ids.push(d.id);
            }
            i += 1;
        }
        assert(catalog().take(i as int) =~= catalog());
        ids
    }

    /// Decide from the listing of the vulnerabilities directory.
    pub fn decide(&self, listing: &VulnListing) -> (r: Findings)
        ensures
            vuln_findings_ok(r@, *listing),
    {
        let entries = match listing {
            Err(e) => {
                let mut reason = String::from_str("cannot inspect ");
                reason.append(DIR);
                reason.append(": ");
                reason.append(e.message.as_str());
                let ids = self.feature_ids();
                return unavailable(SRC, &ids, reason.as_str());
            },
            Ok(entries) => entries,
        };
        let known = self.known();
        let ghost ids = known_ids(catalog());
        let mut out: Findings = Vec::new();
        let mut unknown: Vec<String> = Vec::new();
        let mut i: usize = 0;
        assert(entries@.take(0) =~= Seq::<Option<(String, TextRead)>>::empty());
        while i < entries.len()
            invariant
                i <= entries.len(),
                known@ == ids,
                ids == known_ids(catalog()),
                *listing == Ok::<Vec<Option<(String, TextRead)>>, IoFailure>(*entries),
                out@.len() == known_findings(entries@.take(i as int), ids).len(),
                forall|k: int|
                    0 <= k < out@.len() ==> (#[trigger] out@[k]).0 == known_findings(
                        entries@.take(i as int),
                        ids,
                    )[k].0 && detection_is(
                        out@[k].1,
                        SRC,
                        known_findings(entries@.take(i as int), ids)[k].1,
                    ),
                views(unknown@) == unknown_items(entries@.take(i as int), ids),
            decreases entries.len() - i,
        {
            let ghost pre = entries@.take(i as int);
            assert(entries@.take(i + 1).drop_last() =~= pre);
            if let Some((name, Ok(text))) = &entries[i] {
                let status_text = trim_owned(text.as_str());
                match lookup_known(&known, name.as_str()) {
                    Some(id) => {
                        out.push((id, classify(status_text.as_str())));
                    },
                    None => {
                        let mut item = name.clone();
                        item.append(" = ");
                        item.append(status_text.as_str());
                        unknown.push(item);
                        assert(views(unknown@) =~= unknown_items(entries@.take(i + 1), ids));
                    },
                }
            }
            i += 1;
        }
        assert(entries@.take(i as int) =~= entries@);
        if unknown.len() > 0 {
            let ghost items = views(unknown@);
            let sorted = sort_strings(unknown);
            let detail = join_strings(&sorted, "; ");
            out.push(("vuln_other", Detection::with_detail(Status::Unknown, SRC, detail)));
            assert(is_sorted(views(sorted@)));
        }
        out
    }
}

/// The known id equal to `name`.
fn lookup_known(ids: &Vec<&'static str>, name: &str) -> (r: Option<&'static str>)
    ensures
        r == known_match(ids@, name@),
{
    let mut i: usize = 0;
    assert(ids@.take(0) =~= Seq::<&'static str>::empty());
    while i < ids.len()
        invariant
            i <= ids.len(),
            known_match(ids@.take(i as int), name@) is None,
        decreases ids.len() - i,
    {
        assert(ids@.take(i + 1).drop_last() =~= ids@.take(i as int));
        if str_eq(ids[i], name) {
            proof {
                lemma_known_match_prefix(ids@, i + 1, name@);
            }
            return Some(ids[i]);
        }
        i += 1;
    }
    assert(ids@.take(i as int) =~= ids@);
    None
}

proof fn lemma_known_match_prefix(ids: Seq<&'static str>, n: int, name: Seq<char>)
    requires
        0 <= n <= ids.len(),
        known_match(ids.take(n), name) is Some,
    ensures
        known_match(ids, name) == known_match(ids.take(n), name),
    decreases ids.len(),
{
    if n < ids.len() {
        assert(ids.drop_last().take(n) =~= ids.take(n));
        lemma_known_match_prefix(ids.drop_last(), n, name);
    } else {
        assert(ids.take(n) =~= ids);
    }
}

} // verus!
