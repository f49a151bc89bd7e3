//! `/proc/cpuinfo` probe: the kernel's view, for cross-checking CPUID.
//!
//! For every catalog feature that declares a `cpuinfo_flag`, this probe reports whether
//! the kernel advertises that flag. Aggregated alongside the CPUID detection, this makes
//! silicon-vs-kernel disparities visible: if CPUID says `present` but the kernel flag is
//! missing, the feature was likely masked or disabled by firmware/microcode (or the
//! kernel predates the flag). A flag seen on only some CPUs is reported as asymmetric.

use vstd::prelude::*;

use crate::catalog::{catalog, features};
use crate::model::{Detection, FeatureDef, Status};
use crate::probes::{
    Probe,
    all_unknown, findings_are, lemma_findings_push, detection_is, unavailable, Findings, TextRead,
};
use crate::text::{
    blank_split_spans, chars_of, dec, line_spans, lines, owned_range,
    push_dec, spans_valid, split_once_owned, spans_view, split_blank, split_once, str_eq, trim, trim_owned, views,
    word_spans, words,
};

verus! {

pub const SRC: &'static str = "procfs";

// ---- parsing /proc/cpuinfo ----------------------------------------------------------

/// The line has the form `key : value` with `key` (trimmed) equal to `key`.
pub open spec fn key_is(line: Seq<char>, key: Seq<char>) -> bool {
    match split_once(line, ':') {
        Some(kv) => trim(kv.0) == key,
        None => false,
    }
}

/// A block describes a processor: one of its lines is keyed `processor`.
pub open spec fn has_processor(block: Seq<char>) -> bool {
    exists|k: int| 0 <= k < lines(block).len() && #[trigger] key_is(lines(block)[k], "processor"@)
}

/// Index of the first of `ls` keyed `key`.
pub open spec fn first_keyed(ls: Seq<Seq<char>>, key: Seq<char>) -> Option<int>
    decreases ls.len(),
{
    if ls.len() == 0 {
        None
    } else {
        match first_keyed(ls.drop_last(), key) {
            Some(k) => Some(k),
            None => if key_is(ls.last(), key) {
                Some(ls.len() - 1)
            } else {
                None
            },
        }
    }
}

/// The whitespace-separated flags of the block's first `flags` line.
pub open spec fn block_flags(block: Seq<char>) -> Option<Seq<Seq<char>>> {
    let ls = lines(block);
    match first_keyed(ls, "flags"@) {
        Some(k) => match split_once(ls[k], ':') {
            Some(kv) => Some(words(kv.1)),
            None => None,
        },
        None => None,
    }
}

/// The flag lists of the processor blocks, in order; `None` when a processor block has
/// no `flags` line.
pub open spec fn flag_sets(blocks: Seq<Seq<char>>) -> Option<Seq<Seq<Seq<char>>>>
    decreases blocks.len(),
{
    if blocks.len() == 0 {
        Some(Seq::empty())
    } else {
        match flag_sets(blocks.drop_last()) {
            None => None,
            Some(acc) => if has_processor(blocks.last()) {
                match block_flags(blocks.last()) {
                    Some(f) => Some(acc.push(f)),
                    None => None,
                }
            } else {
                Some(acc)
            },
        }
    }
}

/// Per-CPU flag lists of a `/proc/cpuinfo` text, or why it is malformed.
pub open spec fn cpuinfo_flags(text: Seq<char>) -> Result<Seq<Seq<Seq<char>>>, Seq<char>> {
    match flag_sets(split_blank(text)) {
        None => Err("malformed /proc/cpuinfo: processor block lacks flags"@),
        Some(fs) => if fs.len() == 0 {
            Err("malformed /proc/cpuinfo: no processor blocks"@)
        } else {
            Ok(fs)
        },
    }
}

/// Number of CPUs whose flag list holds `flag`.
pub open spec fn flag_count(fs: Seq<Seq<Seq<char>>>, flag: Seq<char>) -> nat
    decreases fs.len(),
{
    if fs.len() == 0 {
        0
    } else {
        flag_count(fs.drop_last(), flag) + if fs.last().contains(flag) {
            1nat
        } else {
            0nat
        }
    }
}

/// What the kernel's flags say of one feature's flag.
pub open spec fn flag_finding(fs: Seq<Seq<Seq<char>>>, flag: Seq<char>) -> (Status, Seq<char>) {
    let n = fs.len();
    let c = flag_count(fs, flag);
    if c == n {
        (Status::Present, "/proc/cpuinfo flag '"@ + flag + "' on all "@ + dec(n) + " CPUs"@)
    } else if c > 0 {
        (
            Status::Present,
            "/proc/cpuinfo flag '"@ + flag + "' asymmetric: "@ + dec(c) + "/"@ + dec(n)
                + " CPUs"@,
        )
    } else {
        (Status::Absent, "no '"@ + flag + "' flag on any of "@ + dec(n) + " CPUs"@)
    }
}

// ---- the features it speaks for -----------------------------------------------------

/// `(id, cpuinfo flag)` of the features that declare a flag, in catalog order.
pub open spec fn flagged(defs: Seq<FeatureDef>) -> Seq<(&'static str, &'static str)>
    decreases defs.len(),
{
    if defs.len() == 0 {
        Seq::empty()
    } else {
        let prev = flagged(defs.drop_last());
        match defs.last().cpuinfo_flag {
            Some(f) => prev.push((defs.last().id, f)),
            None => prev,
        }
    }
}

pub open spec fn procfs_feature_ids() -> Seq<&'static str> {
    flagged(catalog()).map_values(|p: (&'static str, &'static str)| p.0)
}

pub open spec fn procfs_expected(fs: Seq<Seq<Seq<char>>>, items: Seq<(&'static str, &'static str)>) -> Seq<
    (&'static str, (Status, Seq<char>)),
> {
    Seq::new(items.len(), |k: int| (items[k].0, flag_finding(fs, items[k].1@)))
}

pub open spec fn procfs_findings_ok(out: Seq<(&'static str, Detection)>, cpuinfo: TextRead) -> bool {
    match cpuinfo {
        Err(e) => all_unknown(
            out,
            SRC,
            procfs_feature_ids(),
            "cannot inspect /proc/cpuinfo: "@ + e.message@,
        ),
        Ok(text) => match cpuinfo_flags(text@) {
            Err(reason) => all_unknown(out, SRC, procfs_feature_ids(), reason),
            Ok(fs) => findings_are(out, SRC, procfs_expected(fs, flagged(catalog()))),
        },
    }
}

// ---- executable parsing -------------------------------------------------------------

fn line_key_is(line: &str, key: &str) -> (r: bool)
    ensures
        r == key_is(line@, key@),
{
    match split_once_owned(line, ':') {
        Some((k, _)) => {
            let t = trim_owned(k.as_str());
            str_eq(t.as_str(), key)
        },
        None => false,
    }
}

pub proof fn lemma_first_keyed_prefix(ls: Seq<Seq<char>>, n: int, key: Seq<char>)
    requires
        0 <= n <= ls.len(),
        first_keyed(ls.take(n), key) is Some,
    ensures
        first_keyed(ls, key) == first_keyed(ls.take(n), key),
    decreases ls.len(),
{
    if n < ls.len() {
        assert(ls.drop_last().take(n) =~= ls.take(n));
        lemma_first_keyed_prefix(ls.drop_last(), n, key);
    } else {
        assert(ls.take(n) =~= ls);
    }
}

/// The words of `s` as owned strings.
fn word_strings(s: &str) -> (r: Vec<String>)
    ensures
        views(r@) == words(s@),
{
    let c = chars_of(s);
    let spans = word_spans(&c);
    let mut out: Vec<String> = Vec::new();
    let mut i: usize = 0;
    while i < spans.len()
        invariant
            i <= spans.len(),
            c@ == s@,
            spans_valid(c@, spans@),
            spans_view(c@, spans@) == words(s@),
            views(out@) =~= spans_view(c@, spans@).take(i as int),
        decreases spans.len() - i,
    {
        let (a, b) = spans[i];
        let ghost before = views(out@);
        let w = owned_range(s, a, b);
        assert(w@ == spans_view(c@, spans@)[i as int]);
        out.push(w);
        assert(views(out@) =~= before.push(w@));
        assert(spans_view(c@, spans@).take(i + 1) =~= spans_view(c@, spans@).take(i as int).push(
            w@,
        ));
        i += 1;
    }
    assert(spans_view(c@, spans@).take(i as int) =~= spans_view(c@, spans@));
    out
}

/// Whether a block names a processor, and the flags of its first `flags` line.
fn scan_block(block: &str) -> (r: (bool, Option<Vec<String>>))
    ensures
        r.0 == has_processor(block@),
        match r.1 {
            Some(ws) => block_flags(block@) == Some(views(ws@)),
            None => block_flags(block@) is None,
        },
{
    let bc = chars_of(block);
    let spans = line_spans(&bc);
    let ghost ls = lines(block@);
    let mut processor = false;
    let mut flags: Option<Vec<String>> = None;
    let mut i: usize = 0;
    assert(ls.take(0) =~= Seq::<Seq<char>>::empty());
    while i < spans.len()
        invariant
            i <= spans.len(),
            bc@ == block@,
            ls == lines(block@),
            spans_valid(bc@, spans@),
            spans_view(bc@, spans@) == ls,
            processor == exists|k: int| 0 <= k < i && #[trigger] key_is(ls[k], "processor"@),
            match flags {
                Some(ws) => block_flags(block@) == Some(views(ws@)),
                None => first_keyed(ls.take(i as int), "flags"@) is None,
            },
        decreases spans.len() - i,
    {
        let (a, b) = spans[i];
        let line = owned_range(block, a, b);
        assert(line@ == ls[i as int]);
        if line_key_is(line.as_str(), "processor") {
            processor = true;
        }
        if flags.is_none() {
            proof {
                assert(ls.take(i + 1).drop_last() =~= ls.take(i as int));
            }
            if line_key_is(line.as_str(), "flags") {
                proof {
                    assert(first_keyed(ls.take(i + 1), "flags"@) == Some(i as int));
                    lemma_first_keyed_prefix(ls, i + 1, "flags"@);
                }
                match split_once_owned(line.as_str(), ':') {
                    Some((_, v)) => {
                        flags = Some(word_strings(v.as_str()));
                    },
                    None => {},
                }
            }
        }
        i += 1;
    }
    if flags.is_none() {
        assert(ls.take(i as int) =~= ls);
    }
    (processor, flags)
}

/// A prefix without a flag list leaves the whole without one.
pub proof fn lemma_flag_sets_none(blocks: Seq<Seq<char>>, n: int)
    requires
        0 <= n <= blocks.len(),
        flag_sets(blocks.take(n)) is None,
    ensures
        flag_sets(blocks) is None,
    decreases blocks.len(),
{
    if n < blocks.len() {
        assert(blocks.drop_last().take(n) =~= blocks.take(n));
        lemma_flag_sets_none(blocks.drop_last(), n);
    } else {
        assert(blocks.take(n) =~= blocks);
    }
}

/// The character views of the per-CPU flag lists.
pub open spec fn flag_view(fs: Seq<Vec<String>>) -> Seq<Seq<Seq<char>>> {
    fs.map_values(|b: Vec<String>| views(b@))
}

/// Per-CPU flag lists of `/proc/cpuinfo`, or why it is malformed.
#[verifier::spinoff_prover]
#[verifier::rlimit(40)]
fn read_flags(text: &str) -> (r: Result<Vec<Vec<String>>, String>)
    ensures
        match (r, cpuinfo_flags(text@)) {
            (Ok(fs), Ok(sp)) => flag_view(fs@) == sp,
            (Err(m), Err(sm)) => m@ == sm,
            _ => false,
        },
{
    let tc = chars_of(text);
    let spans = blank_split_spans(&tc);
    let ghost blocks = split_blank(text@);
    let mut fs: Vec<Vec<String>> = Vec::new();
    let mut i: usize = 0;
    assert(blocks.take(0) =~= Seq::<Seq<char>>::empty());
    assert(flag_view(fs@) =~= Seq::<Seq<Seq<char>>>::empty());
    while i < spans.len()
        invariant
            i <= spans.len(),
            tc@ == text@,
            blocks == split_blank(text@),
            spans_valid(tc@, spans@),
            spans_view(tc@, spans@) == blocks,
            flag_sets(blocks.take(i as int)) == Some(flag_view(fs@)),
        decreases spans.len() - i,
    {
        let (a, b) = spans[i];
        let block = owned_range(text, a, b);
        assert(block@ == blocks[i as int]);
        let ghost pre = blocks.take(i as int);
        let ghost post = blocks.take(i + 1);
        assert(post.drop_last() =~= pre);
        let (processor, flags) = scan_block(block.as_str());
        if processor {
            match flags {
                Some(ws) => {
                    let ghost before = flag_view(fs@);
                    fs.push(ws);
                    assert(flag_view(fs@) =~= before.push(views(ws@)));
                },
                None => {
                    proof {
                        lemma_flag_sets_none(blocks, i + 1);
                    }
                    return Err(String::from_str("malformed /proc/cpuinfo: processor block lacks flags"));
                },
            }
        }
        i += 1;
    }
    assert(blocks.take(i as int) =~= blocks);
    if fs.len() == 0 {
        return Err(String::from_str("malformed /proc/cpuinfo: no processor blocks"));
    }
    Ok(fs)
}

fn words_contain(ws: &Vec<String>, flag: &str) -> (r: bool)
    ensures
        r == views(ws@).contains(flag@),
{
    let mut i: usize = 0;
    while i < ws.len()
        invariant
            i <= ws.len(),
            forall|k: int| 0 <= k < i ==> #[trigger] views(ws@)[k] != flag@,
        decreases ws.len() - i,
    {
        if str_eq(ws[i].as_str(), flag) {
            assert(views(ws@)[i as int] == flag@);
            return true;
        }
        i += 1;
    }
    false
}

fn count_flag(fs: &Vec<Vec<String>>, flag: &str) -> (c: usize)
    ensures
        c == flag_count(flag_view(fs@), flag@),
        c <= fs.len(),
{
    let mut c: usize = 0;
    let mut i: usize = 0;
    assert(flag_view(fs@).take(0) =~= Seq::<Seq<Seq<char>>>::empty());
    while i < fs.len()
        invariant
            i <= fs.len(),
            c <= i,
            c == flag_count(flag_view(fs@).take(i as int), flag@),
        decreases fs.len() - i,
    {
        assert(flag_view(fs@).take(i + 1).drop_last() =~= flag_view(fs@).take(i as int));
        if words_contain(&fs[i], flag) {
            c += 1;
        }
        i += 1;
    }
    assert(flag_view(fs@).take(i as int) =~= flag_view(fs@));
    c
}

// ---- the probe ----------------------------------------------------------------------

/// The catalog's features that declare a `/proc/cpuinfo` flag.
fn flagged_features() -> (r: Vec<(&'static str, &'static str)>)
    ensures
        r@ == flagged(catalog()),
{
    let defs = features();
    let mut out: Vec<(&'static str, &'static str)> = Vec::new();
    let mut i: usize = 0;
    assert(catalog().take(0) =~= Seq::<FeatureDef>::empty());
    while i < defs.len()
        invariant
            i <= defs.len(),
            defs@ == catalog(),
            out@ == flagged(catalog().take(i as int)),
        decreases defs.len() - i,
    {
        assert(catalog().take(i + 1).drop_last() =~= catalog().take(i as int));
        match defs[i].cpuinfo_flag {
            Some(f) => out.push((defs[i].id, f)),
            None => {},
        }
        i += 1;
    }
    assert(catalog().take(i as int) =~= catalog());
    out
}

fn flag_detection(fs: &Vec<Vec<String>>, flag: &str) -> (d: Detection)
    requires
        fs.len() > 0,
    ensures
        detection_is(d, SRC, flag_finding(flag_view(fs@), flag@)),
{
    let n = fs.len();
    let c = count_flag(fs, flag);
    if c == n {
        let mut s = String::from_str("/proc/cpuinfo flag '");
        s.append(flag);
        s.append("' on all ");
        push_dec(&mut s, n as u64);
        s.append(" CPUs");
        Detection::with_detail(Status::Present, SRC, s)
    } else if c > 0 {
        let mut s = String::from_str("/proc/cpuinfo flag '");
        s.append(flag);
        s.append("' asymmetric: ");
        push_dec(&mut s, c as u64);
        s.append("/");
        push_dec(&mut s, n as u64);
        s.append(" CPUs");
        Detection::with_detail(Status::Present, SRC, s)
    } else {
        let mut s = String::from_str("no '");
        s.append(flag);
        s.append("' flag on any of ");
        push_dec(&mut s, n as u64);
        s.append(" CPUs");
        Detection::with_detail(Status::Absent, SRC, s)
    }
}

pub struct ProcfsProbe;

impl Probe for ProcfsProbe {
    fn name(&self) -> (r: &'static str)
        ensures
            r == SRC,
    {
        SRC
    }

    /// Ids of the catalog features that declare a `/proc/cpuinfo` flag.
    fn feature_ids(&self) -> (r: Vec<&'static str>)
        ensures
            r@ == procfs_feature_ids(),
    {
        let items = flagged_features();
        let mut ids: Vec<&'static str> = Vec::new();
        let mut i: usize = 0;
        while i < items.len()
            invariant
                i <= items.len(),
                items@ == flagged(catalog()),
                ids@ =~= items@.take(i as int).map_values(|p: (&'static str, &'static str)| p.0),
            decreases items.len() - i,
        {
            ids.push(items[i].0);
            i += 1;
        }
        assert(items@.take(i as int) =~= items@);
        ids
    }
}

impl ProcfsProbe {
    /// Report each flagged feature from the contents of `/proc/cpuinfo`.
    pub fn decide(&self, cpuinfo: &TextRead) -> (out: Findings)
        ensures
            procfs_findings_ok(out@, *cpuinfo),
    {
        let text = match cpuinfo {
            Err(e) => {
                let mut reason = String::from_str("cannot inspect /proc/cpuinfo: ");
                reason.append(e.message.as_str());
                return unavailable(SRC, &self.feature_ids(), reason.as_str());
            },
            Ok(t) => t,
        };
        let fs = match read_flags(text.as_str()) {
            Err(m) => return unavailable(SRC, &self.feature_ids(), m.as_str()),
            Ok(fs) => fs,
        };
        let items = flagged_features();
        let ghost fv = flag_view(fs@);
        let mut out: Findings = Vec::new();
        let mut i: usize = 0;
        while i < items.len()
            invariant
                i <= items.len(),
                fs.len() > 0,
                fv == flag_view(fs@),
                items@ == flagged(catalog()),
                findings_are(out@, SRC, procfs_expected(fv, items@).take(i as int)),
            decreases items.len() - i,
        {
            let (id, flag) = items[i];
            let d = flag_detection(&fs, flag);
            proof {
                let exp = procfs_expected(fv, items@);
                lemma_findings_push(out@, SRC, exp.take(i as int), (id, d), exp[i as int]);
                assert(exp.take(i as int).push(exp[i as int]) =~= exp.take(i + 1));
            }
            out.push((id, d));
            i += 1;
        }
        assert(procfs_expected(fv, items@).take(i as int) =~= procfs_expected(fv, items@));
        out
    }
}

// ---- laws -------------------------------------------------------------------------------

/// No more CPUs carry a flag than there are CPUs.
pub proof fn flag_count_bounded(fs: Seq<Seq<Seq<char>>>, flag: Seq<char>)
    ensures
        flag_count(fs, flag) <= fs.len(),
    decreases fs.len(),
{
    if fs.len() > 0 {
        flag_count_bounded(fs.drop_last(), flag);
    }
}

/// A kernel flag is reported `Absent` exactly when no CPU lists it, `Present` when some
/// CPU does, and it is called uniform ("on all") exactly when every CPU lists it.
pub proof fn flag_finding_rules(fs: Seq<Seq<Seq<char>>>, flag: Seq<char>)
    requires
        fs.len() > 0,
    ensures
        (flag_finding(fs, flag).0 == Status::Absent) <==> flag_count(fs, flag) == 0,
        (flag_finding(fs, flag).0 == Status::Present) <==> flag_count(fs, flag) > 0,
        flag_count(fs, flag) == fs.len() ==> flag_finding(fs, flag).1 == "/proc/cpuinfo flag '"@
            + flag + "' on all "@ + dec(fs.len()) + " CPUs"@,
{
    flag_count_bounded(fs, flag);
}

/// procfs reports a flag `Absent` only when `/proc/cpuinfo` was read and parsed into at
/// least one processor block, none of which lists the flag.
pub proof fn procfs_absence_needs_parsed_cpuinfo(
    out: Seq<(&'static str, Detection)>,
    cpuinfo: TextRead,
    k: int,
)
    requires
        procfs_findings_ok(out, cpuinfo),
        0 <= k < out.len(),
        out[k].1.status == Status::Absent,
    ensures
        cpuinfo matches Ok(text) && cpuinfo_flags(text@) matches Ok(fs) && fs.len() > 0
            && flag_count(fs, flagged(catalog())[k].1@) == 0,
{
    match cpuinfo {
        Err(e) => {
            assert(crate::probes::is_unknown_finding(
                out[k],
                procfs_feature_ids()[k],
                SRC,
                "cannot inspect /proc/cpuinfo: "@ + e.message@,
            ));
        },
        Ok(text) => match cpuinfo_flags(text@) {
            Err(reason) => {
                assert(crate::probes::is_unknown_finding(out[k], procfs_feature_ids()[k], SRC, reason));
            },
            Ok(fs) => {
                let exp = procfs_expected(fs, flagged(catalog()));
                assert(detection_is(out[k].1, SRC, exp[k].1));
                flag_count_bounded(fs, flagged(catalog())[k].1@);
            },
        },
    }
}

} // verus!
