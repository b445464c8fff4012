//! The data of the reports written at the end of a batch: a JUnit test case
//! per run, and an HTML bundle of one detail page per run with an index.
use vstd::prelude::*;
use crate::input::strs;
use crate::outcome::{EntryResult, HurlResult, HurlRun, RunError};

verus! {

/// Relies on uuid::Uuid::new_v4 and the `Display` of `Uuid`: a random
/// identifier, written in its hyphenated form of 36 characters.
#[verifier::external_body]
pub(crate) fn new_uuid() -> (r: String)
    ensures
        r@.len() == 36,
{
    uuid::Uuid::new_v4().to_string()
}

/// The messages of the errors of one kind (assertion errors when `assert`,
/// else runner errors), in order.
pub open spec fn error_messages(errs: Seq<RunError>, assert: bool) -> Seq<Seq<char>>
    decreases errs.len(),
{
    if errs.len() == 0 {
        Seq::empty()
    } else {
        error_messages(errs.drop_last(), assert) + if errs.last().assert == assert {
            seq![errs.last().message@]
        } else {
            Seq::empty()
        }
    }
}

/// The messages of the errors of one kind over all entries, in order.
pub open spec fn entry_messages(entries: Seq<EntryResult>, assert: bool) -> Seq<Seq<char>>
    decreases entries.len(),
{
    if entries.len() == 0 {
        Seq::empty()
    } else {
        entry_messages(entries.drop_last(), assert) + error_messages(entries.last().errors@, assert)
    }
}

/// One test case of a JUnit report: the file, its duration, the messages of
/// its failed assertions and those of its other errors.
#[derive(Clone, Debug)]
pub struct JunitTestcase {
    pub name: String,
    pub time_in_ms: u128,
    pub failures: Vec<String>,
    pub errors: Vec<String>,
}

/// The test case holds what the run gives it.
pub open spec fn junit_of(tc: JunitTestcase, run: HurlRun) -> bool {
    &&& tc.name@ == run.filename@
    &&& tc.time_in_ms == run.hurl_result.time_in_ms
    &&& strs(tc.failures@) == entry_messages(run.hurl_result.entries@, true)
    &&& strs(tc.errors@) == entry_messages(run.hurl_result.entries@, false)
}

/// Appends the messages of the errors of one kind to `out`.
fn push_messages(out: &mut Vec<String>, errors: &Vec<RunError>, assert: bool)
    ensures
        strs(final(out)@) == strs(old(out)@) + error_messages(errors@, assert),
{
    let ghost start = strs(out@);
    let mut j: usize = 0;
    while j < errors.len()
        invariant
            0 <= j <= errors@.len(),
            strs(out@) == start + error_messages(errors@.take(j as int), assert),
        decreases errors@.len() - j,
    {
        assert(errors@.take(j + 1).drop_last() =~= errors@.take(j as int));
        if errors[j].assert == assert {
            let m = errors[j].message.clone();
            let ghost before = out@;
            out.push(m);
            assert(strs(out@) =~= strs(before).push(errors@[j as int].message@));
        }
        assert(strs(out@) =~= start + error_messages(errors@.take(j + 1), assert));
        j += 1;
    }
    assert(errors@.take(j as int) =~= errors@);
}

/// The messages of the errors of one kind over all entries of a run.
fn messages(r: &HurlResult, assert: bool) -> (out: Vec<String>)
    ensures
        strs(out@) == entry_messages(r.entries@, assert),
{
    let mut out: Vec<String> = Vec::new();
    let mut i: usize = 0;
    while i < r.entries.len()
        invariant
            0 <= i <= r.entries@.len(),
            strs(out@) == entry_messages(r.entries@.take(i as int), assert),
        decreases r.entries@.len() - i,
    {
        assert(r.entries@.take(i + 1).drop_last() =~= r.entries@.take(i as int));
        push_messages(&mut out, &r.entries[i].errors, assert);
        i += 1;
    }
    assert(r.entries@.take(i as int) =~= r.entries@);
    out
}

impl JunitTestcase {
    /// The JUnit test case of one run.
    pub fn from(run: &HurlRun) -> (tc: JunitTestcase)
        ensures
            junit_of(tc, *run),
    {
        JunitTestcase {
            name: run.filename.clone(),
            time_in_ms: run.hurl_result.time_in_ms,
            failures: messages(&run.hurl_result, true),
            errors: messages(&run.hurl_result, false),
        }
    }
}

/// Returns the test cases of the JUnit report of a batch: one per run, in
/// the order of the runs.
pub fn create_junit_report(runs: &Vec<HurlRun>) -> (tcs: Vec<JunitTestcase>)
    ensures
        tcs@.len() == runs@.len(),
        forall|i: int| 0 <= i < runs@.len() ==> junit_of(#[trigger] tcs@[i], runs@[i]),
{
    let mut tcs: Vec<JunitTestcase> = Vec::new();
    let mut k: usize = 0;
    while k < runs.len()
        invariant
            0 <= k <= runs@.len(),
            tcs@.len() == k,
            forall|i: int| 0 <= i < k ==> junit_of(#[trigger] tcs@[i], runs@[i]),
        decreases runs@.len() - k,
    {
        tcs.push(JunitTestcase::from(&runs[k]));
        k += 1;
    }
    tcs
}

/// The directory of a report bundle that holds its detail pages.
pub open spec fn store_dir() -> Seq<char> {
    "store"@
}

/// A test case of an HTML report: a fresh identifier that names its detail
/// page, the file, and whether its run succeeded.
#[derive(Clone, Debug)]
pub struct HtmlTestcase {
    pub id: String,
    pub filename: String,
    pub success: bool,
    pub time_in_ms: u128,
}

/// The test case holds what the run gives it, under an identifier of 36
/// characters.
pub open spec fn html_of(tc: HtmlTestcase, run: HurlRun) -> bool {
    &&& tc.id@.len() == 36
    &&& tc.filename@ == run.filename@
    &&& tc.success == run.hurl_result.success
    &&& tc.time_in_ms == run.hurl_result.time_in_ms
}

/// The path of a test case's detail page, relative to the bundle's root.
pub open spec fn detail_page(tc: HtmlTestcase) -> Seq<char> {
    store_dir() + "/"@ + tc.id@ + ".html"@
}

impl HtmlTestcase {
    /// The HTML test case of one run, under a fresh identifier.
    pub fn from(run: &HurlRun) -> (tc: HtmlTestcase)
        ensures
            html_of(tc, *run),
    {
        HtmlTestcase {
            id: new_uuid(),
            filename: run.filename.clone(),
            success: run.hurl_result.success,
            time_in_ms: run.hurl_result.time_in_ms,
        }
    }

    /// The path of the detail page, relative to the bundle's root.
    pub fn page(&self) -> (p: String)
        ensures
            p@ == detail_page(*self),
    {
        let mut p = String::from_str("store/");
        p.append(self.id.as_str());
        p.append(".html");
        proof {
            reveal_strlit("store/");
            reveal_strlit("store");
            reveal_strlit("/");
            assert("store/"@ =~= store_dir() + "/"@);
        }
        p
    }
}

/// Returns the test cases of the HTML report of a batch: one per run, in
/// the order of the runs, each naming one detail page.
pub fn create_html_report(runs: &Vec<HurlRun>) -> (tcs: Vec<HtmlTestcase>)
    ensures
        tcs@.len() == runs@.len(),
        forall|i: int| 0 <= i < runs@.len() ==> html_of(#[trigger] tcs@[i], runs@[i]),
{
    let mut tcs: Vec<HtmlTestcase> = Vec::new();
    let mut k: usize = 0;
    while k < runs.len()
        invariant
            0 <= k <= runs@.len(),
            tcs@.len() == k,
            forall|i: int| 0 <= i < k ==> html_of(#[trigger] tcs@[i], runs@[i]),
        decreases runs@.len() - k,
    {
        tcs.push(HtmlTestcase::from(&runs[k]));
        k += 1;
    }
    tcs
}

/// The links of an index page: the detail page of each test case, in order.
pub open spec fn index_links(tcs: Seq<HtmlTestcase>) -> Seq<Seq<char>> {
    tcs.map_values(|tc: HtmlTestcase| detail_page(tc))
}

/// Returns the links of the index page of a report bundle.
pub fn html_index(tcs: &Vec<HtmlTestcase>) -> (links: Vec<String>)
    ensures
        strs(links@) == index_links(tcs@),
{
    let mut links: Vec<String> = Vec::new();
    let mut k: usize = 0;
    while k < tcs.len()
        invariant
            0 <= k <= tcs@.len(),
            strs(links@) == index_links(tcs@.take(k as int)),
        decreases tcs@.len() - k,
    {
        let p = tcs[k].page();
        let ghost before = links@;
        links.push(p);
        assert(strs(links@) =~= strs(before).push(detail_page(tcs@[k as int])));
        assert(index_links(tcs@.take(k + 1)) =~= index_links(tcs@.take(k as int)).push(detail_page(tcs@[k as int])));
        k += 1;
    }
    assert(tcs@.take(k as int) =~= tcs@);
    links
}

/// The index of a report bundle made from a batch links exactly one detail
/// page per run, in the order of the runs, each the page of that run's file.
pub proof fn lemma_index_one_page_per_run(runs: Seq<HurlRun>, tcs: Seq<HtmlTestcase>)
    requires
        tcs.len() == runs.len(),
        forall|i: int| 0 <= i < runs.len() ==> html_of(#[trigger] tcs[i], runs[i]),
    ensures
        index_links(tcs).len() == runs.len(),
        forall|i: int| 0 <= i < runs.len() ==> (#[trigger] index_links(tcs)[i]) == detail_page(tcs[i])
            && tcs[i].filename@ == runs[i].filename@,
{
    assert forall|i: int| 0 <= i < runs.len() implies (#[trigger] index_links(tcs)[i]) == detail_page(tcs[i])
        && tcs[i].filename@ == runs[i].filename@ by {
        assert(html_of(tcs[i], runs[i]));
    }
}

} // verus!
