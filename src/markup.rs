//! The markup of the report files: a JUnit XML document, and the index and
//! detail pages of an HTML report bundle.
use vstd::prelude::*;
use vstd::string::StrSliceExecFns;
use crate::input::strs;
use crate::report::{detail_page, HtmlTestcase, JunitTestcase};
use crate::summary::{decimal, digit_char, push_decimal};

verus! {

/// The markup that stands for one character in text or in a quoted attribute.
pub open spec fn escape_char(c: char) -> Seq<char> {
    if c == '&' {
        "&amp;"@
    } else if c == '<' {
        "&lt;"@
    } else if c == '>' {
        "&gt;"@
    } else if c == '"' {
        "&quot;"@
    } else if c == '\'' {
        "&#39;"@
    } else {
        seq![c]
    }
}

/// Text made safe for XML and HTML, character by character.
pub open spec fn escape(s: Seq<char>) -> Seq<char>
    decreases s.len(),
{
    if s.len() == 0 {
        Seq::empty()
    } else {
        escape(s.drop_last()) + escape_char(s.last())
    }
}

/// Appends `text`, escaped, to `out`.
pub fn push_escaped(out: &mut String, text: &str)
    ensures
        final(out)@ == old(out)@ + escape(text@),
{
    let n = text.unicode_len();
    let ghost start = out@;
    let mut i: usize = 0;
    while i < n
        invariant
            n == text@.len(),
            0 <= i <= n,
            out@ == start + escape(text@.take(i as int)),
        decreases n - i,
    {
        let c = text.get_char(i);
        if c == '&' {
            out.append("&amp;");
        } else if c == '<' {
            out.append("&lt;");
        } else if c == '>' {
            out.append("&gt;");
        } else if c == '"' {
            out.append("&quot;");
        } else if c == '\'' {
            out.append("&#39;");
        } else {
            let one = text.substring_char(i, i + 1);
            assert(one@ =~= seq![c]);
            out.append(one);
        }
        assert(text@.take(i + 1).drop_last() =~= text@.take(i as int));
        i += 1;
    }
    assert(text@.take(n as int) =~= text@);
}

/// A duration in milliseconds written in seconds, with three decimals.
pub open spec fn seconds(ms: nat) -> Seq<char> {
    decimal(ms / 1000) + "."@ + seq![digit_char((ms % 1000) / 100), digit_char((ms % 100) / 10), digit_char(ms % 10)]
}

/// Each message of the list, escaped, inside an element named `tag`.
pub open spec fn elements(tag: Seq<char>, messages: Seq<Seq<char>>) -> Seq<char>
    decreases messages.len(),
{
    if messages.len() == 0 {
        Seq::empty()
    } else {
        elements(tag, messages.drop_last()) + "<"@ + tag + ">"@ + escape(messages.last()) + "</"@ + tag + ">"@
    }
}

/// The element of one JUnit test case.
pub open spec fn testcase_xml(tc: JunitTestcase) -> Seq<char> {
    "<testcase name=\""@ + escape(tc.name@) + "\" time=\""@ + seconds(tc.time_in_ms as nat) + "\">"@
        + elements("failure"@, strs(tc.failures@)) + elements("error"@, strs(tc.errors@)) + "</testcase>"@
}

/// The elements of the test cases, in order.
pub open spec fn testcases_xml(tcs: Seq<JunitTestcase>) -> Seq<char>
    decreases tcs.len(),
{
    if tcs.len() == 0 {
        Seq::empty()
    } else {
        testcases_xml(tcs.drop_last()) + testcase_xml(tcs.last())
    }
}

/// The JUnit XML document of a batch.
pub open spec fn junit_document(tcs: Seq<JunitTestcase>) -> Seq<char> {
    "<?xml version=\"1.0\" encoding=\"UTF-8\"?>\n<testsuites><testsuite>"@ + testcases_xml(tcs)
        + "</testsuite></testsuites>\n"@
}

/// Appends a duration in milliseconds, written in seconds.
fn push_seconds(out: &mut String, ms: u128)
    ensures
        final(out)@ == old(out)@ + seconds(ms as nat),
{
    push_decimal(out, ms / 1000);
    out.append(".");
    let r = ms % 1000;
    push_decimal(out, r / 100);
    push_decimal(out, (r % 100) / 10);
    push_decimal(out, r % 10);
    assert(((ms as nat) % 1000) / 100 == r / 100);
    assert(((ms as nat) % 100) / 10 == (r % 100) / 10);
    assert((ms as nat) % 10 == r % 10);
}

/// Appends each message inside an element named `tag`.
fn push_elements(out: &mut String, tag: &str, messages: &Vec<String>)
    ensures
        final(out)@ == old(out)@ + elements(tag@, strs(messages@)),
{
    let ghost start = out@;
    let mut i: usize = 0;
    while i < messages.len()
        invariant
            0 <= i <= messages@.len(),
            out@ == start + elements(tag@, strs(messages@.take(i as int))),
        decreases messages@.len() - i,
    {
        out.append("<");
        out.append(tag);
        out.append(">");
        push_escaped(out, messages[i].as_str());
        out.append("</");
        out.append(tag);
        out.append(">");
        assert(strs(messages@.take(i + 1)).drop_last() =~= strs(messages@.take(i as int)));
        i += 1;
    }
    assert(messages@.take(i as int) =~= messages@);
}

/// Appends the element of one JUnit test case.
fn push_testcase(out: &mut String, tc: &JunitTestcase)
    ensures
        final(out)@ == old(out)@ + testcase_xml(*tc),
{
    let ghost start = out@;
    out.append("<testcase name=\"");
    push_escaped(out, tc.name.as_str());
    out.append("\" time=\"");
    push_seconds(out, tc.time_in_ms);
    out.append("\">");
    push_elements(out, "failure", &tc.failures);
    push_elements(out, "error", &tc.errors);
    out.append("</testcase>");
    proof {
        reveal_strlit("failure");
        reveal_strlit("error");
    }
    assert(out@ =~= start + testcase_xml(*tc));
}

/// Returns the JUnit XML document of a batch: one test case element per
/// test case, in order, with an element per failure and per error.
pub fn junit_xml(tcs: &Vec<JunitTestcase>) -> (doc: String)
    ensures
        doc@ == junit_document(tcs@),
{
    let mut out = String::from_str("<?xml version=\"1.0\" encoding=\"UTF-8\"?>\n<testsuites><testsuite>");
    let mut k: usize = 0;
    while k < tcs.len()
        invariant
            0 <= k <= tcs@.len(),
            out@ == "<?xml version=\"1.0\" encoding=\"UTF-8\"?>\n<testsuites><testsuite>"@ + testcases_xml(tcs@.take(k as int)),
        decreases tcs@.len() - k,
    {
        push_testcase(&mut out, &tcs[k]);
        assert(tcs@.take(k + 1).drop_last() =~= tcs@.take(k as int));
        k += 1;
    }
    assert(tcs@.take(k as int) =~= tcs@);
    out.append("</testsuite></testsuites>\n");
    out
}

/// The row of the index page for one test case: a link to its detail page,
/// named by its file, and its duration.
pub open spec fn index_row(tc: HtmlTestcase) -> Seq<char> {
    "<tr class=\""@ + (if tc.success { "success"@ } else { "failure"@ }) + "\"><td><a href=\""@
        + detail_page(tc) + "\">"@ + escape(tc.filename@) + "</a></td><td>"@
        + seconds(tc.time_in_ms as nat) + "</td></tr>"@
}

/// The rows of the index page, in order.
pub open spec fn index_rows(tcs: Seq<HtmlTestcase>) -> Seq<char>
    decreases tcs.len(),
{
    if tcs.len() == 0 {
        Seq::empty()
    } else {
        index_rows(tcs.drop_last()) + index_row(tcs.last())
    }
}

/// The opening of every page of a report bundle.
pub open spec fn page_head() -> Seq<char> {
    "<!DOCTYPE html>\n<html><head><meta charset=\"utf-8\"><title>"@
}

/// The index page of a report bundle.
pub open spec fn index_document(tcs: Seq<HtmlTestcase>) -> Seq<char> {
    page_head() + "Test Report</title></head><body><table>"@ + index_rows(tcs)
        + "</table></body></html>\n"@
}

/// The detail page of one test case: its file's name and content.
pub open spec fn detail_document(tc: HtmlTestcase, content: Seq<char>) -> Seq<char> {
    page_head() + escape(tc.filename@) + "</title></head><body><h1>"@ + escape(tc.filename@)
        + "</h1><pre>"@ + escape(content) + "</pre></body></html>\n"@
}

/// Appends the row of the index page for one test case.
fn push_index_row(out: &mut String, tc: &HtmlTestcase)
    ensures
        final(out)@ == old(out)@ + index_row(*tc),
{
    let ghost start = out@;
    out.append("<tr class=\"");
    if tc.success {
        out.append("success");
    } else {
        out.append("failure");
    }
    out.append("\"><td><a href=\"");
    let p = tc.page();
    out.append(p.as_str());
    out.append("\">");
    push_escaped(out, tc.filename.as_str());
    out.append("</a></td><td>");
    push_seconds(out, tc.time_in_ms);
    out.append("</td></tr>");
    assert(out@ =~= start + index_row(*tc));
}

/// Returns the index page of a report bundle: one row per test case, in
/// order, each linking that test case's detail page.
pub fn html_index_page(tcs: &Vec<HtmlTestcase>) -> (page: String)
    ensures
        page@ == index_document(tcs@),
{
    let mut out = String::from_str("<!DOCTYPE html>\n<html><head><meta charset=\"utf-8\"><title>");
    out.append("Test Report</title></head><body><table>");
    let mut k: usize = 0;
    while k < tcs.len()
        invariant
            0 <= k <= tcs@.len(),
            out@ == page_head() + "Test Report</title></head><body><table>"@ + index_rows(tcs@.take(k as int)),
        decreases tcs@.len() - k,
    {
        push_index_row(&mut out, &tcs[k]);
        assert(tcs@.take(k + 1).drop_last() =~= tcs@.take(k as int));
        k += 1;
    }
    assert(tcs@.take(k as int) =~= tcs@);
    out.append("</table></body></html>\n");
    out
}

/// Returns the detail page of one test case, showing the content of its file.
pub fn html_detail_page(tc: &HtmlTestcase, content: &str) -> (page: String)
    ensures
        page@ == detail_document(*tc, content@),
{
    let mut out = String::from_str("<!DOCTYPE html>\n<html><head><meta charset=\"utf-8\"><title>");
    push_escaped(&mut out, tc.filename.as_str());
    out.append("</title></head><body><h1>");
    push_escaped(&mut out, tc.filename.as_str());
    out.append("</h1><pre>");
    push_escaped(&mut out, content);
    out.append("</pre></body></html>\n");
    out
}

} // verus!
