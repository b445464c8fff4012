use hurl::{html_detail_page, html_index_page, junit_xml, HtmlTestcase, JunitTestcase};

#[test]
fn junit_document_lists_testcases_with_failures_and_errors() {
    let tcs = vec![
        JunitTestcase { name: "a.hurl".to_string(), time_in_ms: 7, failures: vec![], errors: vec![] },
        JunitTestcase {
            name: "b&c.hurl".to_string(),
            time_in_ms: 12034,
            failures: vec!["expected <200> got \"404\"".to_string()],
            errors: vec!["it's refused".to_string()],
        },
    ];
    assert_eq!(
        junit_xml(&tcs),
        "<?xml version=\"1.0\" encoding=\"UTF-8\"?>\n<testsuites><testsuite>\
         <testcase name=\"a.hurl\" time=\"0.007\"></testcase>\
         <testcase name=\"b&amp;c.hurl\" time=\"12.034\">\
         <failure>expected &lt;200&gt; got &quot;404&quot;</failure>\
         <error>it&#39;s refused</error></testcase>\
         </testsuite></testsuites>\n"
    );
    assert_eq!(
        junit_xml(&vec![]),
        "<?xml version=\"1.0\" encoding=\"UTF-8\"?>\n<testsuites><testsuite></testsuite></testsuites>\n"
    );
}

#[test]
fn html_index_page_links_detail_pages_in_order() {
    let tcs = vec![
        HtmlTestcase { id: "11111111-1111-4111-8111-111111111111".to_string(), filename: "a.hurl".to_string(), success: true, time_in_ms: 1500 },
        HtmlTestcase { id: "22222222-2222-4222-8222-222222222222".to_string(), filename: "<b>.hurl".to_string(), success: false, time_in_ms: 20 },
    ];
    assert_eq!(
        html_index_page(&tcs),
        "<!DOCTYPE html>\n<html><head><meta charset=\"utf-8\"><title>Test Report</title></head><body><table>\
         <tr class=\"success\"><td><a href=\"store/11111111-1111-4111-8111-111111111111.html\">a.hurl</a></td><td>1.500</td></tr>\
         <tr class=\"failure\"><td><a href=\"store/22222222-2222-4222-8222-222222222222.html\">&lt;b&gt;.hurl</a></td><td>0.020</td></tr>\
         </table></body></html>\n"
    );
}

#[test]
fn html_detail_page_shows_escaped_content() {
    let tc = HtmlTestcase { id: "x".to_string(), filename: "é.hurl".to_string(), success: true, time_in_ms: 0 };
    assert_eq!(
        html_detail_page(&tc, "GET http://a.b/?q=1&r=2\nHTTP 200 <ok>"),
        "<!DOCTYPE html>\n<html><head><meta charset=\"utf-8\"><title>é.hurl</title></head><body><h1>é.hurl</h1>\
         <pre>GET http://a.b/?q=1&amp;r=2\nHTTP 200 &lt;ok&gt;</pre></body></html>\n"
    );
}
