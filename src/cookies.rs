//! The cookie file written after a single-file run.
use vstd::prelude::*;
use crate::exit::CliError;
use crate::outcome::{Cookie, HurlRun};

verus! {

/// The two comment lines and the blank line that open a cookie file.
pub open spec fn cookie_header() -> Seq<char> {
    "# Netscape HTTP Cookie File\n# This file was generated by Hurl\n\n"@
}

/// A cookie in the Netscape cookie-line format, without the line break.
pub open spec fn cookie_line(c: Cookie) -> Seq<char> {
    (if c.http_only { "#HttpOnly_"@ } else { Seq::empty() }) + c.domain@ + "\t"@
        + c.include_subdomain@ + "\t"@ + c.path@ + "\t"@ + c.https@ + "\t"@ + c.expires@
        + "\t"@ + c.name@ + "\t"@ + c.value@
}

/// The cookies, one line each, every line ended by a line break.
pub open spec fn cookie_lines(cookies: Seq<Cookie>) -> Seq<char>
    decreases cookies.len(),
{
    if cookies.len() == 0 {
        Seq::empty()
    } else {
        cookie_lines(cookies.drop_last()) + cookie_line(cookies.last()) + "\n"@
    }
}

impl Cookie {
    /// Writes the cookie as a Netscape cookie line.
    pub fn to_netscape(&self) -> (s: String)
        ensures
            s@ == cookie_line(*self),
    {
        let mut s = String::new();
        if self.http_only {
            s.append("#HttpOnly_");
        }
        s.append(self.domain.as_str());
        s.append("\t");
        s.append(self.include_subdomain.as_str());
        s.append("\t");
        s.append(self.path.as_str());
        s.append("\t");
        s.append(self.https.as_str());
        s.append("\t");
        s.append(self.expires.as_str());
        s.append("\t");
        s.append(self.name.as_str());
        s.append("\t");
        s.append(self.value.as_str());
        proof {
            if !self.http_only {
                assert(Seq::<char>::empty() + self.domain@ == self.domain@);
            }
        }
        s
    }
}

/// Returns the content of the cookie file of a batch. Cookies can only be
/// saved for a single session: the batch must hold exactly one run.
pub fn cookie_file_content(runs: &Vec<HurlRun>) -> (r: Result<String, CliError>)
    ensures
        r is Ok <==> runs@.len() == 1,
        runs@.len() == 1 ==> r->Ok_0@ == cookie_header() + cookie_lines(runs@[0].hurl_result.cookies@),
        runs@.len() == 0 ==> r->Err_0.message@ == "Issue fetching results"@,
        runs@.len() > 1 ==> r->Err_0.message@ == "Only save cookies for a unique session"@,
{
    if runs.len() == 0 {
        return Err(CliError { message: String::from_str("Issue fetching results") });
    }
    if runs.len() > 1 {
        return Err(CliError { message: String::from_str("Only save cookies for a unique session") });
    }
    let cookies = &runs[0].hurl_result.cookies;
    let mut s = String::from_str("# Netscape HTTP Cookie File\n# This file was generated by Hurl\n\n");
    let mut i: usize = 0;
    while i < cookies.len()
        invariant
            0 <= i <= cookies@.len(),
            s@ == cookie_header() + cookie_lines(cookies@.take(i as int)),
        decreases cookies@.len() - i,
    {
        let line = cookies[i].to_netscape();
        s.append(line.as_str());
        s.append("\n");
        assert(cookies@.take(i + 1).drop_last() == cookies@.take(i as int));
        i += 1;
    }
    assert(cookies@.take(i as int) == cookies@);
    Ok(s)
}

} // verus!
