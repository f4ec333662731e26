//! Running one stored request: the text shown of its response and the file its
//! raw response is logged to.
use vstd::prelude::*;
use vstd::string::*;
use vstd::utf8::{decode_utf8, valid_utf8};

use crate::text::concat2;
use crate::load_tests::{is_time_stamp, log_file_name, stamp_of, time_stamp_now};

verus! {

/// What `html_escape::encode_text` writes for one character.
pub open spec fn escaped_char(c: char) -> Seq<char> {
    if c == '&' {
        "&amp;"@
    } else if c == '<' {
        "&lt;"@
    } else if c == '>' {
        "&gt;"@
    } else {
        seq![c]
    }
}

/// `s` with `&`, `<` and `>` written as the entities `&amp;`, `&lt;` and `&gt;`.
pub open spec fn escaped_text(s: Seq<char>) -> Seq<char>
    decreases s.len(),
{
    if s.len() == 0 {
        Seq::empty()
    } else {
        escaped_text(s.drop_last()) + escaped_char(s.last())
    }
}

/// `html_escape::encode_text`: its source replaces exactly `&`, `<` and `>` by
/// `&amp;`, `&lt;` and `&gt;` and copies every other character.
#[verifier::external_body]
fn encode_text(s: &str) -> (res: String)
    ensures
        res@ == escaped_text(s@),
{
    html_escape::encode_text(s).into_owned()
}

/// `String::from_utf8`: the text that `bytes` encode in UTF-8, when they are
/// valid UTF-8.
#[verifier::external_body]
pub(crate) fn utf8_text(bytes: Vec<u8>) -> (res: Option<String>)
    ensures
        res is Some <==> valid_utf8(bytes@),
        res matches Some(s) ==> s@ == decode_utf8(bytes@),
{
    String::from_utf8(bytes).ok()
}

/// The text shown for a response body: the body read as UTF-8, with `&`, `<`
/// and `>` escaped for HTML.
pub fn run_output(body: Vec<u8>) -> (res: String)
    requires
        valid_utf8(body@),
    ensures
        res@ == escaped_text(decode_utf8(body@)),
{
    match utf8_text(body) {
        Some(t) => encode_text(t.as_str()),
        None => String::new(),
    }
}

/// The text shown for a response never holds `<` or `>`: escaped text has no tags.
pub proof fn law_escaped_output_has_no_tags(s: Seq<char>)
    ensures
        forall|i: int|
            0 <= i < escaped_text(s).len() ==> #[trigger] escaped_text(s)[i] != '<'
                && escaped_text(s)[i] != '>',
    decreases s.len(),
{
    reveal_strlit("&amp;");
    reveal_strlit("&lt;");
    reveal_strlit("&gt;");
    if s.len() > 0 {
        law_escaped_output_has_no_tags(s.drop_last());
        let a = escaped_text(s.drop_last());
        let b = escaped_char(s.last());
        assert forall|i: int| 0 <= i < b.len() implies #[trigger] b[i] != '<' && b[i] != '>' by {}
        assert forall|i: int| 0 <= i < (a + b).len() implies #[trigger] (a + b)[i] != '<' && (a
            + b)[i] != '>' by {
            if i < a.len() {
                assert((a + b)[i] == a[i]);
            } else {
                assert((a + b)[i] == b[i - a.len()]);
            }
        }
    }
}

/// Where the raw response of a run stamped `stamp` is logged.
pub open spec fn run_log_file(stamp: Seq<char>) -> Seq<char> {
    "./static/log"@ + "/"@ + log_file_name(stamp)
}

/// The log file for a run stamped `stamp`.
pub fn run_log_path(stamp: &str) -> (res: String)
    ensures
        res@ == run_log_file(stamp@),
{
    let mut s = String::from_str("./static/log");
    s.append("/");
    s.append("log_");
    s.append(stamp);
    s.append(".txt");
    s
}

/// The log file for a run started now: its stamp, the current time, and the
/// file named after it; `None` when the clock gives no stamp.
pub fn new_run_log_path() -> (res: Option<(String, String)>)
    ensures
        res matches Some(p) ==> {
            &&& is_time_stamp(p.0@)
            &&& p.1@ == run_log_file(p.0@)
            &&& exists|r: Option<(u64, u32)>| #[trigger] stamp_of(r) == Some(p.0@)
        },
{
    match time_stamp_now() {
        Some(stamp) => {
            let path = run_log_path(stamp.as_str());
            Some((stamp, path))
        },
        None => None,
    }
}

/// The address a stored request is sent to: its collection's host followed by
/// its path.
pub fn request_url(host: &str, path: &str) -> (res: String)
    ensures
        res@ == host@ + path@,
{
    concat2(host, path)
}

} // verus!
