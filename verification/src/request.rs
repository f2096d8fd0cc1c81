//! Where the transcription service is reached.

use vstd::prelude::*;
use vstd::string::StringExecFns;

verus! {

/// The address of the service, as text.
pub open spec fn base_url_text() -> Seq<char> {
    seq![
        'h',
        't',
        't',
        'p',
        ':',
        '/',
        '/',
        'l',
        'o',
        'c',
        'a',
        'l',
        'h',
        'o',
        's',
        't',
        ':',
        '5',
        '0',
        '0',
        '0',
    ]
}

/// The address of the service.
pub fn base_url() -> (r: &'static str)
    ensures
        r@ == base_url_text(),
{
    proof {
        reveal_strlit("http://localhost:5000");
    }
    let r = "http://localhost:5000";
    assert(r@ =~= base_url_text());
    r
}

/// The address that a request to the path `url` of the service goes to.
pub fn full_url(url: &str) -> (r: String)
    ensures
        r@ == base_url_text() + url@,
{
    let mut full = String::from_str(base_url());
    full.append(url);
    full
}

} // verus!
