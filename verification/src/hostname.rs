//! The name of a mount namespace's host, as its `/etc/hostname` gives it.

use vstd::prelude::*;

verus! {

/// The characters that count as white space: those with the Unicode property
/// `White_Space`.
pub open spec fn is_white_space(c: char) -> bool {
    let n = c as u32;
    ||| 0x09 <= n <= 0x0d
    ||| n == 0x20
    ||| n == 0x85
    ||| n == 0xa0
    ||| n == 0x1680
    ||| 0x2000 <= n <= 0x200a
    ||| n == 0x2028
    ||| n == 0x2029
    ||| n == 0x202f
    ||| n == 0x205f
    ||| n == 0x3000
}

/// `s` without the white space at its end.
pub open spec fn trimmed_end(s: Seq<char>) -> Seq<char>
    decreases s.len(),
{
    if s.len() > 0 && is_white_space(s.last()) {
        trimmed_end(s.drop_last())
    } else {
        s
    }
}

/// The host name to keep for a namespace, given what reading its
/// `/etc/hostname` gave: the text without the white space at its end, and
/// a question mark where the file could not be read.
pub open spec fn hostname_of(text: Option<String>) -> Seq<char> {
    match text {
        Some(t) => trimmed_end(t@),
        None => seq!['?'],
    }
}

/// `str::trim_end`. Trusted: the result is the text without its trailing
/// white space, where white space is what Unicode calls `White_Space`.
#[verifier::external_body]
fn trim_end<'a>(s: &'a str) -> (t: &'a str)
    ensures
        t@ == trimmed_end(s@),
{
    s.trim_end()
}

/// The host name to keep, as a string. See `hostname_of`.
pub fn resolve_hostname(text: &Option<String>) -> (name: String)
    ensures
        name@ == hostname_of(*text),
{
    match text {
        Some(t) => trim_end(t.as_str()).to_owned(),
        None => {
            proof {
                reveal_strlit("?");
                assert("?"@ =~= seq!['?']);
            }
            "?".to_owned()
        },
    }
}

} // verus!
