//! Which addresses may be handed to the system to be opened.

use vstd::prelude::*;
use vstd::string::StringExecFns;
use crate::strings::{chars_of, matches_at, starts_with_text, str_equals, string_of};
use crate::text::{
    ascii_lower, copy_range, first_index, first_index_is, to_ascii_lower, trim_chars, trimmed,
};

verus! {

/// A text with its ASCII letters in lower case.
pub open spec fn ascii_lowered(s: Seq<char>) -> Seq<char> {
    Seq::new(s.len(), |i: int| ascii_lower(s[i]))
}

/// What stands before the first `c` in `s`: all of `s`, if there is none.
pub open spec fn before_first(s: Seq<char>, c: char) -> Seq<char> {
    s.take(first_index(s, c))
}

/// The host that an `https` address names, in lower case: what stands
/// between the scheme and the first slash, without a port.
pub open spec fn https_host(address: Seq<char>) -> Option<Seq<char>> {
    let given = trimmed(address);
    if starts_with_text(ascii_lowered(given), "https://"@) {
        Some(before_first(ascii_lowered(before_first(given.skip(8), '/')), ':'))
    } else {
        None
    }
}

/// Whether an address is an `https` address of one of the hosts.
pub open spec fn allowed_https_host(address: Seq<char>, hosts: Seq<Seq<char>>) -> bool {
    https_host(address) matches Some(host) && hosts.contains(host)
}

/// Whether an address begins, after any whitespace and in any case, with
/// `obsidian://`.
pub open spec fn has_obsidian_scheme(address: Seq<char>) -> bool {
    starts_with_text(ascii_lowered(trimmed(address)), "obsidian://"@)
}

fn lowered(s: &Vec<char>) -> (out: Vec<char>)
    ensures
        out@ == ascii_lowered(s@),
{
    let mut out: Vec<char> = Vec::new();
    let mut i: usize = 0;
    while i < s.len()
        invariant
            i <= s.len(),
            out@.len() == i,
            forall|k: int| 0 <= k < i ==> out@[k] == ascii_lower(s@[k]),
        decreases s.len() - i,
    {
        out.push(to_ascii_lower(s[i]));
        i += 1;
    }
    assert(out@ =~= ascii_lowered(s@));
    out
}

fn up_to(s: &Vec<char>, c: char) -> (out: Vec<char>)
    ensures
        out@ == before_first(s@, c),
{
    let mut i: usize = 0;
    while i < s.len() && s[i] != c
        invariant
            i <= s.len(),
            forall|k: int| 0 <= k < i ==> s@[k] != c,
        decreases s.len() - i,
    {
        i += 1;
    }
    proof {
        first_index_is(s@, c, i as int);
    }
    let out = copy_range(s, 0, i);
    assert(out@ =~= s@.take(i as int));
    out
}

/// Whether an address is an `https` address of one of the hosts. The
/// address may have whitespace around it, and its scheme and host may be in
/// any case; the hosts are given in lower case.
pub fn is_allowed_https_host(url: &str, allowed_hosts: &Vec<String>) -> (allowed: bool)
    ensures
        allowed == allowed_https_host(url@, allowed_hosts.deep_view()),
{
    let given = trim_chars(&chars_of(url));
    let lower = lowered(&given);
    if !matches_at(&lower, &chars_of("https://"), 0) {
        return false;
    }
    proof {
        reveal_strlit("https://");
        assert(lower@.len() >= 8);
    }
    let rest = copy_range(&given, 8, given.len());
    assert(rest@ =~= given@.skip(8));
    let host_port = lowered(&up_to(&rest, '/'));
    let host = string_of(&up_to(&host_port, ':'));
    let mut i: usize = 0;
    assert(https_host(url@) == Some(host@));
    while i < allowed_hosts.len()
        invariant
            i <= allowed_hosts.len(),
            https_host(url@) == Some(host@),
            forall|k: int| 0 <= k < i ==> allowed_hosts.deep_view()[k] != host@,
        decreases allowed_hosts.len() - i,
    {
        if str_equals(allowed_hosts[i].as_str(), host.as_str()) {
            assert(allowed_hosts.deep_view()[i as int] == host@);
            return true;
        }
        i += 1;
    }
    false
}

/// Whether an address may be opened as a page of GitHub.
pub fn open_github_url(url: &str) -> (checked: Result<(), String>)
    ensures
        match checked {
            Ok(_) => allowed_https_host(url@, seq!["github.com"@, "gist.github.com"@]),
            Err(reason) => !allowed_https_host(url@, seq!["github.com"@, "gist.github.com"@])
                && reason@ == "Blocked URL host for GitHub open operation."@,
        },
{
    let mut hosts: Vec<String> = Vec::new();
    hosts.push(String::from_str("github.com"));
    hosts.push(String::from_str("gist.github.com"));
    assert(hosts.deep_view() =~= seq!["github.com"@, "gist.github.com"@]);
    if is_allowed_https_host(url, &hosts) {
        Ok(())
    } else {
        Err(String::from_str("Blocked URL host for GitHub open operation."))
    }
}

/// Whether an address may be opened as a link into Obsidian.
pub fn open_obsidian_url(url: &str) -> (checked: Result<(), String>)
    ensures
        match checked {
            Ok(_) => has_obsidian_scheme(url@),
            Err(reason) => !has_obsidian_scheme(url@) && reason@
                == "Blocked URL scheme for Obsidian open operation."@,
        },
{
    let lower = lowered(&trim_chars(&chars_of(url)));
    if matches_at(&lower, &chars_of("obsidian://"), 0) {
        Ok(())
    } else {
        Err(String::from_str("Blocked URL scheme for Obsidian open operation."))
    }
}

} // verus!
