//! Handling of a second launch that the single-instance guard redirects to the
//! running instance.

use vstd::prelude::*;
use vstd::utf8::encode_utf8;

verus! {

/// `needle` stands in `hay` starting at position `i`.
pub open spec fn occurs_at(hay: Seq<u8>, needle: Seq<u8>, i: int) -> bool {
    &&& 0 <= i
    &&& i + needle.len() <= hay.len()
    &&& hay.subrange(i, i + needle.len()) == needle
}

/// `needle` is a contiguous part of `hay`.
pub open spec fn contains_seq(hay: Seq<u8>, needle: Seq<u8>) -> bool {
    exists|i: int| occurs_at(hay, needle, i)
}

/// Whether `needle` stands in `hay` at position `i`; the caller has checked
/// that it fits there.
fn matches_at(hay: &[u8], needle: &[u8], i: usize) -> (r: bool)
    requires
        i + needle@.len() <= hay@.len(),
    ensures
        r == occurs_at(hay@, needle@, i as int),
{
    let hay_len = hay.len();
    let mut j: usize = 0;
    while j < needle.len()
        invariant
            hay_len == hay@.len(),
            j <= needle@.len(),
            i + needle@.len() <= hay@.len(),
            forall|k: int| 0 <= k < j ==> hay@[i + k] == needle@[k],
        decreases needle@.len() - j,
    {
        if hay[i + j] != needle[j] {
            assert(hay@.subrange(i as int, i + needle@.len())[j as int] != needle@[j as int]);
            return false;
        }
        j = j + 1;
    }
    assert(hay@.subrange(i as int, i + needle@.len()) =~= needle@);
    true
}

/// Byte-wise substring search, the same test that `str::contains` makes with
/// a string pattern.
pub fn contains_bytes(hay: &[u8], needle: &[u8]) -> (r: bool)
    ensures
        r == contains_seq(hay@, needle@),
{
    if needle.len() > hay.len() {
        return false;
    }
    let last = hay.len() - needle.len();
    let mut i: usize = 0;
    loop
        invariant
            last == hay@.len() - needle@.len(),
            i <= last,
            forall|k: int| 0 <= k < i ==> !occurs_at(hay@, needle@, k),
        decreases last - i,
    {
        if matches_at(hay, needle, i) {
            return true;
        }
        if i == last {
            return false;
        }
        i = i + 1;
    }
}

/// The text whose presence marks a redirected URL as a login callback.
pub const LOGIN_MARKER: &'static str = "login";

/// The name of the in-process event that carries a login callback URL.
pub const SESSION_TOKEN_EVENT: &'static str = "session-token";

/// `url`, written in UTF-8, holds the login marker as a substring.
pub open spec fn mentions_login_spec(url: Seq<char>) -> bool {
    contains_seq(encode_utf8(url), encode_utf8(LOGIN_MARKER@))
}

/// A redirected launch is a login callback: it has a second argument and
/// that argument mentions the login marker.
pub open spec fn is_login_redirect(argv: Seq<String>) -> bool {
    argv.len() >= 2 && mentions_login_spec(argv[1]@)
}

/// An event broadcast to the running user interface.
pub struct Event {
    pub name: String,
    pub payload: String,
}

/// Whether `url` contains the login marker.
pub fn mentions_login(url: &str) -> (r: bool)
    ensures
        r == mentions_login_spec(url@),
{
    contains_bytes(url.as_bytes(), LOGIN_MARKER.as_bytes())
}

/// The events that a redirected launch with arguments `argv` produces.
///
/// The second argument is read as a URL. When it mentions the login marker,
/// one `session-token` event carries it; otherwise, and when there is no
/// second argument, nothing is emitted.
pub fn on_redirect(argv: &Vec<String>) -> (events: Vec<Event>)
    ensures
        events@.len() == (if is_login_redirect(argv@) { 1int } else { 0int }),
        is_login_redirect(argv@) ==> events@[0].name@ == SESSION_TOKEN_EVENT@,
        is_login_redirect(argv@) ==> events@[0].payload@ == argv@[1]@,
{
    let mut events: Vec<Event> = Vec::new();
    if argv.len() < 2 {
        return events;
    }
    let url = &argv[1];
    if mentions_login(url.as_str()) {
        events.push(Event { name: SESSION_TOKEN_EVENT.to_owned(), payload: url.clone() });
    }
    events
}

} // verus!
