//! Which site a page comes from, resolved once from its source.

use vstd::prelude::*;
use vstd::string::StrSliceExecFns;

verus! {

/// The marker of a Compass listing in a source URL.
pub const COMPASS_MARKER: &'static str = "compass";

/// The marker of a Zillow listing in a source URL.
pub const ZILLOW_MARKER: &'static str = "zillow";

/// The sites whose pages can be scraped.
#[derive(Clone, Copy, Debug, PartialEq, Eq, Structural)]
pub enum SiteKind {
    Compass,
    Zillow,
}

/// The source names no supported site.
#[derive(Clone, Copy, Debug, PartialEq, Eq, Structural)]
pub struct UnsupportedSite;

/// Whether `needle` occurs in `hay` as a contiguous run of characters.
pub open spec fn occurs_in(needle: Seq<char>, hay: Seq<char>) -> bool {
    exists|i: int| 0 <= i && i + needle.len() <= hay.len() && #[trigger] hay.subrange(i, i + needle.len()) == needle
}

/// The site a source names: Compass where its marker occurs, else Zillow
/// where its marker occurs, else none.
pub open spec fn site_of(source: Seq<char>) -> Option<SiteKind> {
    if occurs_in(COMPASS_MARKER@, source) {
        Some(SiteKind::Compass)
    } else if occurs_in(ZILLOW_MARKER@, source) {
        Some(SiteKind::Zillow)
    } else {
        None
    }
}

fn matches_at(hay: &str, needle: &str, i: usize) -> (r: bool)
    requires
        i + needle@.len() <= hay@.len(),
        hay@.len() <= usize::MAX,
    ensures
        r == (hay@.subrange(i as int, i + needle@.len()) == needle@),
{
    let n = needle.unicode_len();
    let mut j: usize = 0;
    while j < n
        invariant
            n == needle@.len(),
            i + n <= hay@.len(),
            hay@.len() <= usize::MAX,
            j <= n,
            forall|k: int| 0 <= k < j ==> hay@[i + k] == needle@[k],
        decreases n - j,
    {
        if hay.get_char(i + j) != needle.get_char(j) {
            assert(hay@.subrange(i as int, i + n)[j as int] != needle@[j as int]);
            return false;
        }
        j = j + 1;
    }
    assert(hay@.subrange(i as int, i + n) =~= needle@);
    true
}

/// Whether `needle` occurs in `hay`.
pub fn contains_text(hay: &str, needle: &str) -> (r: bool)
    ensures
        r == occurs_in(needle@, hay@),
{
    let h = hay.unicode_len();
    let n = needle.unicode_len();
    if n > h {
        return false;
    }
    let last = h - n;
    let mut i: usize = 0;
    loop
        invariant
            h == hay@.len(),
            n == needle@.len(),
            last == h - n,
            i <= last,
            forall|k: int| 0 <= k < i ==> #[trigger] hay@.subrange(k, k + needle@.len()) != needle@,
        decreases last - i,
    {
        if matches_at(hay, needle, i) {
            return true;
        }
        if i == last {
            return false;
        }
        i = i + 1;
    }
}

/// Resolves the site of a source URL, or fails where it names none.
pub fn resolve_site(source: &str) -> (r: Result<SiteKind, UnsupportedSite>)
    ensures
        r is Err <==> site_of(source@) is None,
        r matches Ok(k) ==> site_of(source@) == Some(k),
{
    if contains_text(source, COMPASS_MARKER) {
        Ok(SiteKind::Compass)
    } else if contains_text(source, ZILLOW_MARKER) {
        Ok(SiteKind::Zillow)
    } else {
        Err(UnsupportedSite)
    }
}

/// Whether `prefix` begins `s`.
pub open spec fn starts_with(s: Seq<char>, prefix: Seq<char>) -> bool {
    prefix.len() <= s.len() && s.take(prefix.len() as int) == prefix
}

fn has_prefix(s: &str, prefix: &str) -> (r: bool)
    ensures
        r == starts_with(s@, prefix@),
{
    let h = s.unicode_len();
    let n = prefix.unicode_len();
    if n > h {
        return false;
    }
    let r = matches_at(s, prefix, 0);
    assert(s@.subrange(0, n as int) =~= s@.take(n as int));
    r
}

/// The scheme prefix of a plain web address.
pub const HTTP_PREFIX: &'static str = "http://";

/// The scheme prefix of a secure web address.
pub const HTTPS_PREFIX: &'static str = "https://";

/// Whether a source is a network locator (it starts with `http://` or
/// `https://`) rather than a local file path.
pub fn is_remote_source(source: &str) -> (r: bool)
    ensures
        r == (starts_with(source@, HTTP_PREFIX@) || starts_with(source@, HTTPS_PREFIX@)),
{
    has_prefix(source, HTTP_PREFIX) || has_prefix(source, HTTPS_PREFIX)
}

} // verus!
