//! Image links: reading them out of pattern matches, and removing repeats.

use vstd::prelude::*;
use crate::site::{resolve_site, site_of, UnsupportedSite};
use crate::matching::{Groups, group_view, groups_view, matches_view, regex_matches, find_matches};

verus! {

/// The pattern of an image link: a quoted `https://` URL ending in `origin.webp`.
pub const IMAGE_LINK_PATTERN: &'static str = r#""(https://[^"]*?origin\.webp)""#;

/// Strings as character sequences.
pub open spec fn texts_view(v: Seq<String>) -> Seq<Seq<char>> {
    v.map_values(|s: String| s@)
}

/// Group `k` of one match, `None` where the match has no such group or the
/// group took no part.
pub open spec fn group_at(m: Seq<Option<Seq<char>>>, k: int) -> Option<Seq<char>> {
    if 0 <= k < m.len() {
        m[k]
    } else {
        None
    }
}

/// The text of group `k` of each match that has it, in match order.
pub open spec fn group_texts_of(ms: Seq<Seq<Option<Seq<char>>>>, k: int) -> Seq<Seq<char>>
    decreases ms.len(),
{
    if ms.len() == 0 {
        Seq::empty()
    } else {
        let rest = group_texts_of(ms.drop_last(), k);
        match group_at(ms.last(), k) {
            Some(t) => rest.push(t),
            None => rest,
        }
    }
}

/// `s` with every element after its first occurrence removed.
pub open spec fn dedup(s: Seq<Seq<char>>) -> Seq<Seq<char>>
    decreases s.len(),
{
    if s.len() == 0 {
        s
    } else {
        let d = dedup(s.drop_last());
        if d.contains(s.last()) {
            d
        } else {
            d.push(s.last())
        }
    }
}

/// The distinct image links of a page, in order of first appearance.
pub open spec fn unique_links_of(html: Seq<char>) -> Seq<Seq<char>> {
    dedup(group_texts_of(regex_matches(IMAGE_LINK_PATTERN@, html), 1))
}

fn list_contains(v: &Vec<String>, t: &String) -> (r: bool)
    ensures
        r == texts_view(v@).contains(t@),
{
    let mut i: usize = 0;
    while i < v.len()
        invariant
            i <= v@.len(),
            forall|j: int| 0 <= j < i ==> v@[j]@ != t@,
        decreases v.len() - i,
    {
        if v[i] == *t {
            assert(texts_view(v@)[i as int] == t@);
            return true;
        }
        i = i + 1;
    }
    proof {
        if texts_view(v@).contains(t@) {
            let j = choose|j: int| 0 <= j < texts_view(v@).len() && texts_view(v@)[j] == t@;
            assert(v@[j]@ == t@);
        }
    }
    false
}

/// The text of group `k` of each match that has it, in match order.
pub fn group_texts(matches: &Vec<Groups>, k: usize) -> (r: Vec<String>)
    ensures
        texts_view(r@) == group_texts_of(matches_view(matches@), k as int),
{
    let mut out: Vec<String> = Vec::new();
    let mut i: usize = 0;
    while i < matches.len()
        invariant
            i <= matches@.len(),
            texts_view(out@) == group_texts_of(matches_view(matches@.take(i as int)), k as int),
        decreases matches.len() - i,
    {
        let m = &matches[i];
        proof {
            let ms = matches_view(matches@.take(i as int + 1));
            assert(ms.drop_last() =~= matches_view(matches@.take(i as int)));
            assert(ms.last() == groups_view(m@));
        }
        let ghost before = out@;
        if k < m.len() {
            match &m[k] {
                Some(t) => {
                    out.push(t.clone());
                    assert(group_view(m@[k as int]) == Some(t@));
                    assert(texts_view(out@) =~= texts_view(before).push(t@));
                },
                None => {},
            }
        }
        i = i + 1;
    }
    assert(matches@.take(i as int) =~= matches@);
    out
}

} // verus!

verus! {

/// Keeps the first occurrence of each string, in order.
pub fn dedup_links(links: &Vec<String>) -> (r: Vec<String>)
    ensures
        texts_view(r@) == dedup(texts_view(links@)),
{
    let mut out: Vec<String> = Vec::new();
    let mut i: usize = 0;
    while i < links.len()
        invariant
            i <= links@.len(),
            texts_view(out@) == dedup(texts_view(links@.take(i as int))),
        decreases links.len() - i,
    {
        let t = &links[i];
        proof {
            let s = texts_view(links@.take(i as int + 1));
            assert(s.drop_last() =~= texts_view(links@.take(i as int)));
            assert(s.last() == t@);
        }
        let seen = list_contains(&out, t);
        if !seen {
            let ghost before = out@;
            out.push(t.clone());
            assert(texts_view(out@) =~= texts_view(before).push(t@));
        }
        i = i + 1;
    }
    assert(links@.take(i as int) =~= links@);
    out
}

/// The distinct image links of a page, in order of first appearance.
pub fn extract_unique_image_links(html: &str) -> (r: Vec<String>)
    ensures
        texts_view(r@) == unique_links_of(html@),
{
    let matches = find_matches(IMAGE_LINK_PATTERN, html);
    let texts = group_texts(&matches, 1);
    dedup_links(&texts)
}

/// The distinct image links of a page from the site that `source` names;
/// fails, before any matching, where `source` names no supported site.
pub fn extract_links(source: &str, html: &str) -> (r: Result<Vec<String>, UnsupportedSite>)
    ensures
        r is Err <==> site_of(source@) is None,
        r matches Ok(v) ==> texts_view(v@) == unique_links_of(html@),
{
    match resolve_site(source) {
        Ok(_) => Ok(extract_unique_image_links(html)),
        Err(e) => Err(e),
    }
}

} // verus!

verus! {

/// Removing repeats keeps exactly the strings of the list, each at one
/// position only.
pub proof fn dedup_distinct_same_elements(s: Seq<Seq<char>>)
    ensures
        dedup(s).no_duplicates(),
        forall|x: Seq<char>| dedup(s).contains(x) <==> s.contains(x),
    decreases s.len(),
{
    if s.len() > 0 {
        let p = s.drop_last();
        dedup_distinct_same_elements(p);
        assert forall|x: Seq<char>| s.contains(x) <==> (p.contains(x) || x == s.last()) by {
            if s.contains(x) {
                let i = choose|i: int| 0 <= i < s.len() && s[i] == x;
                if i < s.len() - 1 {
                    assert(p[i] == x);
                }
            }
            if p.contains(x) {
                let i = choose|i: int| 0 <= i < p.len() && p[i] == x;
                assert(s[i] == x);
            }
            if x == s.last() {
                assert(s[s.len() - 1] == x);
            }
        }
        let d = dedup(p);
        if !d.contains(s.last()) {
            let e = d.push(s.last());
            assert forall|x: Seq<char>| e.contains(x) <==> (d.contains(x) || x == s.last()) by {
                if e.contains(x) {
                    let i = choose|i: int| 0 <= i < e.len() && e[i] == x;
                    if i < d.len() {
                        assert(d[i] == x);
                    }
                }
                if d.contains(x) {
                    let i = choose|i: int| 0 <= i < d.len() && d[i] == x;
                    assert(e[i] == x);
                }
                if x == s.last() {
                    assert(e[e.len() - 1] == x);
                }
            }
            assert forall|i: int, j: int| 0 <= i < e.len() && 0 <= j < e.len() && i != j
                implies e[i] != e[j] by {
                if i < d.len() && j == d.len() {
                    assert(d[i] == e[i]);
                } else if j < d.len() && i == d.len() {
                    assert(d[j] == e[j]);
                }
            }
        }
    }
}

/// However often a link is repeated on a page, the list handed to the
/// download loop holds it at exactly one position.
pub proof fn repeated_link_kept_once(s: Seq<Seq<char>>, x: Seq<char>)
    requires
        s.contains(x),
    ensures
        exists|i: int|
            0 <= i < dedup(s).len() && dedup(s)[i] == x && (forall|j: int|
                0 <= j < dedup(s).len() && dedup(s)[j] == x ==> j == i),
{
    dedup_distinct_same_elements(s);
    let d = dedup(s);
    assert(d.contains(x));
    let i = choose|i: int| 0 <= i < d.len() && d[i] == x;
    assert(forall|j: int| 0 <= j < d.len() && d[j] == x ==> j == i);
}

} // verus!
