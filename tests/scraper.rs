use listing_scraper::{
    contains_text, decimal, dedup_links, extract_links, extract_metadata, extract_unique_image_links,
    group_texts, image_file_name, is_remote_source, metadata_from_matches, resolve_site,
    strip_commas, Action, DownloadLoop, Groups, SiteKind, UnsupportedSite,
};

const LINK_A: &str = "https://img.example.com/a/origin.webp";
const LINK_B: &str = "https://img.example.com/b/origin.webp";

const TITLE: &str =
    "<title>12 Main St, Springfield, IL 62701 | MLS #98765 | Compass</title>";
const PRICE_ROW: &str =
    "<td class=propertyHistory-table-td\"><div>$1,250,000</div></td></tr>";

fn strings(v: &[&str]) -> Vec<String> {
    v.iter().map(|s| s.to_string()).collect()
}

fn page_with_links(links: &[&str]) -> String {
    let mut html = String::from("<html><body>");
    for l in links {
        html.push_str(&format!("<img src=\"{l}\">"));
    }
    html.push_str("</body></html>");
    html
}

#[test]
fn links_are_found_once_in_first_order() {
    let html = page_with_links(&[LINK_B, LINK_A, LINK_B, LINK_A]);
    assert_eq!(extract_unique_image_links(&html), strings(&[LINK_B, LINK_A]));
}

#[test]
fn links_not_ending_in_origin_webp_are_ignored() {
    let html = page_with_links(&["https://img.example.com/c/thumb.webp", "http://x/origin.webp"]);
    assert!(extract_unique_image_links(&html).is_empty());
}

#[test]
fn empty_page_has_no_links() {
    assert!(extract_unique_image_links("").is_empty());
}

#[test]
fn repeated_link_is_downloaded_once() {
    let n = 7;
    let repeated: Vec<&str> = std::iter::repeat(LINK_A).take(n).collect();
    let html = page_with_links(&repeated);
    let links = extract_unique_image_links(&html);
    let mut lp = DownloadLoop::new(&links, "house", 0, false);
    let mut downloads = 0;
    loop {
        match lp.step(false) {
            Action::Download { url, file_name } => {
                assert_eq!(url, LINK_A);
                assert_eq!(file_name, "house-1.webp");
                downloads += 1;
            }
            Action::Finished => break,
            other => panic!("unexpected {other:?}"),
        }
    }
    assert_eq!(downloads, 1);
}

#[test]
fn loop_itself_drops_repeated_links() {
    let links = strings(&[LINK_A, LINK_A, LINK_B]);
    let mut lp = DownloadLoop::new(&links, "h", 1, false);
    assert_eq!(
        lp.step(false),
        Action::Download { url: LINK_A.to_string(), file_name: "h-1.webp".to_string() }
    );
    assert_eq!(lp.step(false), Action::Sleep { secs: 1 });
    assert_eq!(
        lp.step(false),
        Action::Download { url: LINK_B.to_string(), file_name: "h-2.webp".to_string() }
    );
    assert_eq!(lp.step(false), Action::Finished);
}

#[test]
fn full_metadata_is_read() {
    let html = format!("<html><head>{TITLE}</head><body><table><tr>{PRICE_ROW}</table></body></html>");
    let m = extract_metadata(&html, "https://www.compass.com/listing/1", 5);
    assert_eq!(m.url, "URL: https://www.compass.com/listing/1");
    assert_eq!(m.description, None);
    assert_eq!(m.street.as_deref(), Some("Street: 12 Main St"));
    assert_eq!(m.city.as_deref(), Some("City: Springfield"));
    assert_eq!(m.state.as_deref(), Some("State: IL"));
    assert_eq!(m.zip.as_deref(), Some("Zip: 62701"));
    assert_eq!(m.mls.as_deref(), Some("MLS: 98765"));
    assert_eq!(m.price.as_deref(), Some("Price: $1250000"));
    assert_eq!(m.num_images.as_deref(), Some("Number of unique images found: 5"));
}

#[test]
fn price_alone_leaves_address_absent() {
    let html = format!("<html><head><title>Somewhere | Compass</title></head>{PRICE_ROW}</html>");
    let m = extract_metadata(&html, "page.html", 0);
    assert_eq!(m.price.as_deref(), Some("Price: $1250000"));
    assert_eq!(m.street, None);
    assert_eq!(m.city, None);
    assert_eq!(m.state, None);
    assert_eq!(m.zip, None);
    assert_eq!(m.mls, None);
    assert_eq!(m.num_images.as_deref(), Some("Number of unique images found: 0"));
}

#[test]
fn nothing_matching_gives_only_url_and_count() {
    let m = extract_metadata("<html></html>", "x", 12);
    assert_eq!(m.url, "URL: x");
    assert_eq!(m.price, None);
    assert_eq!(m.street, None);
    assert_eq!(m.num_images.as_deref(), Some("Number of unique images found: 12"));
}

fn groups(v: &[Option<&str>]) -> Groups {
    v.iter().map(|g| g.map(|s| s.to_string())).collect()
}

#[test]
fn address_with_missing_group_is_absent_as_a_whole() {
    let address = vec![groups(&[Some("t"), Some("1 A St"), Some("B"), None, Some("00000"), Some("1")])];
    let price = vec![groups(&[Some("p"), Some("9,999")])];
    let m = metadata_from_matches("u", 1, &price, &address);
    assert_eq!(m.street, None);
    assert_eq!(m.city, None);
    assert_eq!(m.state, None);
    assert_eq!(m.zip, None);
    assert_eq!(m.mls, None);
    assert_eq!(m.price.as_deref(), Some("Price: $9999"));
}

#[test]
fn first_address_match_is_used() {
    let address = vec![
        groups(&[Some("t"), Some("1 A St"), Some("Town"), Some("CA"), Some("90210"), Some("7")]),
        groups(&[Some("t"), Some("2 B St"), Some("City"), Some("NY"), Some("10001"), Some("8")]),
    ];
    let m = metadata_from_matches("u", 2, &Vec::new(), &address);
    assert_eq!(m.street.as_deref(), Some("Street: 1 A St"));
    assert_eq!(m.mls.as_deref(), Some("MLS: 7"));
    assert_eq!(m.price, None);
}

#[test]
fn unsupported_site_is_rejected() {
    assert_eq!(resolve_site("https://www.example.com/listing/1"), Err(UnsupportedSite));
    assert_eq!(resolve_site(""), Err(UnsupportedSite));
}

#[test]
fn known_sites_are_resolved() {
    assert_eq!(resolve_site("https://www.compass.com/listing/1"), Ok(SiteKind::Compass));
    assert_eq!(resolve_site("https://www.zillow.com/homedetails/1"), Ok(SiteKind::Zillow));
    assert_eq!(resolve_site("cache/compass-zillow.html"), Ok(SiteKind::Compass));
}

#[test]
fn pauses_between_links_and_not_after_last() {
    let links = strings(&[LINK_A, LINK_B, "https://c/origin.webp"]);
    let mut lp = DownloadLoop::new(&links, "h", 3, false);
    let mut actions = Vec::new();
    loop {
        let a = lp.step(false);
        if a == Action::Finished {
            break;
        }
        actions.push(a);
    }
    let sleeps: Vec<&Action> = actions.iter().filter(|a| matches!(a, Action::Sleep { .. })).collect();
    assert_eq!(sleeps.len(), 2);
    assert!(sleeps.iter().all(|a| **a == Action::Sleep { secs: 3 }));
    assert!(matches!(actions.last(), Some(Action::Download { .. })));
    assert_eq!(actions.len(), 5);
    assert_eq!(lp.sleeps_taken(), 2);
}

#[test]
fn single_link_never_pauses() {
    let links = strings(&[LINK_A]);
    let mut lp = DownloadLoop::new(&links, "h", 3, false);
    assert!(matches!(lp.step(true), Action::Skip { .. }));
    assert_eq!(lp.step(false), Action::Finished);
    assert_eq!(lp.sleeps_taken(), 0);
}

#[test]
fn existing_file_is_skipped() {
    let links = strings(&[LINK_A, LINK_B]);
    let mut lp = DownloadLoop::new(&links, "run", 0, false);
    assert_eq!(lp.pending_file_name().as_deref(), Some("run-1.webp"));
    assert_eq!(lp.step(true), Action::Skip { file_name: "run-1.webp".to_string() });
    assert_eq!(lp.pending_file_name(), None);
    assert_eq!(lp.step(true), Action::Sleep { secs: 0 });
    assert_eq!(lp.pending_file_name().as_deref(), Some("run-2.webp"));
    assert_eq!(
        lp.step(false),
        Action::Download { url: LINK_B.to_string(), file_name: "run-2.webp".to_string() }
    );
    assert_eq!(lp.step(true), Action::Finished);
}

#[test]
fn skip_images_visits_nothing() {
    let links = strings(&[LINK_A, LINK_B]);
    let mut lp = DownloadLoop::new(&links, "h", 2, true);
    assert_eq!(lp.pending_file_name(), None);
    assert_eq!(lp.step(false), Action::Finished);
    assert_eq!(lp.step(false), Action::Finished);
}

#[test]
fn no_links_finishes_at_once() {
    let mut lp = DownloadLoop::new(&Vec::new(), "h", 2, false);
    assert_eq!(lp.step(false), Action::Finished);
}

#[test]
fn file_names_are_numbered() {
    assert_eq!(image_file_name("house", 1), "house-1.webp");
    assert_eq!(image_file_name("house", 12), "house-12.webp");
    assert_eq!(image_file_name("", 305), "-305.webp");
}

#[test]
fn decimal_digits() {
    assert_eq!(decimal(0), "0");
    assert_eq!(decimal(7), "7");
    assert_eq!(decimal(1234), "1234");
    assert_eq!(decimal(u64::MAX), u64::MAX.to_string());
}

#[test]
fn commas_are_stripped() {
    assert_eq!(strip_commas("1,250,000"), "1250000");
    assert_eq!(strip_commas(""), "");
    assert_eq!(strip_commas(",,"), "");
    assert_eq!(strip_commas("999"), "999");
}

#[test]
fn substring_search() {
    assert!(contains_text("abcdef", "cde"));
    assert!(contains_text("abc", ""));
    assert!(!contains_text("abc", "abcd"));
    assert!(!contains_text("abcabd", "abe"));
}

#[test]
fn remote_sources() {
    assert!(is_remote_source("https://www.compass.com/x"));
    assert!(is_remote_source("http://x"));
    assert!(!is_remote_source("cache/page.html"));
    assert!(!is_remote_source("htt"));
    assert!(!is_remote_source("httpdocs/page.html"));
    assert!(!is_remote_source("http:/x"));
    assert!(!is_remote_source(""));
}

#[test]
fn dedup_keeps_first_occurrences() {
    let v = strings(&["b", "a", "b", "c", "a"]);
    assert_eq!(dedup_links(&v), strings(&["b", "a", "c"]));
    assert!(dedup_links(&Vec::new()).is_empty());
}

#[test]
fn group_texts_skips_absent_groups() {
    let ms = vec![
        groups(&[Some("x"), Some("one")]),
        groups(&[Some("y"), None]),
        groups(&[Some("z")]),
        groups(&[Some("w"), Some("two")]),
    ];
    assert_eq!(group_texts(&ms, 1), strings(&["one", "two"]));
    assert_eq!(group_texts(&ms, 0), strings(&["x", "y", "z", "w"]));
}

#[test]
fn link_extraction_rejects_unsupported_site() {
    let html = page_with_links(&[LINK_A]);
    assert_eq!(extract_links("https://www.example.com/listing/1", &html), Err(UnsupportedSite));
}

#[test]
fn link_extraction_for_supported_site() {
    let html = page_with_links(&[LINK_A, LINK_A, LINK_B]);
    assert_eq!(
        extract_links("https://www.compass.com/listing/1", &html),
        Ok(strings(&[LINK_A, LINK_B]))
    );
    assert_eq!(extract_links("https://www.zillow.com/x", ""), Ok(Vec::new()));
}
