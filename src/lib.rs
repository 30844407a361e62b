//! A single-page listing scraper: site resolution, image-link and metadata
//! extraction from page text, and the decisions of the sequential download
//! loop. Fetching, file writes and sleeping are left to the caller.

pub mod download;
pub mod links;
pub mod matching;
pub mod metadata;
pub mod site;
pub mod text;

pub use download::{
    image_file_name, loop_position_in_range, pauses_between_links, skipped_images_finish_at_once, Action, DownloadLoop,
    DownloadLoopView,
};
pub use links::{
    dedup_distinct_same_elements, dedup_links, extract_links, extract_unique_image_links, group_texts,
    repeated_link_kept_once, IMAGE_LINK_PATTERN,
};
pub use matching::Groups;
pub use metadata::{
    extract_metadata, metadata_from_matches, price_kept_without_address, PropertyMetadata,
    ADDRESS_PATTERN, PRICE_PATTERN,
};
pub use site::{
    contains_text, is_remote_source, resolve_site, SiteKind, UnsupportedSite, COMPASS_MARKER,
    HTTPS_PREFIX, HTTP_PREFIX, ZILLOW_MARKER,
};
pub use text::{decimal, strip_commas};
