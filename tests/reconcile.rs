use pagefeed::feed::{Entry, Feed, Guid};
use pagefeed::page::{FeedError, Location};
use pagefeed::reconcile::{add_item, add_pages, find_entry, reconcile};

fn entry(id: &str, title: &str) -> Entry {
    Entry {
        guid: Some(Guid { value: id.to_string(), permalink: true }),
        title: Some(title.to_string()),
        description: None,
        link: Some(id.to_string()),
        pub_date: None,
        content: None,
        source: None,
    }
}

fn ids(entries: &[Entry]) -> Vec<String> {
    entries.iter().map(|e| e.guid.as_ref().unwrap().value.clone()).collect()
}

fn titles(entries: &[Entry]) -> Vec<String> {
    entries.iter().map(|e| e.title.clone().unwrap()).collect()
}

fn page(title_metas: &str, published: &str, body: &str) -> String {
    format!(
        "<html><head>{}\
         <meta property=\"og:description\" content=\"About it\">\
         <meta property=\"og:url\" content=\"https://example.com/post/\">\
         <meta property=\"article:published_time\" content=\"{}\">\
         </head><body>{}</body></html>",
        title_metas, published, body
    )
}

const ONE_TITLE: &str = "<meta property=\"og:title\" content=\"A post\">";

#[test]
fn update_keeps_position() {
    let mut entries = vec![entry("a", "A"), entry("b", "B"), entry("c", "C")];
    assert!(reconcile(&mut entries, entry("b", "B2")).is_ok());
    assert_eq!(ids(&entries), vec!["a", "b", "c"]);
    assert_eq!(titles(&entries), vec!["A", "B2", "C"]);
}

#[test]
fn new_identity_goes_first() {
    let mut entries = vec![entry("a", "A"), entry("b", "B")];
    assert!(reconcile(&mut entries, entry("d", "D")).is_ok());
    assert_eq!(ids(&entries), vec!["d", "a", "b"]);
}

#[test]
fn new_identity_into_empty_feed() {
    let mut entries = Vec::new();
    assert!(reconcile(&mut entries, entry("d", "D")).is_ok());
    assert_eq!(ids(&entries), vec!["d"]);
}

#[test]
fn same_entry_twice_is_stable() {
    let mut entries = vec![entry("a", "A")];
    reconcile(&mut entries, entry("d", "D")).unwrap();
    reconcile(&mut entries, entry("d", "D")).unwrap();
    assert_eq!(ids(&entries), vec!["d", "a"]);
    reconcile(&mut entries, entry("d", "D")).unwrap();
    assert_eq!(ids(&entries), vec!["d", "a"]);
    assert_eq!(titles(&entries), vec!["D", "A"]);
}

#[test]
fn entry_without_identity_is_an_error() {
    let mut unkeyed = entry("x", "X");
    unkeyed.guid = None;
    let mut entries = vec![entry("a", "A"), unkeyed, entry("b", "B")];
    assert_eq!(reconcile(&mut entries, entry("b", "B2")), Err(FeedError::EntryWithoutIdentity(1)));
    assert_eq!(entries.len(), 3);
    assert_eq!(titles(&entries), vec!["A", "X", "B"]);
}

#[test]
fn match_before_unkeyed_entry_succeeds() {
    let mut unkeyed = entry("x", "X");
    unkeyed.guid = None;
    let mut entries = vec![entry("a", "A"), unkeyed];
    assert!(reconcile(&mut entries, entry("a", "A2")).is_ok());
    assert_eq!(titles(&entries), vec!["A2", "X"]);
}

#[test]
fn find_entry_positions() {
    let entries = vec![entry("a", "A"), entry("b", "B")];
    assert_eq!(find_entry(&entries, &"b".to_string()), Ok(Some(1)));
    assert_eq!(find_entry(&entries, &"z".to_string()), Ok(None));
}

#[test]
fn add_item_reads_page() {
    let mut feed = Feed::new();
    feed.entries.push(entry("https://example.com/old/", "Old"));
    let markup = page(ONE_TITLE, "2023-01-02T03:04:05+00:00", "<main><h2>Post</h2><p>Body</p></main>");
    add_item(&mut feed, "post.html", &markup).unwrap();
    assert_eq!(feed.entries.len(), 2);
    let e = &feed.entries[0];
    let guid = e.guid.as_ref().unwrap();
    assert_eq!(guid.value, "https://example.com/post/");
    assert!(guid.permalink);
    assert_eq!(e.title.as_deref(), Some("A post"));
    assert_eq!(e.description.as_deref(), Some("About it"));
    assert_eq!(e.link.as_deref(), Some("https://example.com/post/"));
    assert_eq!(e.pub_date.as_deref(), Some("Mon, 2 Jan 2023 03:04:05 +0000"));
    assert_eq!(e.content.as_deref(), Some("<p>Body</p>"));
}

#[test]
fn add_item_same_page_twice() {
    let mut feed = Feed::new();
    feed.entries.push(entry("https://example.com/old/", "Old"));
    let markup = page(ONE_TITLE, "2023-01-02T03:04:05+02:00", "<main><h2>Post</h2><p>Body</p></main>");
    add_item(&mut feed, "post.html", &markup).unwrap();
    add_item(&mut feed, "post.html", &markup).unwrap();
    let matching = feed
        .entries
        .iter()
        .filter(|e| e.guid.as_ref().unwrap().value == "https://example.com/post/")
        .count();
    assert_eq!(matching, 1);
    assert_eq!(feed.entries.len(), 2);
    add_item(&mut feed, "post.html", &markup).unwrap();
    assert_eq!(ids(&feed.entries), vec!["https://example.com/post/", "https://example.com/old/"]);
    assert_eq!(feed.entries[0].pub_date.as_deref(), Some("Mon, 2 Jan 2023 03:04:05 +0200"));
}

#[test]
fn missing_title_fails_naming_page() {
    let mut feed = Feed::new();
    feed.entries.push(entry("a", "A"));
    let markup = page("", "2023-01-02T03:04:05+00:00", "<main><p>Body</p></main>");
    let err = add_item(&mut feed, "post.html", &markup).unwrap_err();
    assert_eq!(err.page, "post.html");
    assert_eq!(err.error, FeedError::Missing(Location::Title));
    assert_eq!(ids(&feed.entries), vec!["a"]);
}

#[test]
fn duplicated_title_fails_naming_page() {
    let mut feed = Feed::new();
    feed.entries.push(entry("a", "A"));
    let two = format!("{}{}", ONE_TITLE, ONE_TITLE);
    let markup = page(&two, "2023-01-02T03:04:05+00:00", "<main><p>Body</p></main>");
    let err = add_item(&mut feed, "post.html", &markup).unwrap_err();
    assert_eq!(err.page, "post.html");
    assert_eq!(err.error, FeedError::Duplicated(Location::Title));
    assert_eq!(ids(&feed.entries), vec!["a"]);
}

#[test]
fn title_without_content_fails() {
    let mut feed = Feed::new();
    let markup = page("<meta property=\"og:title\">", "2023-01-02T03:04:05+00:00", "");
    let err = add_item(&mut feed, "p.html", &markup).unwrap_err();
    assert_eq!(err.error, FeedError::NoContent(Location::Title));
    assert!(feed.entries.is_empty());
}

#[test]
fn bad_timestamp_fails() {
    let mut feed = Feed::new();
    let markup = page(ONE_TITLE, "2 Jan 2023", "<p>Body</p>");
    let err = add_item(&mut feed, "p.html", &markup).unwrap_err();
    assert_eq!(err.error, FeedError::BadTimestamp);
    assert!(feed.entries.is_empty());
}

#[test]
fn missing_main_fails() {
    let mut feed = Feed::new();
    let markup = page(ONE_TITLE, "2023-01-02T03:04:05Z", "<h2>Post</h2>");
    let err = add_item(&mut feed, "p.html", &markup).unwrap_err();
    assert_eq!(err.error, FeedError::Missing(Location::Main));
}

#[test]
fn duplicated_heading_fails() {
    let mut feed = Feed::new();
    let markup = page(ONE_TITLE, "2023-01-02T03:04:05Z", "<h2>Post</h2><main><h2>Again</h2></main>");
    let err = add_item(&mut feed, "p.html", &markup).unwrap_err();
    assert_eq!(err.error, FeedError::Duplicated(Location::Heading));
}

#[test]
fn unkeyed_feed_entry_fails_page() {
    let mut feed = Feed::new();
    let mut unkeyed = entry("x", "X");
    unkeyed.guid = None;
    feed.entries.push(unkeyed);
    let markup = page(ONE_TITLE, "2023-01-02T03:04:05Z", "<main><h2>Post</h2></main>");
    let err = add_item(&mut feed, "p.html", &markup).unwrap_err();
    assert_eq!(err.page, "p.html");
    assert_eq!(err.error, FeedError::EntryWithoutIdentity(0));
    assert_eq!(feed.entries.len(), 1);
}

fn page_at(url: &str, title: &str) -> String {
    format!(
        "<html><head><meta property=\"og:title\" content=\"{}\">\
         <meta property=\"og:description\" content=\"D\">\
         <meta property=\"og:url\" content=\"{}\">\
         <meta property=\"article:published_time\" content=\"2024-02-29T12:00:00Z\">\
         </head><body><main><h2>H</h2><p>B</p></main></body></html>",
        title, url
    )
}

#[test]
fn add_pages_in_order() {
    let mut feed = Feed::new();
    feed.entries.push(entry("https://x/a/", "A"));
    let pages = vec!["b.html".to_string(), "a.html".to_string(), "c.html".to_string()];
    let markups = vec![page_at("https://x/b/", "B"), page_at("https://x/a/", "A2"), page_at("https://x/c/", "C")];
    add_pages(&mut feed, &pages, &markups).unwrap();
    assert_eq!(ids(&feed.entries), vec!["https://x/c/", "https://x/b/", "https://x/a/"]);
    assert_eq!(titles(&feed.entries), vec!["C", "B", "A2"]);
    assert_eq!(feed.entries[0].pub_date.as_deref(), Some("Thu, 29 Feb 2024 12:00:00 +0000"));
}

#[test]
fn add_pages_later_page_sees_earlier() {
    let mut feed = Feed::new();
    let pages = vec!["one.html".to_string(), "two.html".to_string()];
    let markups = vec![page_at("https://x/p/", "First"), page_at("https://x/p/", "Second")];
    add_pages(&mut feed, &pages, &markups).unwrap();
    assert_eq!(ids(&feed.entries), vec!["https://x/p/"]);
    assert_eq!(titles(&feed.entries), vec!["Second"]);
}

#[test]
fn add_pages_stops_at_failing_page() {
    let mut feed = Feed::new();
    let pages = vec!["good.html".to_string(), "bad.html".to_string(), "later.html".to_string()];
    let markups = vec![page_at("https://x/g/", "G"), "<html></html>".to_string(), page_at("https://x/l/", "L")];
    let err = add_pages(&mut feed, &pages, &markups).unwrap_err();
    assert_eq!(err.page, "bad.html");
    assert_eq!(err.error, FeedError::Missing(Location::Title));
    assert_eq!(ids(&feed.entries), vec!["https://x/g/"]);
}
