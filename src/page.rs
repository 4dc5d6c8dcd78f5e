use vstd::prelude::*;
use crate::feed::{Entry, EntryView, Guid, GuidView, opt_view};
use crate::markup::{strip_heading, strip_first};

verus! {

/// The metadata locations read from a page, each of which must occur
/// exactly once.
#[derive(Clone, Copy, Debug, PartialEq, Eq, Structural)]
pub enum Location {
    Title,
    Description,
    Url,
    PublishedTime,
    Heading,
    Main,
}

/// Why a page could not be folded into the feed.
#[derive(Clone, Copy, Debug, PartialEq, Eq, Structural)]
pub enum FeedError {
    /// The location does not occur on the page.
    Missing(Location),
    /// The location occurs more than once on the page.
    Duplicated(Location),
    /// The location's element has no `content` attribute.
    NoContent(Location),
    /// The location's selector was not accepted by the selector engine.
    BadSelector(Location),
    /// The publication time is not an RFC 3339 date-time.
    BadTimestamp,
    /// The feed entry at this position has no identity to match against.
    EntryWithoutIdentity(usize),
}

/// One element matched on a page.
#[derive(Clone, Debug)]
pub struct Element {
    /// The value of the attribute asked for, if the element has it.
    pub content: Option<String>,
    /// The element's own markup.
    pub outer: String,
    /// The markup of the element's children.
    pub inner: String,
}

pub struct ElementView {
    pub content: Option<Seq<char>>,
    pub outer: Seq<char>,
    pub inner: Seq<char>,
}

impl View for Element {
    type V = ElementView;

    open spec fn view(&self) -> ElementView {
        ElementView { content: opt_view(self.content), outer: self.outer@, inner: self.inner@ }
    }
}

pub open spec fn found_view(o: Option<Vec<Element>>) -> Option<Seq<ElementView>> {
    match o {
        Some(v) => Some(v@.map_values(|e: Element| e@)),
        None => None,
    }
}

/// The elements that `selector` matches in the page `markup`, in document
/// order, each with the value of its attribute `attr`; `None` where the
/// selector does not parse.
pub uninterp spec fn selected(markup: Seq<char>, selector: Seq<char>, attr: Seq<char>) -> Option<
    Seq<ElementView>,
>;

/// The RFC 2822 form of an RFC 3339 date-time; `None` where `s` is not one.
pub uninterp spec fn rfc2822_from_rfc3339(s: Seq<char>) -> Option<Seq<char>>;

/// The error chrono gives for a string that does not parse.
#[verifier::external_type_specification]
#[verifier::external_body]
pub struct ExParseError(chrono::ParseError);

/// The error scraper gives for a selector that does not parse.
#[verifier::external_type_specification]
#[verifier::external_body]
pub struct ExSelectorErrorKind<'a>(scraper::error::SelectorErrorKind<'a>);

/// Relies on scraper: `Html::parse_document` parses `markup`,
/// `Selector::parse` reads `selector` (its error is handed back), and each
/// element that `Html::select` yields, in document order, gives its
/// attribute `attr` (`ElementRef::attr`), `ElementRef::html` and
/// `ElementRef::inner_html`. The result depends on the three strings alone.
#[verifier::external_body]
fn select_elements<'a>(markup: &str, selector: &'a str, attr: &str) -> (r: Result<
    Vec<Element>,
    scraper::error::SelectorErrorKind<'a>,
>)
    ensures
        match r {
            Ok(v) => selected(markup@, selector@, attr@) == Some(v@.map_values(|e: Element| e@)),
            Err(_) => selected(markup@, selector@, attr@) is None,
        },
{
    let document = scraper::Html::parse_document(markup);
    let selector = scraper::Selector::parse(selector)?;
    let mut found = Vec::new();
    for e in document.select(&selector) {
        let content = e.attr(attr).map(String::from);
        found.push(Element { content, outer: e.html(), inner: e.inner_html() });
    }
    Ok(found)
}

/// Relies on chrono: `DateTime::parse_from_rfc3339` reads `s` (its error is
/// handed back) and `DateTime::to_rfc2822` writes the parsed instant in its
/// own offset. RFC 3339 years have four digits, which `to_rfc2822` accepts.
#[verifier::external_body]
fn rfc3339_to_rfc2822(s: &str) -> (r: Result<String, chrono::ParseError>)
    ensures
        match r {
            Ok(d) => rfc2822_from_rfc3339(s@) == Some(d@),
            Err(_) => rfc2822_from_rfc3339(s@) is None,
        },
{
    match chrono::DateTime::parse_from_rfc3339(s) {
        Ok(d) => Ok(d.to_rfc2822()),
        Err(e) => Err(e),
    }
}

pub open spec fn selector_of(loc: Location) -> Seq<char> {
    match loc {
        Location::Title => "meta[property=\"og:title\"]"@,
        Location::Description => "meta[property=\"og:description\"]"@,
        Location::Url => "meta[property=\"og:url\"]"@,
        Location::PublishedTime => "meta[property=\"article:published_time\"]"@,
        Location::Heading => "h2"@,
        Location::Main => "main"@,
    }
}

impl Location {
    /// The CSS selector that finds this location on a page.
    pub fn selector(self) -> (r: &'static str)
        ensures
            r@ == selector_of(self),
    {
        match self {
            Location::Title => "meta[property=\"og:title\"]",
            Location::Description => "meta[property=\"og:description\"]",
            Location::Url => "meta[property=\"og:url\"]",
            Location::PublishedTime => "meta[property=\"article:published_time\"]",
            Location::Heading => "h2",
            Location::Main => "main",
        }
    }
}

/// What the page `markup` holds at `loc`.
pub open spec fn found_at(markup: Seq<char>, loc: Location) -> Option<Seq<ElementView>> {
    selected(markup, selector_of(loc), "content"@)
}

/// The one element found at `loc`, or the error for none, several, or a
/// selector that did not parse.
pub open spec fn single(found: Option<Seq<ElementView>>, loc: Location) -> Result<
    ElementView,
    FeedError,
> {
    match found {
        None => Err(FeedError::BadSelector(loc)),
        Some(s) => if s.len() == 0 {
            Err(FeedError::Missing(loc))
        } else if s.len() > 1 {
            Err(FeedError::Duplicated(loc))
        } else {
            Ok(s[0])
        },
    }
}

/// The `content` attribute of the one element found at `loc`.
pub open spec fn single_content(found: Option<Seq<ElementView>>, loc: Location) -> Result<
    Seq<char>,
    FeedError,
> {
    match single(found, loc) {
        Err(e) => Err(e),
        Ok(el) => match el.content {
            Some(c) => Ok(c),
            None => Err(FeedError::NoContent(loc)),
        },
    }
}

/// The entry that carries a page's metadata: its identity and link are the
/// page's canonical URL.
pub open spec fn entry_view(
    title: Seq<char>,
    description: Seq<char>,
    url: Seq<char>,
    pub_date: Seq<char>,
    content: Seq<char>,
) -> EntryView {
    EntryView {
        guid: Some(GuidView { value: url, permalink: true }),
        title: Some(title),
        description: Some(description),
        link: Some(url),
        pub_date: Some(pub_date),
        content: Some(content),
        source: None,
    }
}

/// The entry that the page `markup` yields, or the first error in the
/// order title, description, URL, publication time, heading, main content.
pub open spec fn entry_of(markup: Seq<char>) -> Result<EntryView, FeedError> {
    match single_content(found_at(markup, Location::Title), Location::Title) {
        Err(e) => Err(e),
        Ok(title) => match single_content(
            found_at(markup, Location::Description),
            Location::Description,
        ) {
            Err(e) => Err(e),
            Ok(description) => match single_content(found_at(markup, Location::Url), Location::Url) {
                Err(e) => Err(e),
                Ok(url) => match single_content(
                    found_at(markup, Location::PublishedTime),
                    Location::PublishedTime,
                ) {
                    Err(e) => Err(e),
                    Ok(raw) => match rfc2822_from_rfc3339(raw) {
                        None => Err(FeedError::BadTimestamp),
                        Some(date) => match single(
                            found_at(markup, Location::Heading),
                            Location::Heading,
                        ) {
                            Err(e) => Err(e),
                            Ok(heading) => match single(
                                found_at(markup, Location::Main),
                                Location::Main,
                            ) {
                                Err(e) => Err(e),
                                Ok(main) => Ok(
                                    entry_view(
                                        title,
                                        description,
                                        url,
                                        date,
                                        strip_first(main.inner, heading.outer),
                                    ),
                                ),
                            },
                        },
                    },
                },
            },
        },
    }
}

pub open spec fn entry_result_view(r: Result<Entry, FeedError>) -> Result<EntryView, FeedError> {
    match r {
        Ok(e) => Ok(e@),
        Err(e) => Err(e),
    }
}

/// Takes the one element out of what was found at `loc`.
pub fn select_one(found: Option<Vec<Element>>, loc: Location) -> (r: Result<Element, FeedError>)
    ensures
        match r {
            Ok(el) => single(found_view(found), loc) == Ok::<ElementView, FeedError>(el@),
            Err(e) => single(found_view(found), loc) == Err::<ElementView, FeedError>(e),
        },
{
    match found {
        None => Err(FeedError::BadSelector(loc)),
        Some(mut v) => {
            if v.len() == 0 {
                Err(FeedError::Missing(loc))
            } else if v.len() > 1 {
                Err(FeedError::Duplicated(loc))
            } else {
                let el = v.pop().unwrap();
                Ok(el)
            }
        },
    }
}

/// Takes the `content` attribute of the one element found at `loc`.
pub fn select_content(found: Option<Vec<Element>>, loc: Location) -> (r: Result<String, FeedError>)
    ensures
        match r {
            Ok(c) => single_content(found_view(found), loc) == Ok::<Seq<char>, FeedError>(c@),
            Err(e) => single_content(found_view(found), loc) == Err::<Seq<char>, FeedError>(e),
        },
{
    match select_one(found, loc) {
        Err(e) => Err(e),
        Ok(el) => match el.content {
            Some(c) => Ok(c),
            None => Err(FeedError::NoContent(loc)),
        },
    }
}

/// Queries the page `markup` at `loc`.
fn find(markup: &str, loc: Location) -> (r: Option<Vec<Element>>)
    ensures
        found_view(r) == found_at(markup@, loc),
{
    match select_elements(markup, loc.selector(), "content") {
        Ok(v) => Some(v),
        Err(_) => None,
    }
}

/// Builds the entry for a page from its metadata; identity and link are
/// both the canonical URL.
pub fn new_entry(
    title: String,
    description: String,
    url: String,
    pub_date: String,
    content: String,
) -> (r: Entry)
    ensures
        r@ == entry_view(title@, description@, url@, pub_date@, content@),
{
    let link = url.clone();
    Entry {
        guid: Some(Guid { value: url, permalink: true }),
        title: Some(title),
        description: Some(description),
        link: Some(link),
        pub_date: Some(pub_date),
        content: Some(content),
        source: None,
    }
}

/// Reads the entry that the page `markup` describes.
pub fn read_entry(markup: &str) -> (r: Result<Entry, FeedError>)
    ensures
        entry_result_view(r) == entry_of(markup@),
{
    let title = match select_content(find(markup, Location::Title), Location::Title) {
        Ok(t) => t,
        Err(e) => return Err(e),
    };
    let description = match select_content(
        find(markup, Location::Description),
        Location::Description,
    ) {
        Ok(d) => d,
        Err(e) => return Err(e),
    };
    let url = match select_content(find(markup, Location::Url), Location::Url) {
        Ok(u) => u,
        Err(e) => return Err(e),
    };
    let raw = match select_content(
        find(markup, Location::PublishedTime),
        Location::PublishedTime,
    ) {
        Ok(p) => p,
        Err(e) => return Err(e),
    };
    let pub_date = match rfc3339_to_rfc2822(raw.as_str()) {
        Ok(d) => d,
        Err(_) => return Err(FeedError::BadTimestamp),
    };
    let heading = match select_one(find(markup, Location::Heading), Location::Heading) {
        Ok(h) => h,
        Err(e) => return Err(e),
    };
    let main = match select_one(find(markup, Location::Main), Location::Main) {
        Ok(m) => m,
        Err(e) => return Err(e),
    };
    let content = strip_heading(main.inner.as_str(), heading.outer.as_str());
    Ok(new_entry(title, description, url, pub_date, content))
}

} // verus!
