use vstd::prelude::*;
use vstd::string::StringExecFns;
use crate::feed::{Feed, FeedView, Image, ImageView, opt_view};

verus! {

/// What the caller asks of a run: the feed file, channel-level overrides,
/// the icon path, and the pages to fold in, in order.
#[derive(Clone, Debug)]
pub struct Args {
    /// The feed file read at the start and written at the end.
    pub feed: String,
    /// Replaces the channel title.
    pub title: Option<String>,
    /// Replaces the channel description.
    pub description: Option<String>,
    /// Replaces the channel link, the base URL where the feed is served.
    pub base_url: Option<String>,
    /// Replaces the channel language.
    pub language: Option<String>,
    /// The icon's path, appended to the channel link.
    pub favicon: String,
    /// The pages to fold into the feed.
    pub pages: Vec<String>,
}

/// The non-fatal problems that configuring the channel found.
#[derive(Clone, Copy, Debug, PartialEq, Eq, Structural)]
pub struct Warnings {
    pub empty_title: bool,
    pub empty_description: bool,
    /// No link was given and none could be derived.
    pub empty_link: bool,
}

/// `s` with leading and trailing white space removed.
pub uninterp spec fn trim_of(s: Seq<char>) -> Seq<char>;

/// Relies on `str::trim`: the result depends on the characters of `s` alone.
#[verifier::external_body]
fn trimmed(s: &str) -> (r: String)
    ensures
        r@ == trim_of(s@),
{
    s.trim().to_owned()
}

/// Relies on chrono: `Utc::now` reads the system clock and
/// `DateTime::to_rfc2822` writes the instant. Nothing is known of the value.
#[verifier::external_body]
fn now_rfc2822() -> (r: String) {
    chrono::Utc::now().to_rfc2822()
}

/// The base URL of a site served at `host`.
pub open spec fn link_for(host: Seq<char>) -> Seq<char> {
    "https://"@ + host + "/"@
}

/// The channel link after a run: the override, else the link already
/// there, else one derived from the host record, else empty.
pub open spec fn configured_link(
    link: Seq<char>,
    base_url: Option<Seq<char>>,
    host_record: Option<Seq<char>>,
) -> Seq<char> {
    match base_url {
        Some(b) => b,
        None => if link.len() == 0 {
            match host_record {
                Some(h) => link_for(trim_of(h)),
                None => link,
            }
        } else {
            link
        },
    }
}

/// The channel `f` configured by `args`, with the host record `host_record`
/// and the build time `now`.
pub open spec fn configured(
    f: FeedView,
    args: Args,
    host_record: Option<Seq<char>>,
    now: Seq<char>,
) -> FeedView {
    let title = match args.title {
        Some(t) => t@,
        None => f.title,
    };
    let link = configured_link(f.link, opt_view(args.base_url), host_record);
    FeedView {
        title,
        description: match args.description {
            Some(d) => d@,
            None => f.description,
        },
        link,
        language: match args.language {
            Some(l) => Some(l@),
            None => f.language,
        },
        last_build_date: Some(now),
        image: Some(ImageView { title, link, url: link + args.favicon@ }),
        entries: f.entries,
    }
}

/// The base URL of a site served at `host`: `https://<host>/`.
pub fn link_for_host(host: &str) -> (r: String)
    ensures
        r@ == link_for(host@),
{
    String::from_str("https://").concat(host).concat("/")
}

/// Applies the channel-level overrides and defaults of `args` to `feed`,
/// with `host_record` the content of the host record if it could be read,
/// and `now` the build time. The icon is derived afresh from the title and
/// link. The entries are not touched.
pub fn configure_at(feed: &mut Feed, args: &Args, host_record: Option<String>, now: String) -> (r:
    Warnings)
    ensures
        final(feed)@ == configured(old(feed)@, *args, opt_view(host_record), now@),
        r.empty_title == (final(feed)@.title.len() == 0),
        r.empty_description == (final(feed)@.description.len() == 0),
        r.empty_link == (args.base_url is None && old(feed)@.link.len() == 0
            && host_record is None),
{
    let mut empty_link = false;
    if let Some(title) = &args.title {
        feed.title = title.clone();
    }
    if let Some(description) = &args.description {
        feed.description = description.clone();
    }
    if let Some(base_url) = &args.base_url {
        feed.link = base_url.clone();
    } else if feed.link.as_str().is_empty() {
        match &host_record {
            Some(h) => {
                let host = trimmed(h.as_str());
                feed.link = link_for_host(host.as_str());
            },
            None => {
                empty_link = true;
            },
        }
    }
    if let Some(language) = &args.language {
        feed.language = Some(language.clone());
    }
    feed.last_build_date = Some(now);
    let url = feed.link.clone().concat(args.favicon.as_str());
    feed.image = Some(Image { title: feed.title.clone(), link: feed.link.clone(), url });
    Warnings {
        empty_title: feed.title.as_str().is_empty(),
        empty_description: feed.description.as_str().is_empty(),
        empty_link,
    }
}

/// Configures the channel as `configure_at` does, stamped with the current
/// time.
pub fn configure_channel(feed: &mut Feed, args: &Args, host_record: Option<String>) -> (r:
    Warnings)
    ensures
        ({
            let c = configured(old(feed)@, *args, opt_view(host_record), final(feed)@.last_build_date.unwrap());
            &&& final(feed)@.last_build_date is Some
            &&& final(feed)@ == c
        }),
        r.empty_title == (final(feed)@.title.len() == 0),
        r.empty_description == (final(feed)@.description.len() == 0),
        r.empty_link == (args.base_url is None && old(feed)@.link.len() == 0
            && host_record is None),
{
    configure_at(feed, args, host_record, now_rfc2822())
}

} // verus!
