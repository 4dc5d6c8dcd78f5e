use vstd::prelude::*;

verus! {

/// An item of the RSS crate, declared so that an entry can carry the item it
/// was loaded from, and the fields this library does not model survive.
#[verifier::external_type_specification]
#[verifier::external_body]
pub struct ExItem(rss::Item);

/// A permalink identity of an entry.
#[derive(Clone, Debug)]
pub struct Guid {
    pub value: String,
    pub permalink: bool,
}

/// One syndicated item.
#[derive(Clone, Debug)]
pub struct Entry {
    pub guid: Option<Guid>,
    pub title: Option<String>,
    pub description: Option<String>,
    pub link: Option<String>,
    pub pub_date: Option<String>,
    pub content: Option<String>,
    /// The item this entry was loaded from, if any: its other fields are
    /// written back as they were.
    pub source: Option<rss::Item>,
}

/// The channel's icon, derived from the channel's title and link.
#[derive(Clone, Debug)]
pub struct Image {
    pub title: String,
    pub link: String,
    pub url: String,
}

/// The feed document: channel metadata and the ordered list of entries.
#[derive(Clone, Debug)]
pub struct Feed {
    pub title: String,
    pub description: String,
    pub link: String,
    pub language: Option<String>,
    pub last_build_date: Option<String>,
    pub image: Option<Image>,
    pub entries: Vec<Entry>,
}

pub open spec fn opt_view(o: Option<String>) -> Option<Seq<char>> {
    match o {
        Some(s) => Some(s@),
        None => None,
    }
}

pub struct GuidView {
    pub value: Seq<char>,
    pub permalink: bool,
}

pub struct EntryView {
    pub guid: Option<GuidView>,
    pub title: Option<Seq<char>>,
    pub description: Option<Seq<char>>,
    pub link: Option<Seq<char>>,
    pub pub_date: Option<Seq<char>>,
    pub content: Option<Seq<char>>,
    pub source: Option<rss::Item>,
}

pub struct ImageView {
    pub title: Seq<char>,
    pub link: Seq<char>,
    pub url: Seq<char>,
}

pub struct FeedView {
    pub title: Seq<char>,
    pub description: Seq<char>,
    pub link: Seq<char>,
    pub language: Option<Seq<char>>,
    pub last_build_date: Option<Seq<char>>,
    pub image: Option<ImageView>,
    pub entries: Seq<EntryView>,
}

impl View for Guid {
    type V = GuidView;

    open spec fn view(&self) -> GuidView {
        GuidView { value: self.value@, permalink: self.permalink }
    }
}

impl View for Entry {
    type V = EntryView;

    open spec fn view(&self) -> EntryView {
        EntryView {
            guid: match self.guid {
                Some(g) => Some(g@),
                None => None,
            },
            title: opt_view(self.title),
            description: opt_view(self.description),
            link: opt_view(self.link),
            pub_date: opt_view(self.pub_date),
            content: opt_view(self.content),
            source: self.source,
        }
    }
}

impl View for Image {
    type V = ImageView;

    open spec fn view(&self) -> ImageView {
        ImageView { title: self.title@, link: self.link@, url: self.url@ }
    }
}

impl View for Feed {
    type V = FeedView;

    open spec fn view(&self) -> FeedView {
        FeedView {
            title: self.title@,
            description: self.description@,
            link: self.link@,
            language: opt_view(self.language),
            last_build_date: opt_view(self.last_build_date),
            image: match self.image {
                Some(i) => Some(i@),
                None => None,
            },
            entries: self.entries@.map_values(|e: Entry| e@),
        }
    }
}

/// The identity an entry is matched by: the value of its guid.
pub open spec fn identity(e: EntryView) -> Option<Seq<char>> {
    match e.guid {
        Some(g) => Some(g.value),
        None => None,
    }
}

/// Every entry carries an identity, and no two carry the same one.
pub open spec fn unique_identities(s: Seq<EntryView>) -> bool {
    &&& forall|i: int| 0 <= i < s.len() ==> (#[trigger] s[i]).guid is Some
    &&& forall|i: int, j: int|
        0 <= i < s.len() && 0 <= j < s.len() && i != j ==> identity(#[trigger] s[i]) != identity(
            #[trigger] s[j],
        )
}

impl Feed {
    /// An empty feed, as on a first run when no feed file exists yet.
    pub fn new() -> (r: Feed)
        ensures
            r@.title.len() == 0,
            r@.description.len() == 0,
            r@.link.len() == 0,
            r@.language is None,
            r@.last_build_date is None,
            r@.image is None,
            r@.entries.len() == 0,
    {
        Feed {
            title: String::new(),
            description: String::new(),
            link: String::new(),
            language: None,
            last_build_date: None,
            image: None,
            entries: Vec::new(),
        }
    }
}

} // verus!
