use vstd::prelude::*;
use crate::feed::{Entry, EntryView, Feed, FeedView, identity, unique_identities};
use crate::page::{FeedError, Location, entry_of, found_at, read_entry};

verus! {

/// A scan for `id` stops at `e`: it lacks an identity, or carries `id`.
pub open spec fn stops_at(e: EntryView, id: Seq<char>) -> bool {
    e.guid is None || identity(e) == Some(id)
}

/// `k` is the first position at which a scan of `s` for `id` stops.
pub open spec fn first_stop(s: Seq<EntryView>, id: Seq<char>, k: int) -> bool {
    &&& 0 <= k < s.len()
    &&& stops_at(s[k], id)
    &&& forall|j: int| 0 <= j < k ==> !stops_at(#[trigger] s[j], id)
}

/// A scan of `s` for `id` runs to the end.
pub open spec fn no_stop(s: Seq<EntryView>, id: Seq<char>) -> bool {
    forall|j: int| 0 <= j < s.len() ==> !stops_at(#[trigger] s[j], id)
}

/// Some entry of `s` carries `id`.
pub open spec fn carries(s: Seq<EntryView>, id: Seq<char>) -> bool {
    exists|k: int| 0 <= k < s.len() && identity(#[trigger] s[k]) == Some(id)
}

/// The entries once `e` is folded in, for entries with unique identities:
/// `e` takes the place of the entry with its identity, or goes in front.
pub open spec fn reconciled(s: Seq<EntryView>, e: EntryView) -> Seq<EntryView> {
    if carries(s, identity(e).unwrap()) {
        let k = choose|k: int| 0 <= k < s.len() && identity(#[trigger] s[k]) == identity(e);
        s.update(k, e)
    } else {
        seq![e] + s
    }
}

/// `t` and `r` are what folding `e` into `s` gives: `e` replaces the entry
/// where a scan for its identity stops, or goes in front where the scan
/// runs to the end; an entry without identity met first is an error that
/// leaves `s` as it was.
pub open spec fn folded(s: Seq<EntryView>, e: EntryView, r: Result<(), FeedError>, t: Seq<EntryView>) -> bool {
    let id = identity(e).unwrap();
    &&& forall|k: int| first_stop(s, id, k) && s[k].guid is Some ==> r is Ok && t == s.update(k, e)
    &&& forall|k: int|
        first_stop(s, id, k) && s[k].guid is None ==> r == Err::<(), FeedError>(
            FeedError::EntryWithoutIdentity(k as usize),
        ) && t == s
    &&& no_stop(s, id) ==> r is Ok && t == seq![e] + s
    &&& unique_identities(s) ==> r is Ok && t == reconciled(s, e)
}

/// Exactly one entry of `s` carries `id`.
pub open spec fn carried_once(s: Seq<EntryView>, id: Seq<char>) -> bool {
    exists|k: int|
        0 <= k < s.len() && identity(#[trigger] s[k]) == Some(id) && forall|j: int|
            0 <= j < s.len() && identity(#[trigger] s[j]) == Some(id) ==> j == k
}

/// An entry whose identity is already in the feed replaces that entry and
/// keeps its position; every other entry stays where it was.
pub proof fn lemma_update_keeps_position(s: Seq<EntryView>, e: EntryView, k: int)
    requires
        unique_identities(s),
        e.guid is Some,
        0 <= k < s.len(),
        identity(s[k]) == identity(e),
    ensures
        reconciled(s, e) == s.update(k, e),
{
    let id = identity(e).unwrap();
    assert(carries(s, id));
    let c = choose|c: int| 0 <= c < s.len() && identity(#[trigger] s[c]) == identity(e);
    assert(c == k);
}

/// An entry with an identity new to the feed goes in front of all others.
pub proof fn lemma_new_goes_first(s: Seq<EntryView>, e: EntryView)
    requires
        unique_identities(s),
        e.guid is Some,
        forall|k: int| 0 <= k < s.len() ==> identity(#[trigger] s[k]) != identity(e),
    ensures
        reconciled(s, e) == seq![e] + s,
{
}

/// Folding an entry in keeps identities unique, leaves exactly one entry
/// with its identity, and folding the same entry in again changes nothing.
pub proof fn lemma_reconcile_idempotent(s: Seq<EntryView>, e: EntryView)
    requires
        unique_identities(s),
        e.guid is Some,
    ensures
        unique_identities(reconciled(s, e)),
        carried_once(reconciled(s, e), identity(e).unwrap()),
        reconciled(reconciled(s, e), e) == reconciled(s, e),
{
    let id = identity(e).unwrap();
    let once = reconciled(s, e);
    let k: int = if carries(s, id) {
        choose|k: int| 0 <= k < s.len() && identity(#[trigger] s[k]) == identity(e)
    } else {
        0
    };
    if carries(s, id) {
        assert(once == s.update(k, e));
    } else {
        assert(once == seq![e] + s);
        assert forall|i: int| 0 <= i < once.len() implies (#[trigger] once[i]).guid is Some by {
            if i > 0 {
                assert(once[i] == s[i - 1]);
            }
        }
        assert forall|i: int, j: int|
            0 <= i < once.len() && 0 <= j < once.len() && i != j implies identity(
                #[trigger] once[i],
            ) != identity(#[trigger] once[j]) by {
            if i > 0 {
                assert(once[i] == s[i - 1]);
            }
            if j > 0 {
                assert(once[j] == s[j - 1]);
            }
        }
    }
    assert(once[k] == e);
    assert(unique_identities(once));
    assert(carried_once(once, id)) by {
        assert forall|j: int| 0 <= j < once.len() && identity(#[trigger] once[j]) == Some(id) implies j
            == k by {}
    }
    lemma_update_keeps_position(once, e, k);
    assert(once.update(k, e) =~= once);
}

/// Folding the same page in twice leaves exactly one entry with its URL, and
/// a further fold changes nothing.
pub proof fn lemma_same_page_twice(s: Seq<EntryView>, markup: Seq<char>)
    requires
        unique_identities(s),
        entry_of(markup) is Ok,
    ensures
        ({
            let e = entry_of(markup).unwrap();
            let once = reconciled(s, e);
            &&& unique_identities(once)
            &&& carried_once(once, identity(e).unwrap())
            &&& reconciled(once, e) == once
        }),
{
    let e = entry_of(markup).unwrap();
    lemma_reconcile_idempotent(s, e);
}

/// A page that yields an entry yields one with an identity.
pub proof fn lemma_page_has_identity(markup: Seq<char>)
    requires
        entry_of(markup) is Ok,
    ensures
        entry_of(markup).unwrap().guid is Some,
{
}

/// Scans for the first entry that carries `id`, failing on an entry without
/// an identity met before it.
pub fn find_entry(entries: &Vec<Entry>, id: &String) -> (r: Result<Option<usize>, FeedError>)
    ensures
        match r {
            Ok(Some(k)) => first_stop(entries@.map_values(|e: Entry| e@), id@, k as int) && entries@[k as int].guid is Some,
            Ok(None) => no_stop(entries@.map_values(|e: Entry| e@), id@),
            Err(FeedError::EntryWithoutIdentity(k)) => first_stop(entries@.map_values(|e: Entry| e@), id@, k as int)
                && entries@[k as int].guid is None,
            Err(_) => false,
        },
{
    let ghost s = entries@.map_values(|e: Entry| e@);
    let mut i: usize = 0;
    while i < entries.len()
        invariant
            s == entries@.map_values(|e: Entry| e@),
            i <= entries.len(),
            forall|j: int| 0 <= j < i ==> !stops_at(#[trigger] s[j], id@),
        decreases entries.len() - i,
    {
        match &entries[i].guid {
            None => {
                return Err(FeedError::EntryWithoutIdentity(i));
            },
            Some(g) => {
                if g.value == *id {
                    return Ok(Some(i));
                }
            },
        }
        i = i + 1;
    }
    Ok(None)
}

/// Folds `entry` into `entries`: it replaces the first entry with its
/// identity in place, or goes in front where none has it. An entry without
/// an identity met first is an error, and `entries` is then left as it was.
pub fn reconcile(entries: &mut Vec<Entry>, entry: Entry) -> (r: Result<(), FeedError>)
    requires
        entry@.guid is Some,
    ensures
        folded(
            old(entries)@.map_values(|e: Entry| e@),
            entry@,
            r,
            final(entries)@.map_values(|e: Entry| e@),
        ),
{
    let ghost s = old(entries)@.map_values(|e: Entry| e@);
    let ghost id = identity(entry@).unwrap();
    let found = match &entry.guid {
        Some(g) => find_entry(entries, &g.value),
        None => Ok(None),
    };
    proof {
        assert forall|k1: int, k2: int| first_stop(s, id, k1) && first_stop(s, id, k2) implies k1
            == k2 by {
            if k1 < k2 {
                assert(!stops_at(s[k1], id));
            } else if k2 < k1 {
                assert(!stops_at(s[k2], id));
            }
        }
    }
    match found {
        Err(e) => Err(e),
        Ok(Some(k)) => {
            let ghost e = entry@;
            entries.set(k, entry);
            proof {
                let t = entries@.map_values(|e: Entry| e@);
                assert(t =~= s.update(k as int, e));
                if unique_identities(s) {
                    assert(carries(s, id));
                    let c = choose|c: int| 0 <= c < s.len() && identity(#[trigger] s[c]) == identity(e);
                    assert(c == k);
                }
            }
            Ok(())
        },
        Ok(None) => {
            let ghost e = entry@;
            entries.insert(0, entry);
            proof {
                let t = entries@.map_values(|e: Entry| e@);
                assert(t =~= seq![e] + s);
                if unique_identities(s) {
                    if carries(s, id) {
                        let c = choose|c: int| 0 <= c < s.len() && identity(#[trigger] s[c]) == identity(e);
                        assert(stops_at(s[c], id));
                    }
                }
                assert forall|k: int| !first_stop(s, id, k) by {
                    if 0 <= k < s.len() {
                        assert(!stops_at(s[k], id));
                    }
                }
            }
            Ok(())
        },
    }
}

/// A page that could not be folded in, and why.
#[derive(Clone, Debug)]
pub struct PageError {
    pub page: String,
    pub error: FeedError,
}

pub open spec fn page_error_view(r: Result<(), PageError>) -> Result<(), FeedError> {
    match r {
        Ok(()) => Ok(()),
        Err(e) => Err(e.error),
    }
}

/// `a` and `b` agree on every channel-level field.
pub open spec fn same_channel(a: FeedView, b: FeedView) -> bool {
    &&& a.title == b.title
    &&& a.description == b.description
    &&& a.link == b.link
    &&& a.language == b.language
    &&& a.last_build_date == b.last_build_date
    &&& a.image == b.image
}

/// Folds the page named `page`, whose markup is `markup`, into `feed`. On
/// any error the feed is left as it was and the error names the page.
pub fn add_item(feed: &mut Feed, page: &str, markup: &str) -> (r: Result<(), PageError>)
    ensures
        same_channel(final(feed)@, old(feed)@),
        match r {
            Err(e) => e.page@ == page@,
            Ok(()) => true,
        },
        (found_at(markup@, Location::Title) matches Some(t) && t.len() == 0) ==> page_error_view(r)
            == Err::<(), FeedError>(FeedError::Missing(Location::Title)) && final(feed)@ == old(feed)@,
        (found_at(markup@, Location::Title) matches Some(t) && t.len() > 1) ==> page_error_view(r)
            == Err::<(), FeedError>(FeedError::Duplicated(Location::Title)) && final(feed)@ == old(
            feed,
        )@,
        match entry_of(markup@) {
            Err(e) => r matches Err(pe) && pe.error == e && final(feed)@ == old(feed)@,
            Ok(entry) => folded(
                old(feed)@.entries,
                entry,
                page_error_view(r),
                final(feed)@.entries,
            ),
        },
{
    let entry = match read_entry(markup) {
        Ok(e) => e,
        Err(error) => return Err(PageError { page: page.to_owned(), error }),
    };
    match reconcile(&mut feed.entries, entry) {
        Ok(()) => Ok(()),
        Err(error) => Err(PageError { page: page.to_owned(), error }),
    }
}

/// The entries after the pages `markups` are folded into `s` in order, for
/// entries with unique identities and pages that each yield an entry.
pub open spec fn fold_pages(s: Seq<EntryView>, markups: Seq<Seq<char>>) -> Seq<EntryView>
    decreases markups.len(),
{
    if markups.len() == 0 {
        s
    } else {
        reconciled(fold_pages(s, markups.drop_last()), entry_of(markups.last()).unwrap())
    }
}

/// Every page of `markups` yields an entry.
pub open spec fn all_pages_read(markups: Seq<Seq<char>>) -> bool {
    forall|i: int| 0 <= i < markups.len() ==> (#[trigger] entry_of(markups[i])) is Ok
}

/// Folds each page into `feed` in order: `pages[i]` names the page whose
/// markup is `markups[i]`. The first page that fails stops the run with its
/// error, and the feed then holds the pages before it.
pub fn add_pages(feed: &mut Feed, pages: &Vec<String>, markups: &Vec<String>) -> (r: Result<
    (),
    PageError,
>)
    requires
        pages.len() == markups.len(),
    ensures
        same_channel(final(feed)@, old(feed)@),
        match r {
            Err(e) => exists|i: int| 0 <= i < pages.len() && e.page@ == (#[trigger] pages@[i])@,
            Ok(()) => true,
        },
        unique_identities(old(feed)@.entries) && all_pages_read(markups@.map_values(|m: String| m@))
            ==> r is Ok && unique_identities(final(feed)@.entries) && final(feed)@.entries
            == fold_pages(old(feed)@.entries, markups@.map_values(|m: String| m@)),
{
    let ghost start = feed@;
    let ghost ms = markups@.map_values(|m: String| m@);
    let mut i: usize = 0;
    while i < pages.len()
        invariant
            pages.len() == markups.len(),
            ms == markups@.map_values(|m: String| m@),
            i <= pages.len(),
            start == old(feed)@,
            same_channel(feed@, start),
            unique_identities(start.entries) && all_pages_read(ms) ==> unique_identities(
                feed@.entries,
            ) && feed@.entries == fold_pages(start.entries, ms.subrange(0, i as int)),
        decreases pages.len() - i,
    {
        let ghost before = feed@;
        let step = add_item(feed, pages[i].as_str(), markups[i].as_str());
        proof {
            if unique_identities(start.entries) && all_pages_read(ms) {
                assert(ms[i as int] == markups@[i as int]@);
                assert(entry_of(ms[i as int]) is Ok);
            }
        }
        match step {
            Err(e) => {
                assert(e.page@ == pages@[i as int]@);
                return Err(e);
            },
            Ok(()) => {},
        }
        proof {
            if unique_identities(start.entries) && all_pages_read(ms) {
                let done = ms.subrange(0, i + 1);
                assert(done.drop_last() =~= ms.subrange(0, i as int));
                assert(entry_of(ms[i as int]) is Ok);
                let e = entry_of(markups@[i as int]@).unwrap();
                lemma_page_has_identity(markups@[i as int]@);
                lemma_reconcile_idempotent(before.entries, e);
            }
        }
        i = i + 1;
    }
    assert(ms.subrange(0, i as int) =~= ms);
    Ok(())
}

} // verus!
