//! The stack of opened series pages: the last opened page is the one shown,
//! and going back discards it.

use indexmap::IndexMap;
use vstd::prelude::*;

use crate::series_information::SeriesMainInformation;

verus! {

#[verifier::external_type_specification]
#[verifier::external_body]
#[verifier::reject_recursive_types(K)]
#[verifier::reject_recursive_types(V)]
#[verifier::reject_recursive_types(S)]
pub struct ExIndexMap<K, V, S>(IndexMap<K, V, S>);

/// The entries of an index map of series pages, in order.
pub uninterp spec fn page_entries(m: IndexMap<u32, SeriesMainInformation>) -> Seq<(u32, SeriesMainInformation)>;

/// No key occurs twice.
pub open spec fn keys_unique(entries: Seq<(u32, SeriesMainInformation)>) -> bool {
    forall|i: int, j: int|
        0 <= i < entries.len() && 0 <= j < entries.len() && i != j ==> #[trigger] entries[i].0
            != #[trigger] entries[j].0
}

/// Whether `key` is one of the keys.
pub open spec fn has_key(entries: Seq<(u32, SeriesMainInformation)>, key: u32) -> bool {
    exists|i: int| 0 <= i < entries.len() && #[trigger] entries[i].0 == key
}

/// `IndexMap::new`: an empty map.
#[verifier::external_body]
fn new_pages() -> (m: IndexMap<u32, SeriesMainInformation>)
    ensures
        page_entries(m) == Seq::<(u32, SeriesMainInformation)>::empty(),
{
    IndexMap::new()
}

/// `IndexMap::clear`: removes every entry.
#[verifier::external_body]
fn clear_pages(m: &mut IndexMap<u32, SeriesMainInformation>)
    ensures
        page_entries(*final(m)) == Seq::<(u32, SeriesMainInformation)>::empty(),
{
    m.clear()
}

/// `IndexMap::is_empty`: whether the map has no entry.
#[verifier::external_body]
fn pages_is_empty(m: &IndexMap<u32, SeriesMainInformation>) -> (b: bool)
    ensures
        b == (page_entries(*m).len() == 0),
{
    m.is_empty()
}

/// `IndexMap::pop`: removes and returns the last entry.
#[verifier::external_body]
fn pop_page(m: &mut IndexMap<u32, SeriesMainInformation>) -> (r: Option<(u32, SeriesMainInformation)>)
    ensures
        page_entries(*old(m)).len() == 0 ==> r is None && page_entries(*final(m)) == page_entries(*old(m)),
        page_entries(*old(m)).len() > 0 ==> r == Some(page_entries(*old(m)).last())
            && page_entries(*final(m)) == page_entries(*old(m)).drop_last(),
{
    m.pop()
}

/// `IndexMap::last`: the value of the last entry.
#[verifier::external_body]
fn last_page(m: &IndexMap<u32, SeriesMainInformation>) -> (r: Option<&SeriesMainInformation>)
    ensures
        page_entries(*m).len() == 0 ==> r is None,
        page_entries(*m).len() > 0 ==> r == Some(&page_entries(*m).last().1),
{
    m.last().map(|entry| entry.1)
}

/// `IndexMap::shift_remove_entry`: removes the entry of `key`, shifting the
/// entries after it, and returns it.
#[verifier::external_body]
fn shift_remove_page(m: &mut IndexMap<u32, SeriesMainInformation>, key: &u32) -> (r: Option<(u32, SeriesMainInformation)>)
    requires
        keys_unique(page_entries(*old(m))),
    ensures
        !has_key(page_entries(*old(m)), *key) ==> r is None && page_entries(*final(m)) == page_entries(*old(m)),
        forall|i: int|
            0 <= i < page_entries(*old(m)).len() && #[trigger] page_entries(*old(m))[i].0 == *key
                ==> r == Some(page_entries(*old(m))[i]) && page_entries(*final(m)) == page_entries(*old(m)).remove(i),
{
    m.shift_remove_entry(key)
}

/// `IndexMap::insert`: a new key goes last; an existing key keeps its place
/// and gets the new value, and the old value is returned.
#[verifier::external_body]
fn insert_page(m: &mut IndexMap<u32, SeriesMainInformation>, key: u32, value: SeriesMainInformation) -> (r: Option<SeriesMainInformation>)
    requires
        keys_unique(page_entries(*old(m))),
    ensures
        !has_key(page_entries(*old(m)), key) ==> r is None
            && page_entries(*final(m)) == page_entries(*old(m)).push((key, value)),
        forall|i: int|
            0 <= i < page_entries(*old(m)).len() && #[trigger] page_entries(*old(m))[i].0 == key
                ==> r == Some(page_entries(*old(m))[i].1)
                && page_entries(*final(m)) == page_entries(*old(m)).update(i, (key, value)),
{
    m.insert(key, value)
}

/// Each page is keyed by the id of its series, and no series has two pages.
pub open spec fn pages_well_formed(entries: Seq<(u32, SeriesMainInformation)>) -> bool {
    &&& keys_unique(entries)
    &&& forall|i: int| 0 <= i < entries.len() ==> (#[trigger] entries[i]).0 == entries[i].1.id
}

/// The pages after opening the page of `info`: a page already open moves to
/// the end, keeping its state; a new page is added at the end.
pub open spec fn pages_after_switch(
    pages: Seq<(u32, SeriesMainInformation)>,
    info: SeriesMainInformation,
) -> Seq<(u32, SeriesMainInformation)> {
    if has_key(pages, info.id) {
        let i = choose|i: int| 0 <= i < pages.len() && #[trigger] pages[i].0 == info.id;
        pages.remove(i).push(pages[i])
    } else {
        pages.push((info.id, info))
    }
}

/// The pages after going back: the last page is discarded.
pub open spec fn pages_after_previous(pages: Seq<(u32, SeriesMainInformation)>) -> Seq<(u32, SeriesMainInformation)> {
    if pages.len() == 0 {
        pages
    } else {
        pages.drop_last()
    }
}

/// What opening a series page amounts to.
#[derive(Debug, Clone, Copy, PartialEq, Eq, Structural)]
pub enum PageSwitch {
    /// The page was already open and has moved to the front: its scroller goes
    /// back to the start.
    Existing(u32),
    /// A new page was created for the series.
    Created(u32),
}

/// The opened series pages, keyed by series id, in the order they were
/// opened; the last one is shown.
pub struct SeriesPageController {
    series_pages: IndexMap<u32, SeriesMainInformation>,
}

impl SeriesPageController {
    /// The pages, in order.
    pub closed spec fn pages(&self) -> Seq<(u32, SeriesMainInformation)> {
        page_entries(self.series_pages)
    }

    #[verifier::type_invariant]
    closed spec fn inv(&self) -> bool {
        pages_well_formed(page_entries(self.series_pages))
    }

    pub fn new() -> (c: Self)
        ensures
            c.pages() == Seq::<(u32, SeriesMainInformation)>::empty(),
            pages_well_formed(c.pages()),
    {
        Self { series_pages: new_pages() }
    }

    /// Clears all the series pages.
    pub fn clear_all_pages(&mut self)
        ensures
            final(self).pages() == Seq::<(u32, SeriesMainInformation)>::empty(),
    {
        let mut pages = new_pages();
        std::mem::swap(&mut pages, &mut self.series_pages);
        clear_pages(&mut pages);
        self.series_pages = pages;
    }

    /// Whether there is a series page.
    pub fn has_a_series_page(&self) -> (b: bool)
        ensures
            b == (self.pages().len() > 0),
    {
        !pages_is_empty(&self.series_pages)
    }

    /// Goes to the previously opened series page, discarding the current one.
    /// Returns the id of the page now shown, whose scroller is restored.
    pub fn go_previous(&mut self) -> (r: Option<u32>)
        ensures
            final(self).pages() == pages_after_previous(old(self).pages()),
            pages_well_formed(final(self).pages()),
            final(self).pages().len() == 0 ==> r is None,
            final(self).pages().len() > 0 ==> r == Some(final(self).pages().last().0),
    {
        proof {
            use_type_invariant(&*self);
        }
        let mut pages = new_pages();
        std::mem::swap(&mut pages, &mut self.series_pages);
        let _ = pop_page(&mut pages);
        self.series_pages = pages;
        proof {
            use_type_invariant(&*self);
        }
        match last_page(&self.series_pages) {
            Some(series) => Some(series.id),
            None => None,
        }
    }

    /// The name of the series of the page shown, if any.
    pub fn get_series_page_name(&self) -> (r: Option<&str>)
        ensures
            self.pages().len() == 0 ==> r is None,
            self.pages().len() > 0 ==> (r matches Some(n) && n@ == self.pages().last().1.name@),
    {
        match last_page(&self.series_pages) {
            Some(series) => Some(series.name.as_str()),
            None => None,
        }
    }

    /// The series of the page shown, if any.
    pub fn view(&self) -> (r: Option<&SeriesMainInformation>)
        ensures
            self.pages().len() == 0 ==> r is None,
            self.pages().len() > 0 ==> r == Some(&self.pages().last().1),
    {
        last_page(&self.series_pages)
    }

    /// Switches to the page of a series: an open page moves to the front and
    /// keeps its state, otherwise a new page is created.
    pub fn try_series_page_switch(&mut self, series_info: SeriesMainInformation) -> (r: PageSwitch)
        ensures
            final(self).pages() == pages_after_switch(old(self).pages(), series_info),
            pages_well_formed(final(self).pages()),
            final(self).pages().last().0 == series_info.id,
            has_key(old(self).pages(), series_info.id) ==> r == PageSwitch::Existing(series_info.id),
            !has_key(old(self).pages(), series_info.id) ==> r == PageSwitch::Created(series_info.id),
    {
        proof {
            use_type_invariant(&*self);
        }
        let series_page_id = series_info.id;
        let ghost old_pages = page_entries(self.series_pages);
        let mut pages = new_pages();
        std::mem::swap(&mut pages, &mut self.series_pages);
        let removed = shift_remove_page(&mut pages, &series_page_id);
        match removed {
            Some((id, page)) => {
                proof {
                    let i = choose|i: int| 0 <= i < old_pages.len() && #[trigger] old_pages[i].0 == series_page_id;
                    assert(page_entries(pages) == old_pages.remove(i));
                    assert(!has_key(page_entries(pages), id)) by {
                        if has_key(page_entries(pages), id) {
                            let j = choose|j: int| 0 <= j < page_entries(pages).len() && #[trigger] page_entries(pages)[j].0 == id;
                            if j < i {
                                assert(old_pages[j].0 == id);
                            } else {
                                assert(old_pages[j + 1].0 == id);
                            }
                        }
                    }
                }
                let _ = insert_page(&mut pages, id, page);
                proof {
                    let i = choose|i: int| 0 <= i < old_pages.len() && #[trigger] old_pages[i].0 == series_page_id;
                    let e = page_entries(pages);
                    assert(e =~= pages_after_switch(old_pages, series_info));
                    assert forall|a: int, b: int|
                        0 <= a < e.len() && 0 <= b < e.len() && a != b implies #[trigger] e[a].0 != #[trigger] e[b].0 by {
                        if a < i && b < i {
                            assert(old_pages[a].0 != old_pages[b].0);
                        } else if a < i && b >= i && b < e.len() - 1 {
                            assert(old_pages[a].0 != old_pages[b + 1].0);
                        } else if b < i && a >= i && a < e.len() - 1 {
                            assert(old_pages[b].0 != old_pages[a + 1].0);
                        } else if a >= i && b >= i && a < e.len() - 1 && b < e.len() - 1 {
                            assert(old_pages[a + 1].0 != old_pages[b + 1].0);
                        }
                    }
                }
                self.series_pages = pages;
                PageSwitch::Existing(series_page_id)
            },
            None => {
                let _ = insert_page(&mut pages, series_page_id, series_info);
                proof {
                    let e = page_entries(pages);
                    assert(e =~= pages_after_switch(old_pages, series_info));
                    assert forall|a: int, b: int|
                        0 <= a < e.len() && 0 <= b < e.len() && a != b implies #[trigger] e[a].0 != #[trigger] e[b].0 by {
                        if a < old_pages.len() && b < old_pages.len() {
                            assert(old_pages[a].0 != old_pages[b].0);
                        } else if a < old_pages.len() {
                            assert(old_pages[a].0 != series_page_id);
                        } else if b < old_pages.len() {
                            assert(old_pages[b].0 != series_page_id);
                        }
                    }
                }
                self.series_pages = pages;
                PageSwitch::Created(series_page_id)
            },
        }
    }
}

/// Opening the page of a series that is not open, then going back, gives
/// the pages as they were before.
pub proof fn lemma_previous_undoes_new_switch(
    pages: Seq<(u32, SeriesMainInformation)>,
    info: SeriesMainInformation,
)
    requires
        !has_key(pages, info.id),
    ensures
        pages_after_previous(pages_after_switch(pages, info)) == pages,
{
    assert(pages.push((info.id, info)).drop_last() =~= pages);
}

/// After opening the page of a series, that page is the one shown, and it
/// shows that series when it was not open before.
pub proof fn lemma_switch_shows_series(
    pages: Seq<(u32, SeriesMainInformation)>,
    info: SeriesMainInformation,
)
    ensures
        pages_after_switch(pages, info).len() > 0,
        pages_after_switch(pages, info).last().0 == info.id,
        !has_key(pages, info.id) ==> pages_after_switch(pages, info).last().1 == info,
{
    if has_key(pages, info.id) {
        let i = choose|i: int| 0 <= i < pages.len() && #[trigger] pages[i].0 == info.id;
        assert(pages.remove(i).push(pages[i]).last() == pages[i]);
    }
}

/// Opening a page never changes the number of pages by more than one, and
/// reopening an open page keeps the number of pages.
pub proof fn lemma_switch_page_count(
    pages: Seq<(u32, SeriesMainInformation)>,
    info: SeriesMainInformation,
)
    ensures
        has_key(pages, info.id) ==> pages_after_switch(pages, info).len() == pages.len(),
        !has_key(pages, info.id) ==> pages_after_switch(pages, info).len() == pages.len() + 1,
{
}

} // verus!
