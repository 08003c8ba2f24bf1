//! The store: the creators, the blacklist and the interesting links.

use vstd::prelude::*;
use crate::model::{BlacklistData, BlacklistModel, CreatorData, CreatorModel, LinkData, LinkModel};
use crate::table::{Table, TableView};
use crate::validate::{sanitize_input, sanitize_urls};

verus! {

/// The mathematical model of a store: its three tables.
pub struct StoreState {
    pub creators: TableView<CreatorModel>,
    pub blacklisted_creators: TableView<BlacklistModel>,
    pub interesting_links: TableView<LinkModel>,
}

/// Whether every row of the table holds the fields of a creator: a name that
/// is not empty and is plain text, a homepage that is an absolute URL, and a
/// rating in `0..=10`.
pub open spec fn creators_valid(creators: TableView<CreatorModel>) -> bool {
    forall|i: int| 0 <= i < creators.rows.len() ==> (#[trigger] creators.rows[i]).data.valid()
}

impl StoreState {
    /// The store with three empty tables.
    pub open spec fn empty() -> Self {
        StoreState {
            creators: TableView::empty(),
            blacklisted_creators: TableView::empty(),
            interesting_links: TableView::empty(),
        }
    }

    /// Every table is well formed and every creator has a name that is not
    /// empty and is plain text, an absolute homepage and a rating in `0..=10`.
    ///
    /// A blacklist row may refer to a creator that no longer exists.
    pub open spec fn wf(self) -> bool {
        &&& self.creators.wf()
        &&& self.blacklisted_creators.wf()
        &&& self.interesting_links.wf()
        &&& creators_valid(self.creators)
    }
}

/// The store that every operation reads and writes.
pub struct Store {
    pub(crate) creators: Table<CreatorData>,
    pub(crate) blacklisted_creators: Table<BlacklistData>,
    pub(crate) interesting_links: Table<LinkData>,
}

impl Store {
    /// The model of this store.
    pub open(crate) spec fn view(&self) -> StoreState {
        StoreState {
            creators: self.creators@,
            blacklisted_creators: self.blacklisted_creators@,
            interesting_links: self.interesting_links@,
        }
    }

    /// A store with three empty tables.
    pub fn new() -> (s: Store)
        ensures
            s@ == StoreState::empty(),
            s@.wf(),
    {
        Store {
            creators: Table::new(),
            blacklisted_creators: Table::new(),
            interesting_links: Table::new(),
        }
    }

    /// Assembles a store from its three tables, if every creator has a name
    /// that is not empty and is plain text, an absolute homepage and a rating
    /// in `0..=10`.
    pub fn from_tables(
        creators: Table<CreatorData>,
        blacklisted_creators: Table<BlacklistData>,
        interesting_links: Table<LinkData>,
    ) -> (r: Option<Store>)
        requires
            creators@.wf(),
            blacklisted_creators@.wf(),
            interesting_links@.wf(),
        ensures
            r is Some <==> creators_valid(creators@),
            r is Some ==> r.unwrap()@ == (StoreState {
                creators: creators@,
                blacklisted_creators: blacklisted_creators@,
                interesting_links: interesting_links@,
            }) && r.unwrap()@.wf(),
    {
        let mut i: usize = 0;
        while i < creators.len()
            invariant
                0 <= i <= creators@.rows.len(),
                forall|k: int| 0 <= k < i ==> (#[trigger] creators@.rows[k]).data.valid(),
            decreases creators@.rows.len() - i,
        {
            let data = &creators.entry(i).data;
            let name_ok = !data.name.as_str().is_empty() && sanitize_input(
                data.name.as_str(),
            ).is_some();
            let homepage_ok = sanitize_urls(data.homepage.as_str()).is_some();
            let rate_ok = 0 <= data.rate && data.rate <= 10;
            if !(name_ok && homepage_ok && rate_ok) {
                assert(!creators@.rows[i as int].data.valid());
                return None;
            }
            i = i + 1;
        }
        Some(Store { creators, blacklisted_creators, interesting_links })
    }

    /// The table of creators.
    pub fn creators(&self) -> (t: &Table<CreatorData>)
        ensures
            t@ == self@.creators,
    {
        &self.creators
    }

    /// The table of blacklist rows, orphans included.
    pub fn blacklisted_creators(&self) -> (t: &Table<BlacklistData>)
        ensures
            t@ == self@.blacklisted_creators,
    {
        &self.blacklisted_creators
    }

    /// The table of interesting links.
    pub fn interesting_links(&self) -> (t: &Table<LinkData>)
        ensures
            t@ == self@.interesting_links,
    {
        &self.interesting_links
    }
}

} // verus!
