//! A table of rows with automatically assigned identifiers.
//!
//! A table keeps its rows in the order in which they were inserted and a
//! counter that remembers the last identifier it handed out. A new row gets
//! an identifier one above both the counter and every identifier still in the
//! table; deleting resets the counter.

use vstd::prelude::*;

verus! {

/// The largest identifier a table can hand out.
pub open spec fn max_id() -> int {
    0x7fff_ffff
}

/// The mathematical model of one row: its identifier and its content.
pub struct RowView<V> {
    pub id: int,
    pub data: V,
}

/// The mathematical model of a table.
pub struct TableView<V> {
    /// The rows, oldest first.
    pub rows: Seq<RowView<V>>,
    /// The last identifier handed out since the counter was last reset, or 0.
    pub counter: int,
}

impl<V> TableView<V> {
    /// The table with no rows and a fresh counter.
    pub open spec fn empty() -> Self {
        TableView { rows: Seq::empty(), counter: 0 }
    }

    /// Identifiers are positive, bounded and strictly increasing, so no two
    /// rows share one; the counter is between 0 and the bound.
    pub open spec fn wf(self) -> bool {
        &&& 0 <= self.counter <= max_id()
        &&& forall|i: int| 0 <= i < self.rows.len() ==> 1 <= (#[trigger] self.rows[i]).id <= max_id()
        &&& forall|i: int, j: int|
            0 <= i < j < self.rows.len() ==> (#[trigger] self.rows[i]).id < (#[trigger] self.rows[j]).id
    }

    /// Whether some row has identifier `id`.
    pub open spec fn has_id(self, id: int) -> bool {
        exists|i: int| 0 <= i < self.rows.len() && (#[trigger] self.rows[i]).id == id
    }

    /// The place of the row with identifier `id`; meaningful when there is one.
    pub open spec fn index_of(self, id: int) -> int {
        choose|i: int| 0 <= i < self.rows.len() && (#[trigger] self.rows[i]).id == id
    }

    /// How many rows have identifier `id`: one or none.
    pub open spec fn count(self, id: int) -> nat {
        if self.has_id(id) {
            1
        } else {
            0
        }
    }

    /// The content of the row with identifier `id`, if there is one.
    pub open spec fn lookup(self, id: int) -> Option<V> {
        if self.has_id(id) {
            Some(self.rows[self.index_of(id)].data)
        } else {
            None
        }
    }

    /// The largest identifier in the table, or 0 when it is empty.
    pub open spec fn last_id(self) -> int {
        if self.rows.len() == 0 {
            0
        } else {
            self.rows.last().id
        }
    }

    /// The identifier the next inserted row will get.
    pub open spec fn next_id(self) -> int {
        if self.counter >= self.last_id() {
            self.counter + 1
        } else {
            self.last_id() + 1
        }
    }

    /// Whether the table can still hand out an identifier.
    pub open spec fn has_room(self) -> bool {
        self.next_id() <= max_id()
    }

    /// The table after inserting `data` under the next identifier.
    pub open spec fn inserted(self, data: V) -> Self {
        TableView {
            rows: self.rows.push(RowView { id: self.next_id(), data }),
            counter: self.next_id(),
        }
    }

    /// The table after replacing the content of row `id`; unchanged when
    /// there is no such row.
    pub open spec fn replaced(self, id: int, data: V) -> Self {
        if self.has_id(id) {
            TableView {
                rows: self.rows.update(self.index_of(id), RowView { id, data }),
                counter: self.counter,
            }
        } else {
            self
        }
    }

    /// The table after deleting row `id`: the row is gone if it was there,
    /// and the counter is reset whether or not it was.
    pub open spec fn deleted(self, id: int) -> Self {
        TableView {
            rows: if self.has_id(id) {
                self.rows.remove(self.index_of(id))
            } else {
                self.rows
            },
            counter: 0,
        }
    }
}

/// One row of a table: its identifier and its content.
#[derive(Clone, Debug, PartialEq, Eq)]
pub struct Entry<P> {
    pub id: i32,
    pub data: P,
}

impl<P: View> View for Entry<P> {
    type V = RowView<P::V>;

    open spec fn view(&self) -> RowView<P::V> {
        RowView { id: self.id as int, data: self.data@ }
    }
}

/// The model of a list of rows and a counter, whether or not they make a
/// well-formed table.
pub open spec fn table_of<P: View>(rows: Seq<Entry<P>>, counter: int) -> TableView<P::V> {
    TableView { rows: rows.map_values(|e: Entry<P>| e@), counter }
}

/// A table of rows whose content has type `P`.
pub struct Table<P: View> {
    rows: Vec<Entry<P>>,
    counter: i32,
}

impl<P: View> View for Table<P> {
    type V = TableView<P::V>;

    closed spec fn view(&self) -> TableView<P::V> {
        table_of(self.rows@, self.counter as int)
    }
}

impl<P: View> Table<P> {
    /// An empty table with a fresh counter.
    pub fn new() -> (t: Self)
        ensures
            t@ == TableView::<P::V>::empty(),
            t@.wf(),
    {
        let t = Table { rows: Vec::new(), counter: 0 };
        assert(t@.rows =~= Seq::empty());
        t
    }

    /// Builds a table from stored rows and a stored counter, if they make a
    /// well-formed table.
    pub fn from_rows(rows: Vec<Entry<P>>, counter: i32) -> (r: Option<Self>)
        ensures
            r is Some <==> table_of(rows@, counter as int).wf(),
            r is Some ==> r.unwrap()@ == table_of(rows@, counter as int),
    {
        let ghost model = table_of(rows@, counter as int);
        if counter < 0 {
            return None;
        }
        let mut last: i32 = 0;
        let mut i: usize = 0;
        while i < rows.len()
            invariant
                0 <= i <= rows.len(),
                model == table_of(rows@, counter as int),
                i == 0 ==> last == 0,
                i > 0 ==> last == rows[i - 1].id,
                forall|k: int| 0 <= k < i ==> 1 <= (#[trigger] model.rows[k]).id <= max_id(),
                forall|k: int, l: int|
                    0 <= k < l < i ==> (#[trigger] model.rows[k]).id < (#[trigger] model.rows[l]).id,
            decreases rows.len() - i,
        {
            let id = rows[i].id;
            if id <= last {
                proof {
                    if i > 0 {
                        assert(model.rows[i as int - 1].id >= model.rows[i as int].id);
                    } else {
                        assert(model.rows[0].id < 1);
                    }
                }
                return None;
            }
            last = id;
            i = i + 1;
        }
        Some(Table { rows, counter })
    }

    /// The number of rows.
    pub fn len(&self) -> (n: usize)
        ensures
            n == self@.rows.len(),
    {
        self.rows.len()
    }

    /// The last identifier handed out since the counter was last reset, or 0.
    pub fn counter(&self) -> (c: i32)
        ensures
            c == self@.counter,
    {
        self.counter
    }

    /// The row at place `i`, counting from the oldest.
    pub fn entry(&self, i: usize) -> (e: &Entry<P>)
        requires
            i < self@.rows.len(),
        ensures
            e@ == self@.rows[i as int],
    {
        &self.rows[i]
    }

    /// Finds the place of the row with identifier `id`.
    pub fn position(&self, id: i32) -> (r: Option<usize>)
        requires
            self@.wf(),
        ensures
            r is Some <==> self@.has_id(id as int),
            r is Some ==> r.unwrap() == self@.index_of(id as int),
    {
        let mut i: usize = 0;
        while i < self.rows.len()
            invariant
                0 <= i <= self.rows.len(),
                self@.wf(),
                forall|k: int| 0 <= k < i ==> (#[trigger] self@.rows[k]).id != id,
            decreases self.rows.len() - i,
        {
            if self.rows[i].id == id {
                assert(self@.rows[i as int].id == id);
                return Some(i);
            }
            i = i + 1;
        }
        None
    }

    /// Inserts `data` under the next identifier and returns that identifier;
    /// leaves the table unchanged and returns `None` when the identifiers are
    /// used up.
    pub fn insert(&mut self, data: P) -> (r: Option<i32>)
        requires
            old(self)@.wf(),
        ensures
            final(self)@.wf(),
            old(self)@.has_room() ==> r == Some(old(self)@.next_id() as i32) && final(self)@ == old(
                self,
            )@.inserted(data@),
            !old(self)@.has_room() ==> r is None && final(self)@ == old(self)@,
    {
        let n = self.rows.len();
        let last: i32 = if n == 0 {
            0
        } else {
            self.rows[n - 1].id
        };
        assert(last == self@.last_id());
        let base: i32 = if self.counter >= last {
            self.counter
        } else {
            last
        };
        if base == i32::MAX {
            return None;
        }
        let id: i32 = base + 1;
        self.rows.push(Entry { id, data });
        self.counter = id;
        assert(self@.rows =~= old(self)@.inserted(data@).rows);
        Some(id)
    }

    /// Replaces the content of row `id` and returns how many rows changed.
    pub fn replace(&mut self, id: i32, data: P) -> (n: usize)
        requires
            old(self)@.wf(),
        ensures
            final(self)@.wf(),
            n == old(self)@.count(id as int),
            final(self)@ == old(self)@.replaced(id as int, data@),
    {
        match self.position(id) {
            Some(i) => {
                self.rows.set(i, Entry { id, data });
                assert(self@.rows =~= old(self)@.replaced(id as int, data@).rows);
                1
            },
            None => 0,
        }
    }

    /// Deletes row `id`, resets the counter, and returns how many rows were
    /// deleted.
    pub fn delete(&mut self, id: i32) -> (n: usize)
        requires
            old(self)@.wf(),
        ensures
            final(self)@.wf(),
            n == old(self)@.count(id as int),
            final(self)@ == old(self)@.deleted(id as int),
    {
        let found = self.position(id);
        self.counter = 0;
        match found {
            Some(i) => {
                self.rows.remove(i);
                assert(self@.rows =~= old(self)@.deleted(id as int).rows);
                1
            },
            None => {
                assert(self@.rows =~= old(self)@.deleted(id as int).rows);
                0
            },
        }
    }
}

} // verus!
