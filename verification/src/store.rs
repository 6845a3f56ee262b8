//! The entry repository and its store. The store is modelled as the one
//! table the system persists: an append-only sequence of entries in
//! insertion order, usable only once its schema has been bootstrapped.
//! The SQL statements that a relational backend would run for each
//! operation are part of the persisted-state contract and are provided
//! here as exact text, so a boundary that executes them against a real
//! database issues precisely the statements this core specifies.

use vstd::prelude::*;

use crate::entry::{Entry, EntryV, entry_views};
use crate::error::Error;

verus! {

/// The idempotent statement Schema Bootstrap issues: create the entries
/// table if it is absent, with the two required text columns.
pub open spec fn create_table_text() -> Seq<char> {
    "CREATE TABLE IF NOT EXISTS record (who TEXT NOT NULL, message TEXT NOT NULL);"@
}

/// The parameterized insert the append operation issues, binding `who`
/// then `message`, in that order.
pub open spec fn insert_entry_text() -> Seq<char> {
    "INSERT INTO record VALUES ($1, $2);"@
}

/// The select the list operation issues: both columns of every row, in
/// the table's natural scan order.
pub open spec fn list_entries_text() -> Seq<char> {
    "SELECT who, message FROM record;"@
}

pub fn create_table_sql() -> (s: &'static str)
    ensures
        s@ == create_table_text(),
{
    "CREATE TABLE IF NOT EXISTS record (who TEXT NOT NULL, message TEXT NOT NULL);"
}

pub fn insert_entry_sql() -> (s: &'static str)
    ensures
        s@ == insert_entry_text(),
{
    "INSERT INTO record VALUES ($1, $2);"
}

pub fn list_entries_sql() -> (s: &'static str)
    ensures
        s@ == list_entries_text(),
{
    "SELECT who, message FROM record;"
}

/// A process-wide store holding the one entries table. Its view is the
/// stored entries in insertion order; `schema_ready` says whether the
/// entries table exists yet at this location.
pub struct Store {
    ready: bool,
    rows: Vec<Entry>,
}

impl View for Store {
    type V = Seq<EntryV>;

    closed spec fn view(&self) -> Seq<EntryV> {
        entry_views(self.rows@)
    }
}

/// What Schema Bootstrap does to a store: afterwards the schema exists,
/// and the data already stored is unaltered.
pub open spec fn bootstrap_relates(before: Store, after: Store) -> bool {
    &&& after@ == before@
    &&& after.schema_ready()
}

impl Store {
    /// Whether the entries table exists at this store's location.
    pub closed spec fn schema_ready(&self) -> bool {
        self.ready
    }

    /// Opens a fresh store location: no schema yet, and nothing stored.
    pub fn open() -> (s: Store)
        ensures
            !s.schema_ready(),
            s@ == Seq::<EntryV>::empty(),
    {
        let s = Store { ready: false, rows: Vec::new() };
        proof {
            assert(s@ =~= Seq::<EntryV>::empty());
        }
        s
    }

    /// Schema Bootstrap: makes the entries table exist. Idempotent, and
    /// never touches the data already stored.
    pub fn bootstrap(&mut self)
        ensures
            bootstrap_relates(*old(self), *final(self)),
    {
        self.ready = true;
    }

    /// Appends one entry: on a bootstrapped store it is added at the end,
    /// durably visible to every later list; nothing else changes. On a
    /// store whose schema is missing the append fails with the store
    /// layer's message and the state is unchanged.
    pub fn append(&mut self, entry: Entry) -> (r: Result<(), Error>)
        ensures
            final(self).schema_ready() == old(self).schema_ready(),
            old(self).schema_ready() ==> {
                &&& r matches Ok(())
                &&& final(self)@ == old(self)@.push(entry@)
            },
            !old(self).schema_ready() ==> {
                &&& (r matches Err(e) && e matches Error::Database(m) && m@
                    == "no such table: record"@)
                &&& final(self)@ == old(self)@
            },
    {
        if !self.ready {
            return Err(Error::Database(String::from_str("no such table: record")));
        }
        let ghost before = self.rows@;
        self.rows.push(entry);
        proof {
            assert(entry_views(self.rows@) =~= entry_views(before).push(entry@));
        }
        Ok(())
    }

    /// Lists every stored entry, in insertion order, with both fields
    /// unchanged; an empty store yields an empty sequence, not an error.
    /// On a store whose schema is missing the list fails with the store
    /// layer's message.
    pub fn list(&self) -> (r: Result<Vec<Entry>, Error>)
        ensures
            self.schema_ready() ==> {
                &&& r matches Ok(rows)
                &&& entry_views(rows@) == self@
            },
            !self.schema_ready() ==> (r matches Err(e) && e matches Error::Database(m) && m@
                == "no such table: record"@),
    {
        if !self.ready {
            return Err(Error::Database(String::from_str("no such table: record")));
        }
        let mut out: Vec<Entry> = Vec::new();
        let n = self.rows.len();
        let mut i: usize = 0;
        while i < n
            invariant
                n == self.rows@.len(),
                i <= n,
                out@.len() == i,
                forall|j: int| 0 <= j < i ==> out@[j]@ == self.rows@[j]@,
            decreases n - i,
        {
            out.push(self.rows[i].clone());
            i = i + 1;
        }
        proof {
            assert(entry_views(out@) =~= entry_views(self.rows@));
        }
        Ok(out)
    }
}

/// The store contents reached by appending each of `appended` in turn,
/// starting from the contents `init`; each step is the push that the
/// contract of [`Store::append`] guarantees.
pub open spec fn store_after_appends(init: Seq<EntryV>, appended: Seq<EntryV>) -> Seq<EntryV>
    decreases appended.len(),
{
    if appended.len() == 0 {
        init
    } else {
        store_after_appends(init.push(appended[0]), appended.skip(1))
    }
}

/// Round trip: appending an entry with non-empty fields to a store with
/// contents `entries` puts that entry, fields unchanged, at the end of
/// what list then yields, so the listing contains it.
pub proof fn lemma_append_round_trip(entries: Seq<EntryV>, e: EntryV)
    requires
        e.who.len() > 0,
        e.message.len() > 0,
    ensures
        entries.push(e)[entries.len() as int] == e,
        entries.push(e).contains(e),
{
    assert(entries.push(e)[entries.len() as int] == e);
}

/// Append is additive: appending the entries `appended` one after another
/// to a store with contents `init` yields exactly `init` followed by
/// `appended` — as many new entries as were appended, none lost, none
/// duplicated, in the order they were appended.
pub proof fn lemma_append_additive(init: Seq<EntryV>, appended: Seq<EntryV>)
    ensures
        store_after_appends(init, appended) == init + appended,
        store_after_appends(init, appended).len() == init.len() + appended.len(),
    decreases appended.len(),
{
    if appended.len() == 0 {
        assert(init + appended =~= init);
    } else {
        lemma_append_additive(init.push(appended[0]), appended.skip(1));
        assert(init.push(appended[0]) + appended.skip(1) =~= init + appended);
    }
}

/// Schema Bootstrap is idempotent: bootstrapping a store a second time
/// does not error (the operation is total) and leaves the stored data
/// exactly as the first bootstrap left it, which is exactly the data
/// stored before either call.
pub proof fn lemma_bootstrap_idempotent(before: Store, once: Store, twice: Store)
    requires
        bootstrap_relates(before, once),
        bootstrap_relates(once, twice),
    ensures
        twice@ == before@,
        bootstrap_relates(before, twice),
{
}

/// Empty state: a freshly opened, bootstrapped and unmodified store has
/// no contents, and its schema is ready, so by the contract of
/// [`Store::list`] a list on it returns an empty sequence, not an error.
pub proof fn lemma_empty_state(fresh: Store, booted: Store)
    requires
        fresh@ == Seq::<EntryV>::empty(),
        bootstrap_relates(fresh, booted),
    ensures
        booted.schema_ready(),
        booted@.len() == 0,
{
}

} // verus!
