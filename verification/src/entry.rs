//! The sole domain entity: a guestbook entry, an author (`who`) together
//! with a free-form `message`. Entries are immutable once stored; the
//! mathematical model of an entry is the pair of its two character
//! sequences.

use vstd::prelude::*;

verus! {

/// The model of an [`Entry`]: the two field texts as character sequences.
pub struct EntryV {
    pub who: Seq<char>,
    pub message: Seq<char>,
}

/// A guestbook entry: who signed, and what they wrote. Both fields are
/// plain text; empty strings are accepted, no validation is enforced here.
#[derive(Debug)]
pub struct Entry {
    pub who: String,
    pub message: String,
}

impl View for Entry {
    type V = EntryV;

    open spec fn view(&self) -> EntryV {
        EntryV { who: self.who@, message: self.message@ }
    }
}

impl Entry {
    pub fn new(who: String, message: String) -> (e: Entry)
        ensures
            e@ == (EntryV { who: who@, message: message@ }),
    {
        Entry { who, message }
    }
}

impl Clone for Entry {
    fn clone(&self) -> (r: Self)
        ensures
            r@ == self@,
    {
        Entry { who: self.who.clone(), message: self.message.clone() }
    }
}

impl PartialEq for Entry {
    fn eq(&self, other: &Entry) -> (r: bool) {
        self.who == other.who && self.message == other.message
    }
}

impl vstd::std_specs::cmp::PartialEqSpecImpl for Entry {
    open spec fn obeys_eq_spec() -> bool {
        true
    }

    open spec fn eq_spec(&self, other: &Entry) -> bool {
        self.who@ == other.who@ && self.message@ == other.message@
    }
}

/// The models of a sequence of entries, in the same order.
pub open spec fn entry_views(rows: Seq<Entry>) -> Seq<EntryV> {
    rows.map_values(|e: Entry| e@)
}

} // verus!
