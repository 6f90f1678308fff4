//! The entry record: one ticket purchase, the service's sole entity.

use vstd::prelude::*;

verus! {

/// A stored entry. `id` is assigned by the service on creation and is
/// `Some` for every row held by a table.
pub struct Entry {
    pub id: Option<u32>,
    pub customer_id: String,
    pub customer_name: String,
    pub show_name: String,
    pub ticket_count: u32,
    pub showtime: String,
}

/// The mathematical value of an [`Entry`]: strings as character sequences.
pub struct EntryView {
    pub id: Option<u32>,
    pub customer_id: Seq<char>,
    pub customer_name: Seq<char>,
    pub show_name: Seq<char>,
    pub ticket_count: u32,
    pub showtime: Seq<char>,
}

impl View for Entry {
    type V = EntryView;

    open spec fn view(&self) -> EntryView {
        EntryView {
            id: self.id,
            customer_id: self.customer_id@,
            customer_name: self.customer_name@,
            show_name: self.show_name@,
            ticket_count: self.ticket_count,
            showtime: self.showtime@,
        }
    }
}

impl Entry {
    /// A field-for-field copy, equal to `self` in view.
    pub fn duplicate(&self) -> (r: Entry)
        ensures
            r@ == self@,
    {
        Entry {
            id: self.id,
            customer_id: self.customer_id.clone(),
            customer_name: self.customer_name.clone(),
            show_name: self.show_name.clone(),
            ticket_count: self.ticket_count,
            showtime: self.showtime.clone(),
        }
    }
}

/// A creation payload: every field present, no id.
pub struct CreateEntry {
    pub customer_id: String,
    pub customer_name: String,
    pub show_name: String,
    pub ticket_count: u32,
    pub showtime: String,
}

/// The mathematical value of a [`CreateEntry`].
pub struct CreateView {
    pub customer_id: Seq<char>,
    pub customer_name: Seq<char>,
    pub show_name: Seq<char>,
    pub ticket_count: u32,
    pub showtime: Seq<char>,
}

impl View for CreateEntry {
    type V = CreateView;

    open spec fn view(&self) -> CreateView {
        CreateView {
            customer_id: self.customer_id@,
            customer_name: self.customer_name@,
            show_name: self.show_name@,
            ticket_count: self.ticket_count,
            showtime: self.showtime@,
        }
    }
}

/// The entry that creating from payload `c` under identity `id` stores.
pub open spec fn entry_of(c: CreateView, id: u32) -> EntryView {
    EntryView {
        id: Some(id),
        customer_id: c.customer_id,
        customer_name: c.customer_name,
        show_name: c.show_name,
        ticket_count: c.ticket_count,
        showtime: c.showtime,
    }
}

/// A partial-update payload: any subset of the non-id fields.
pub struct UpdateEntry {
    pub customer_id: Option<String>,
    pub customer_name: Option<String>,
    pub show_name: Option<String>,
    pub ticket_count: Option<u32>,
    pub showtime: Option<String>,
}

/// The mathematical value of an [`UpdateEntry`].
pub struct UpdateView {
    pub customer_id: Option<Seq<char>>,
    pub customer_name: Option<Seq<char>>,
    pub show_name: Option<Seq<char>>,
    pub ticket_count: Option<u32>,
    pub showtime: Option<Seq<char>>,
}

impl View for UpdateEntry {
    type V = UpdateView;

    open spec fn view(&self) -> UpdateView {
        UpdateView {
            customer_id: match self.customer_id {
                Some(ref s) => Some(s@),
                None => None,
            },
            customer_name: match self.customer_name {
                Some(ref s) => Some(s@),
                None => None,
            },
            show_name: match self.show_name {
                Some(ref s) => Some(s@),
                None => None,
            },
            ticket_count: self.ticket_count,
            showtime: match self.showtime {
                Some(ref s) => Some(s@),
                None => None,
            },
        }
    }
}

impl UpdateView {
    /// True when the payload supplies no field at all.
    pub open spec fn is_empty(self) -> bool {
        &&& self.customer_id is None
        &&& self.customer_name is None
        &&& self.show_name is None
        &&& self.ticket_count is None
        &&& self.showtime is None
    }

    /// The entry that results from applying this partial update to `e`:
    /// each supplied field replaces the stored one, the id never changes.
    pub open spec fn apply_to(self, e: EntryView) -> EntryView {
        EntryView {
            id: e.id,
            customer_id: match self.customer_id {
                Some(s) => s,
                None => e.customer_id,
            },
            customer_name: match self.customer_name {
                Some(s) => s,
                None => e.customer_name,
            },
            show_name: match self.show_name {
                Some(s) => s,
                None => e.show_name,
            },
            ticket_count: match self.ticket_count {
                Some(n) => n,
                None => e.ticket_count,
            },
            showtime: match self.showtime {
                Some(s) => s,
                None => e.showtime,
            },
        }
    }
}

impl UpdateEntry {
    /// True when the payload supplies no field at all.
    pub fn is_empty(&self) -> (r: bool)
        ensures
            r == self@.is_empty(),
    {
        self.customer_id.is_none() && self.customer_name.is_none() && self.show_name.is_none()
            && self.ticket_count.is_none() && self.showtime.is_none()
    }

    /// Applies the partial update to `e`, leaving the id untouched.
    pub fn apply_to(&self, e: &Entry) -> (r: Entry)
        ensures
            r@ == self@.apply_to(e@),
    {
        Entry {
            id: e.id,
            customer_id: match self.customer_id {
                Some(ref s) => s.clone(),
                None => e.customer_id.clone(),
            },
            customer_name: match self.customer_name {
                Some(ref s) => s.clone(),
                None => e.customer_name.clone(),
            },
            show_name: match self.show_name {
                Some(ref s) => s.clone(),
                None => e.show_name.clone(),
            },
            ticket_count: match self.ticket_count {
                Some(n) => n,
                None => e.ticket_count,
            },
            showtime: match self.showtime {
                Some(ref s) => s.clone(),
                None => e.showtime.clone(),
            },
        }
    }
}

} // verus!
