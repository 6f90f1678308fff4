//! The entries table: the model of the backing store's single relation,
//! with create, read, update and delete under its two uniqueness invariants.

use vstd::prelude::*;
use crate::entry::{CreateEntry, CreateView, Entry, EntryView, UpdateEntry, UpdateView, entry_of};
use crate::errors::RepoError;

verus! {

/// The views of a sequence of stored entries.
pub open spec fn views_seq(rows: Seq<Entry>) -> Seq<EntryView> {
    Seq::new(rows.len(), |i: int| rows[i]@)
}

/// The mathematical value of a [`Table`].
pub struct TableView {
    pub rows: Seq<EntryView>,
    pub next_id: u32,
}

/// Position `i` holds the row whose identity is `id`.
pub open spec fn row_with_id(rows: Seq<EntryView>, id: u32, i: int) -> bool {
    &&& 0 <= i < rows.len()
    &&& rows[i].id == Some(id)
}

/// No row has identity `id`.
pub open spec fn absent(rows: Seq<EntryView>, id: u32) -> bool {
    forall|i: int| 0 <= i < rows.len() ==> (#[trigger] rows[i]).id != Some(id)
}

/// Some row carries the customer id `cid`.
pub open spec fn has_customer(rows: Seq<EntryView>, cid: Seq<char>) -> bool {
    exists|i: int| 0 <= i < rows.len() && (#[trigger] rows[i]).customer_id == cid
}

/// The table's invariant: every row has an assigned identity below the next
/// free one, and both identities and customer ids are unique.
pub open spec fn wf_view(t: TableView) -> bool {
    &&& forall|i: int| 0 <= i < t.rows.len()
            ==> (#[trigger] t.rows[i]).id is Some && t.rows[i].id->0 < t.next_id
    &&& forall|i: int, j: int|
            0 <= i < t.rows.len() && 0 <= j < t.rows.len() && i != j
                ==> (#[trigger] t.rows[i]).id != (#[trigger] t.rows[j]).id
    &&& forall|i: int, j: int|
            0 <= i < t.rows.len() && 0 <= j < t.rows.len() && i != j
                ==> (#[trigger] t.rows[i]).customer_id != (#[trigger] t.rows[j]).customer_id
}

/// What a lookup by id returns: the matching row, or nothing when no row
/// carries the id.
pub open spec fn get_post(rows: Seq<EntryView>, id: u32, r: Option<EntryView>) -> bool {
    match r {
        Some(e) => exists|i: int| #[trigger] row_with_id(rows, id, i) && rows[i] == e,
        None => absent(rows, id),
    }
}

/// What creating from payload `c` does: a fresh customer id inserts one full
/// row under the next identity; a taken customer id is a conflict and leaves
/// the table untouched; exhausted identities are a query failure.
pub open spec fn create_post(
    pre: TableView,
    c: CreateView,
    r: Result<u32, RepoError>,
    post: TableView,
) -> bool {
    match r {
        Ok(id) => {
            &&& !has_customer(pre.rows, c.customer_id)
            &&& pre.next_id < u32::MAX
            &&& id == pre.next_id
            &&& post.rows == pre.rows.push(entry_of(c, id))
            &&& post.next_id == id + 1
        },
        Err(e) => {
            &&& post == pre
            &&& match e {
                RepoError::Conflict => has_customer(pre.rows, c.customer_id),
                RepoError::Query => !has_customer(pre.rows, c.customer_id)
                    && pre.next_id == u32::MAX,
                _ => false,
            }
        },
    }
}

/// Updating row `id` would hand its customer id to a value some other row
/// already carries.
pub open spec fn update_conflict(rows: Seq<EntryView>, id: u32, u: UpdateView) -> bool {
    exists|i: int, j: int|
        #![trigger row_with_id(rows, id, i), rows[j]]
        {
            &&& row_with_id(rows, id, i)
            &&& 0 <= j < rows.len()
            &&& j != i
            &&& u.customer_id == Some(rows[j].customer_id)
        }
}

/// What a partial update of row `id` does. An empty payload is rejected
/// before anything executes; a duplicate customer id is a conflict; otherwise
/// the affected count is 1 exactly when the row exists and actually changes.
pub open spec fn update_post(
    pre: TableView,
    id: u32,
    u: UpdateView,
    r: Result<u64, RepoError>,
    post: TableView,
) -> bool {
    match r {
        Ok(n) => {
            &&& !u.is_empty()
            &&& !update_conflict(pre.rows, id, u)
            &&& post.next_id == pre.next_id
            &&& if absent(pre.rows, id) {
                n == 0 && post == pre
            } else {
                exists|i: int|
                    #[trigger] row_with_id(pre.rows, id, i)
                    && if u.apply_to(pre.rows[i]) == pre.rows[i] {
                        n == 0 && post == pre
                    } else {
                        n == 1 && post.rows == pre.rows.update(i, u.apply_to(pre.rows[i]))
                    }
            }
        },
        Err(e) => {
            &&& post == pre
            &&& match e {
                RepoError::InvalidRequest => u.is_empty(),
                RepoError::Conflict => !u.is_empty() && update_conflict(pre.rows, id, u),
                _ => false,
            }
        },
    }
}

/// What deleting row `id` does: removes it when present (count 1), does
/// nothing when absent (count 0).
pub open spec fn delete_post(pre: TableView, id: u32, n: u64, post: TableView) -> bool {
    &&& post.next_id == pre.next_id
    &&& if absent(pre.rows, id) {
        n == 0 && post == pre
    } else {
        n == 1 && exists|i: int|
            #[trigger] row_with_id(pre.rows, id, i) && post.rows == pre.rows.remove(i)
    }
}

/// The view of an optional owned row.
pub open spec fn opt_view(r: Option<Entry>) -> Option<EntryView> {
    match r {
        Some(e) => Some(e@),
        None => None,
    }
}

/// The entries table.
pub struct Table {
    rows: Vec<Entry>,
    next_id: u32,
}

impl View for Table {
    type V = TableView;

    closed spec fn view(&self) -> TableView {
        TableView { rows: views_seq(self.rows@), next_id: self.next_id }
    }
}

/// Field-for-field equality of two stored entries.
fn entries_equal(a: &Entry, b: &Entry) -> (r: bool)
    ensures
        r == (a@ == b@),
{
    let ids_equal = match (a.id, b.id) {
        (Some(x), Some(y)) => x == y,
        (None, None) => true,
        _ => false,
    };
    ids_equal && a.customer_id == b.customer_id && a.customer_name == b.customer_name
        && a.show_name == b.show_name && a.ticket_count == b.ticket_count
        && a.showtime == b.showtime
}

impl Table {
    /// The table's invariant.
    pub open spec fn wf(self) -> bool {
        wf_view(self@)
    }

    /// An empty table; identities start at 1.
    pub fn new() -> (t: Table)
        ensures
            t.wf(),
            t@.rows.len() == 0,
            t@.next_id == 1,
    {
        Table { rows: Vec::new(), next_id: 1 }
    }

    /// The position of the row with identity `id`, if any.
    fn find_index(&self, id: u32) -> (r: Option<usize>)
        ensures
            match r {
                Some(i) => row_with_id(self@.rows, id, i as int),
                None => absent(self@.rows, id),
            },
    {
        let n = self.rows.len();
        let mut k: usize = 0;
        while k < n
            invariant
                n == self.rows.len(),
                k <= n,
                forall|j: int| 0 <= j < k ==> (#[trigger] self@.rows[j]).id != Some(id),
            decreases n - k,
        {
            match self.rows[k].id {
                Some(x) => {
                    if x == id {
                        return Some(k);
                    }
                },
                None => {},
            }
            k = k + 1;
        }
        None
    }

    /// Every row, in the table's own order.
    pub fn list_all(&self) -> (v: Vec<Entry>)
        ensures
            views_seq(v@) == self@.rows,
    {
        let n = self.rows.len();
        let mut v: Vec<Entry> = Vec::new();
        let mut k: usize = 0;
        while k < n
            invariant
                n == self.rows.len(),
                k <= n,
                v@.len() == k,
                forall|j: int| 0 <= j < k ==> (#[trigger] v@[j])@ == self@.rows[j],
            decreases n - k,
        {
            v.push(self.rows[k].duplicate());
            k = k + 1;
        }
        proof {
            assert(views_seq(v@) =~= self@.rows);
        }
        v
    }

    /// The row with identity `id`, or nothing when no row carries it.
    pub fn get_by_id(&self, id: u32) -> (r: Option<Entry>)
        ensures
            get_post(self@.rows, id, opt_view(r)),
    {
        match self.find_index(id) {
            Some(i) => Some(self.rows[i].duplicate()),
            None => None,
        }
    }

    /// Inserts a full row from the payload under a fresh identity, and
    /// returns that identity; a taken customer id is a conflict and leaves
    /// the table untouched.
    pub fn create(&mut self, c: CreateEntry) -> (r: Result<u32, RepoError>)
        requires
            old(self).wf(),
        ensures
            final(self).wf(),
            create_post(old(self)@, c@, r, final(self)@),
    {
        let ghost cv = c@;
        let n = self.rows.len();
        let mut k: usize = 0;
        while k < n
            invariant
                self.wf(),
                *self == *old(self),
                n == self.rows.len(),
                k <= n,
                forall|j: int| 0 <= j < k
                    ==> (#[trigger] self@.rows[j]).customer_id != cv.customer_id,
                cv == c@,
            decreases n - k,
        {
            if self.rows[k].customer_id == c.customer_id {
                assert(self@.rows[k as int].customer_id == cv.customer_id);
                assert(has_customer(self@.rows, cv.customer_id));
                return Err(RepoError::Conflict);
            }
            k = k + 1;
        }
        assert(!has_customer(self@.rows, cv.customer_id));
        if self.next_id == u32::MAX {
            return Err(RepoError::Query);
        }
        let id = self.next_id;
        self.next_id = id + 1;
        let row = Entry {
            id: Some(id),
            customer_id: c.customer_id,
            customer_name: c.customer_name,
            show_name: c.show_name,
            ticket_count: c.ticket_count,
            showtime: c.showtime,
        };
        self.rows.push(row);
        proof {
            let pre = old(self)@;
            let post = self@;
            assert(post.rows =~= pre.rows.push(entry_of(cv, id)));
            assert forall|i: int| 0 <= i < post.rows.len()
                implies (#[trigger] post.rows[i]).id is Some && post.rows[i].id->0 < post.next_id by {
                if i < pre.rows.len() {
                    assert(pre.rows[i].id is Some && pre.rows[i].id->0 < pre.next_id);
                }
            }
            assert forall|i: int, j: int|
                0 <= i < post.rows.len() && 0 <= j < post.rows.len() && i != j
                implies (#[trigger] post.rows[i]).id != (#[trigger] post.rows[j]).id by {
                if i < pre.rows.len() && j < pre.rows.len() {
                    assert(pre.rows[i].id != pre.rows[j].id);
                } else if i < pre.rows.len() {
                    assert(pre.rows[i].id->0 < id);
                } else if j < pre.rows.len() {
                    assert(pre.rows[j].id->0 < id);
                }
            }
            assert forall|i: int, j: int|
                0 <= i < post.rows.len() && 0 <= j < post.rows.len() && i != j
                implies (#[trigger] post.rows[i]).customer_id
                    != (#[trigger] post.rows[j]).customer_id by {
                if i < pre.rows.len() && j < pre.rows.len() {
                    assert(pre.rows[i].customer_id != pre.rows[j].customer_id);
                } else if i < pre.rows.len() {
                    assert(pre.rows[i].customer_id != cv.customer_id);
                } else if j < pre.rows.len() {
                    assert(pre.rows[j].customer_id != cv.customer_id);
                }
            }
        }
        Ok(id)
    }

    /// Applies the partial update to the row with identity `id`. The count is
    /// 1 exactly when the row exists and actually changes; an empty payload
    /// is rejected before anything executes; handing the row a customer id
    /// another row carries is a conflict.
    pub fn update(&mut self, id: u32, u: &UpdateEntry) -> (r: Result<u64, RepoError>)
        requires
            old(self).wf(),
        ensures
            final(self).wf(),
            update_post(old(self)@, id, u@, r, final(self)@),
    {
        if u.is_empty() {
            return Err(RepoError::InvalidRequest);
        }
        let idx = match self.find_index(id) {
            None => {
                proof {
                    lemma_absent_no_conflict(self@.rows, id, u@);
                }
                return Ok(0);
            },
            Some(i) => i,
        };
        match u.customer_id {
            Some(ref cid) => {
                let n = self.rows.len();
                let mut k: usize = 0;
                while k < n
                    invariant
                        self.wf(),
                        *self == *old(self),
                        n == self.rows.len(),
                        k <= n,
                        idx < n,
                        row_with_id(self@.rows, id, idx as int),
                        !u@.is_empty(),
                        u@.customer_id == Some(cid@),
                        forall|j: int| 0 <= j < k && j != idx
                            ==> (#[trigger] self@.rows[j]).customer_id != cid@,
                    decreases n - k,
                {
                    if k != idx && self.rows[k].customer_id == *cid {
                        assert(update_conflict(self@.rows, id, u@)) by {
                            assert(row_with_id(self@.rows, id, idx as int)
                                && 0 <= k < self@.rows.len() && k as int != idx as int
                                && u@.customer_id == Some(self@.rows[k as int].customer_id));
                        }
                        return Err(RepoError::Conflict);
                    }
                    k = k + 1;
                }
                proof {
                    lemma_unique_target_no_conflict(self@, id, idx as int, u@);
                }
            },
            None => {
                proof {
                    lemma_no_cid_no_conflict(self@.rows, id, u@);
                }
            },
        }
        let updated = u.apply_to(&self.rows[idx]);
        if entries_equal(&updated, &self.rows[idx]) {
            return Ok(0);
        }
        let ghost pre = self@;
        self.rows[idx] = updated;
        proof {
            let post = self@;
            let i = idx as int;
            assert(post.rows =~= pre.rows.update(i, u@.apply_to(pre.rows[i])));
            assert(pre.rows[i].id == Some(id));
            assert(post.rows[i].id == pre.rows[i].id);
            assert forall|a: int| 0 <= a < post.rows.len()
                implies (#[trigger] post.rows[a]).id is Some && post.rows[a].id->0 < post.next_id by {
                assert(pre.rows[a].id is Some && pre.rows[a].id->0 < pre.next_id);
            }
            assert forall|a: int, b: int|
                0 <= a < post.rows.len() && 0 <= b < post.rows.len() && a != b
                implies (#[trigger] post.rows[a]).id != (#[trigger] post.rows[b]).id by {
                assert(pre.rows[a].id != pre.rows[b].id);
            }
            assert forall|a: int, b: int|
                0 <= a < post.rows.len() && 0 <= b < post.rows.len() && a != b
                implies (#[trigger] post.rows[a]).customer_id
                    != (#[trigger] post.rows[b]).customer_id by {
                assert(pre.rows[a].customer_id != pre.rows[b].customer_id);
                if a == i || b == i {
                    let other = if a == i { b } else { a };
                    match u@.customer_id {
                        Some(cid) => {
                            assert(pre.rows[other].customer_id != cid);
                        },
                        None => {},
                    }
                }
            }
        }
        Ok(1)
    }

    /// Removes the row with identity `id`; the count says whether it existed.
    pub fn delete(&mut self, id: u32) -> (n: u64)
        requires
            old(self).wf(),
        ensures
            final(self).wf(),
            delete_post(old(self)@, id, n, final(self)@),
    {
        match self.find_index(id) {
            None => 0,
            Some(i) => {
                let ghost pre = self@;
                self.rows.remove(i);
                proof {
                    let post = self@;
                    let k = i as int;
                    assert(post.rows =~= pre.rows.remove(k));
                    assert forall|a: int| 0 <= a < post.rows.len()
                        implies #[trigger] post.rows[a]
                            == pre.rows[if a < k { a } else { a + 1 }] by {
                        assert(pre.rows.remove(k)[a]
                            == pre.rows[if a < k { a } else { a + 1 }]);
                    }
                }
                1
            },
        }
    }
}

/// When no row carries `id`, no update of `id` can conflict.
proof fn lemma_absent_no_conflict(rows: Seq<EntryView>, id: u32, u: UpdateView)
    requires
        absent(rows, id),
    ensures
        !update_conflict(rows, id, u),
{
    if update_conflict(rows, id, u) {
        let (i, j) = choose|i: int, j: int|
            #![trigger row_with_id(rows, id, i), rows[j]]
            {
                &&& row_with_id(rows, id, i)
                &&& 0 <= j < rows.len()
                &&& j != i
                &&& u.customer_id == Some(rows[j].customer_id)
            };
        assert(rows[i].id != Some(id));
    }
}

/// An update that supplies no customer id cannot conflict.
proof fn lemma_no_cid_no_conflict(rows: Seq<EntryView>, id: u32, u: UpdateView)
    requires
        u.customer_id is None,
    ensures
        !update_conflict(rows, id, u),
{
}

/// When the supplied customer id matches no row but the target, the update
/// does not conflict.
proof fn lemma_unique_target_no_conflict(t: TableView, id: u32, idx: int, u: UpdateView)
    requires
        wf_view(t),
        row_with_id(t.rows, id, idx),
        forall|j: int| 0 <= j < t.rows.len() && j != idx
            ==> u.customer_id != Some((#[trigger] t.rows[j]).customer_id),
    ensures
        !update_conflict(t.rows, id, u),
{
    if update_conflict(t.rows, id, u) {
        let (i, j) = choose|i: int, j: int|
            #![trigger row_with_id(t.rows, id, i), t.rows[j]]
            {
                &&& row_with_id(t.rows, id, i)
                &&& 0 <= j < t.rows.len()
                &&& j != i
                &&& u.customer_id == Some(t.rows[j].customer_id)
            };
        if i != idx {
            assert(t.rows[i].id != t.rows[idx].id);
        }
        assert(i == idx);
        assert(u.customer_id != Some(t.rows[j].customer_id));
    }
}

/// Creating under a fresh customer id and then reading back the returned
/// identity yields exactly the entry the payload described.
pub proof fn law_create_then_get(
    pre: TableView,
    c: CreateView,
    id: u32,
    mid: TableView,
    r: Option<EntryView>,
)
    requires
        wf_view(pre),
        create_post(pre, c, Ok(id), mid),
        get_post(mid.rows, id, r),
    ensures
        r == Some(entry_of(c, id)),
{
    let n = pre.rows.len() as int;
    assert(mid.rows[n] == entry_of(c, id));
    assert(row_with_id(mid.rows, id, n));
    match r {
        Some(e) => {
            let i = choose|i: int| #[trigger] row_with_id(mid.rows, id, i) && mid.rows[i] == e;
            if i < n {
                assert(pre.rows[i].id is Some && pre.rows[i].id->0 < pre.next_id);
                assert(mid.rows[i] == pre.rows[i]);
                assert(false);
            }
            assert(i == n);
        },
        None => {
            assert(mid.rows[n].id != Some(id));
        },
    }
}

/// A second creation under an already-stored customer id is a conflict and
/// leaves the table exactly as it was: no partial row remains.
pub proof fn law_duplicate_create_conflicts(
    pre: TableView,
    c1: CreateView,
    id: u32,
    mid: TableView,
    c2: CreateView,
    r2: Result<u32, RepoError>,
    post: TableView,
)
    requires
        c2.customer_id == c1.customer_id,
        create_post(pre, c1, Ok(id), mid),
        create_post(mid, c2, r2, post),
    ensures
        r2 == Err::<u32, RepoError>(RepoError::Conflict),
        post == mid,
{
    let n = pre.rows.len() as int;
    assert(mid.rows[n] == entry_of(c1, id));
    assert(0 <= n < mid.rows.len() && mid.rows[n].customer_id == c2.customer_id);
    assert(has_customer(mid.rows, c2.customer_id));
}

/// An update that supplies no field is rejected outright and the table is
/// untouched: nothing executed against the store.
pub proof fn law_empty_update_rejected(
    pre: TableView,
    id: u32,
    u: UpdateView,
    r: Result<u64, RepoError>,
    post: TableView,
)
    requires
        u.is_empty(),
        update_post(pre, id, u, r, post),
    ensures
        r == Err::<u64, RepoError>(RepoError::InvalidRequest),
        post == pre,
{
}

/// An update of an identity no row carries affects zero rows and changes
/// nothing.
pub proof fn law_update_missing(
    pre: TableView,
    id: u32,
    u: UpdateView,
    r: Result<u64, RepoError>,
    post: TableView,
)
    requires
        !u.is_empty(),
        absent(pre.rows, id),
        update_post(pre, id, u, r, post),
    ensures
        r == Ok::<u64, RepoError>(0),
        post == pre,
{
    lemma_absent_no_conflict(pre.rows, id, u);
}

/// Deleting the same identity twice: the second delete affects zero rows and
/// changes nothing.
pub proof fn law_delete_idempotent(
    pre: TableView,
    id: u32,
    n1: u64,
    mid: TableView,
    n2: u64,
    post: TableView,
)
    requires
        wf_view(pre),
        delete_post(pre, id, n1, mid),
        delete_post(mid, id, n2, post),
    ensures
        n2 == 0,
        post == mid,
{
    if !absent(pre.rows, id) {
        let i = choose|i: int|
            #[trigger] row_with_id(pre.rows, id, i) && mid.rows == pre.rows.remove(i);
        assert forall|a: int| 0 <= a < mid.rows.len()
            implies (#[trigger] mid.rows[a]).id != Some(id) by {
            let b = if a < i { a } else { a + 1 };
            assert(pre.rows.remove(i)[a] == pre.rows[b]);
            if b != i {
                assert(pre.rows[b].id != pre.rows[i].id);
            }
        }
        assert(absent(mid.rows, id));
    }
}

} // verus!
