use vstd::prelude::*;

use crate::error::StoreError;
use crate::recipe::{Recipe, RecipeView, Submission, SubmissionView};

verus! {

/// The mathematical value of the `recipes` table: its rows in scan order and
/// the next value of its identity sequence.
pub struct TableView {
    pub rows: Seq<RecipeView>,
    pub next_id: int,
}

/// Keeps the rows whose id is not `id`.
pub open spec fn other_than(id: int) -> spec_fn(RecipeView) -> bool {
    |r: RecipeView| r.id != id
}

impl TableView {
    /// Ids are positive, strictly increasing in scan order, and below the next
    /// value of the sequence, so that no id is ever handed out twice.
    pub open spec fn wf(self) -> bool {
        &&& 1 <= self.next_id <= i32::MAX
        &&& forall|i: int| 0 <= i < self.rows.len() ==> 1 <= #[trigger] self.rows[i].id < self.next_id
        &&& forall|i: int, j: int|
            0 <= i < j < self.rows.len() ==> #[trigger] self.rows[i].id < #[trigger] self.rows[j].id
    }

    pub open spec fn contains_id(self, id: int) -> bool {
        exists|i: int| 0 <= i < self.rows.len() && #[trigger] self.rows[i].id == id
    }

    /// `INSERT ... RETURNING id`: the submission becomes a row under the next id.
    pub open spec fn inserted(self, s: SubmissionView) -> TableView {
        TableView { rows: self.rows.push(s.with_id(self.next_id)), next_id: self.next_id + 1 }
    }

    /// `UPDATE ... WHERE id = r.id`: every row with that id is replaced by `r`.
    pub open spec fn updated(self, r: RecipeView) -> TableView {
        TableView {
            rows: self.rows.map_values(|x: RecipeView| if x.id == r.id { r } else { x }),
            next_id: self.next_id,
        }
    }

    /// `DELETE ... WHERE id = id`: the rows with that id are removed.
    pub open spec fn deleted(self, id: int) -> TableView {
        TableView { rows: self.rows.filter(other_than(id)), next_id: self.next_id }
    }
}

/// An in-process `recipes` table with the semantics of the statements that
/// the service runs: select-all, insert-returning-id, update-by-id and
/// delete-by-id.
pub struct RecipeTable {
    rows: Vec<Recipe>,
    next_id: i32,
}

pub open spec fn rows_view(rows: Seq<Recipe>) -> Seq<RecipeView> {
    rows.map_values(|r: Recipe| r@)
}

impl View for RecipeTable {
    type V = TableView;

    closed spec fn view(&self) -> TableView {
        TableView { rows: rows_view(self.rows@), next_id: self.next_id as int }
    }
}

impl RecipeTable {
    pub open spec fn wf(&self) -> bool {
        self@.wf()
    }

    /// An empty table whose first insert receives id 1.
    pub fn new() -> (r: RecipeTable)
        ensures
            r.wf(),
            r@.rows == Seq::<RecipeView>::empty(),
            r@.next_id == 1,
    {
        let r = RecipeTable { rows: Vec::new(), next_id: 1 };
        assert(r@.rows =~= Seq::<RecipeView>::empty());
        r
    }

    /// `SELECT * FROM recipes`: every row, in scan order.
    pub fn list(&self) -> (r: Vec<Recipe>)
        ensures
            rows_view(r@) == self@.rows,
    {
        let mut out: Vec<Recipe> = Vec::with_capacity(self.rows.len());
        let mut i: usize = 0;
        while i < self.rows.len()
            invariant
                i <= self.rows@.len(),
                out@.len() == i,
                forall|j: int| 0 <= j < i ==> #[trigger] out@[j]@ == self.rows@[j]@,
            decreases self.rows@.len() - i,
        {
            out.push(self.rows[i].copy());
            i = i + 1;
        }
        assert(rows_view(out@) =~= self@.rows);
        out
    }

    /// Inserts `data` under the next id and returns the new row; fails, and
    /// changes nothing, once the identity sequence is exhausted.
    pub fn insert(&mut self, data: &Submission) -> (r: Result<Recipe, StoreError>)
        requires
            old(self).wf(),
        ensures
            final(self).wf(),
            match r {
                Ok(rec) => {
                    &&& old(self)@.next_id < i32::MAX
                    &&& rec@ == data@.with_id(old(self)@.next_id)
                    &&& final(self)@ == old(self)@.inserted(data@)
                },
                Err(e) => {
                    &&& old(self)@.next_id == i32::MAX
                    &&& e == StoreError::IdsExhausted
                    &&& final(self)@ == old(self)@
                },
            },
    {
        if self.next_id == i32::MAX {
            return Err(StoreError::IdsExhausted);
        }
        let id = self.next_id;
        let stored = Recipe::from_submission(id, data);
        let rec = stored.copy();
        self.rows.push(stored);
        self.next_id = id + 1;
        assert(self@.rows =~= old(self)@.rows.push(data@.with_id(id as int)));
        Ok(rec)
    }

    /// Replaces the row whose id is `data.id`; reports whether one matched.
    /// Without a match nothing changes.
    pub fn update(&mut self, data: &Recipe) -> (matched: bool)
        requires
            old(self).wf(),
        ensures
            final(self).wf(),
            final(self)@ == old(self)@.updated(data@),
            matched == old(self)@.contains_id(data.id as int),
    {
        let ghost target = old(self)@.updated(data@);
        let ghost rows = old(self)@.rows;
        let n = self.rows.len();
        let mut out: Vec<Recipe> = Vec::with_capacity(n);
        let mut matched = false;
        let mut i: usize = 0;
        while i < n
            invariant
                n == self.rows@.len(),
                i <= n,
                self@ == old(self)@,
                rows == self@.rows,
                target == old(self)@.updated(data@),
                out@.len() == i,
                forall|j: int| 0 <= j < i ==> #[trigger] out@[j]@ == target.rows[j],
                matched == exists|j: int| 0 <= j < i && #[trigger] rows[j].id == data.id,
            decreases n - i,
        {
            assert(rows[i as int] == self.rows@[i as int]@);
            assert(rows[i as int].id == self.rows@[i as int].id as int);
            if self.rows[i].id == data.id {
                out.push(data.copy());
                matched = true;
            } else {
                out.push(self.rows[i].copy());
            }
            i = i + 1;
        }
        self.rows = out;
        assert(self@.rows =~= target.rows);
        matched
    }

    /// Removes the row whose id is `id`; reports whether one matched.
    /// Without a match nothing changes.
    pub fn delete(&mut self, id: i32) -> (matched: bool)
        requires
            old(self).wf(),
        ensures
            final(self).wf(),
            final(self)@ == old(self)@.deleted(id as int),
            matched == old(self)@.contains_id(id as int),
    {
        let ghost rows = old(self)@.rows;
        let n = self.rows.len();
        let mut out: Vec<Recipe> = Vec::with_capacity(n);
        let mut matched = false;
        let mut i: usize = 0;
        while i < n
            invariant
                n == self.rows@.len(),
                i <= n,
                self@ == old(self)@,
                rows == self@.rows,
                self@.wf(),
                rows_view(out@) == rows.subrange(0, i as int).filter(other_than(id as int)),
                forall|j: int| 0 <= j < out@.len() ==> 1 <= #[trigger] out@[j].id < self.next_id,
                forall|a: int, b: int|
                    0 <= a < b < out@.len() ==> #[trigger] out@[a].id < #[trigger] out@[b].id,
                out@.len() > 0 ==> forall|j: int| i <= j < n ==> out@.last().id < #[trigger] rows[j].id,
                matched == exists|j: int| 0 <= j < i && #[trigger] rows[j].id == id,
            decreases n - i,
        {
            proof {
                let s = rows.subrange(0, i as int);
                assert(rows.subrange(0, i + 1) =~= s.push(rows[i as int]));
                s.lemma_filter_push(rows[i as int], other_than(id as int));
            }
            if self.rows[i].id == id {
                matched = true;
            } else {
                let ghost before = out@;
                out.push(self.rows[i].copy());
                assert(rows_view(out@) =~= rows_view(before).push(rows[i as int]));
            }
            i = i + 1;
        }
        self.rows = out;
        assert(rows.subrange(0, n as int) =~= rows);
        matched
    }
}

/// Filtering a sequence whose elements all pass the predicate leaves it as it is.
proof fn lemma_filter_keeps_all(s: Seq<RecipeView>, pred: spec_fn(RecipeView) -> bool)
    requires
        forall|i: int| 0 <= i < s.len() ==> pred(#[trigger] s[i]),
    ensures
        s.filter(pred) == s,
    decreases s.len(),
{
    reveal(Seq::filter);
    if s.len() > 0 {
        lemma_filter_keeps_all(s.drop_last(), pred);
        assert(s.drop_last().push(s.last()) =~= s);
    }
}

/// After an insert, the last row in scan order holds exactly the submitted
/// fields under a positive id that no row held before, and every id handed
/// out later is larger, so the new id is never seen again.
pub proof fn lemma_insert_then_list(t: TableView, s: SubmissionView)
    requires
        t.wf(),
        t.next_id < i32::MAX,
    ensures
        t.inserted(s).wf(),
        t.inserted(s).rows.len() == t.rows.len() + 1,
        t.inserted(s).rows.subrange(0, t.rows.len() as int) == t.rows,
        t.inserted(s).rows.last().content() == s,
        t.inserted(s).rows.last().id >= 1,
        !t.contains_id(t.inserted(s).rows.last().id),
        t.inserted(s).next_id > t.inserted(s).rows.last().id,
{
    let u = t.inserted(s);
    assert(u.rows.subrange(0, t.rows.len() as int) =~= t.rows);
}

/// Deleting an id leaves no row with it, and deleting the same id again
/// changes nothing.
pub proof fn lemma_delete_twice(t: TableView, id: int)
    requires
        t.wf(),
    ensures
        !t.deleted(id).contains_id(id),
        t.deleted(id).deleted(id) == t.deleted(id),
{
    broadcast use vstd::seq_lib::group_filter_ensures;

    let rows = t.deleted(id).rows;
    lemma_filter_keeps_all(rows, other_than(id));
}

/// Updating an id that no row holds changes nothing and creates no row.
pub proof fn lemma_update_missing(t: TableView, r: RecipeView)
    requires
        !t.contains_id(r.id),
    ensures
        t.updated(r) == t,
{
    assert(t.updated(r).rows =~= t.rows);
}

} // verus!
