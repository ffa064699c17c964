//! The table `lives`, held in memory.
//!
//! | column       | type      | null |
//! |--------------|-----------|------|
//! | `id`         | integer   | no   |
//! | `state_type` | text      | no   |
//! | `created_at` | timestamp | no   |
//! | `updated_at` | timestamp | yes  |
//! | `born_at`    | timestamp | yes  |
//! | `died_at`    | timestamp | yes  |
//!
//! `id` is the primary key. The table gives it out on insert, counting up
//! from 1, and never changes it. The table knows nothing of phases: it
//! keeps whatever tag and timestamps it is handed.
//!
//! A statement is answered with one [`Answer`]. Any other store of such
//! rows can answer in the same way, and [`Life`] reads the answers alike.

use vstd::prelude::*;
use crate::models::{Life, LifeView, NewLife, NewLifeView};

verus! {

/// What a store of lives answers to one statement.
#[derive(Debug, PartialEq, Eq)]
pub enum Answer {
    /// The statement went through; this is the row as the store holds it.
    Row(Life),
    /// The store holds no row with the id that the statement named.
    NoRow,
    /// The store could not be reached, or would not take the statement.
    Failed,
}

/// The model of an [`Answer`].
pub enum AnswerView {
    Row(LifeView),
    NoRow,
    Failed,
}

impl View for Answer {
    type V = AnswerView;

    open spec fn view(&self) -> AnswerView {
        match self {
            Answer::Row(row) => AnswerView::Row(row@),
            Answer::NoRow => AnswerView::NoRow,
            Answer::Failed => AnswerView::Failed,
        }
    }
}

/// The model of the table: its rows by id, and the id that the next insert
/// gives out.
pub struct LivesView {
    pub rows: Map<int, LifeView>,
    pub next_id: int,
}

impl LivesView {
    /// The table before any insert.
    pub open spec fn empty() -> LivesView {
        LivesView { rows: Map::empty(), next_id: 1 }
    }

    /// Every row stands under its own id, and every id in use was given
    /// out before.
    pub open spec fn wf(self) -> bool {
        &&& 1 <= self.next_id <= i32::MAX + 1
        &&& forall|id: int| #[trigger]
            self.rows.contains_key(id) ==> 1 <= id < self.next_id && self.rows[id].id == id
    }

    /// Whether an id is left to give out.
    pub open spec fn can_insert(self) -> bool {
        self.next_id <= i32::MAX
    }

    /// The table after `row` went in under the next id.
    pub open spec fn inserted(self, row: NewLifeView) -> LivesView {
        LivesView {
            rows: self.rows.insert(self.next_id, row.with_id(self.next_id)),
            next_id: self.next_id + 1,
        }
    }

    /// The table after an insert of `row`, and the answer: the row under
    /// the next id, or `Failed` and no change when no id is left.
    pub open spec fn insert(self, row: NewLifeView) -> (LivesView, AnswerView) {
        if self.can_insert() {
            (self.inserted(row), AnswerView::Row(row.with_id(self.next_id)))
        } else {
            (self, AnswerView::Failed)
        }
    }

    /// The answer to a select of `id`: the row under `id`, or `NoRow`.
    pub open spec fn select(self, id: int) -> AnswerView {
        if self.rows.contains_key(id) {
            AnswerView::Row(self.rows[id])
        } else {
            AnswerView::NoRow
        }
    }

    /// What an update with `row` leaves under `row.id`: the tag and the
    /// three nullable timestamps of `row`, and the time of creation that
    /// the table already held.
    pub open spec fn stored(self, row: LifeView) -> LifeView {
        LifeView { created_at: self.rows[row.id].created_at, ..row }
    }

    /// The table after an update with `row` went through.
    pub open spec fn updated(self, row: LifeView) -> LivesView {
        LivesView { rows: self.rows.insert(row.id, self.stored(row)), ..self }
    }

    /// The table after an update with `row`, and the answer: the row as it
    /// then stands under `row.id`, or `NoRow` and no change when the table
    /// has no row with that id.
    pub open spec fn update(self, row: LifeView) -> (LivesView, AnswerView) {
        if self.rows.contains_key(row.id) {
            (self.updated(row), AnswerView::Row(self.stored(row)))
        } else {
            (self, AnswerView::NoRow)
        }
    }
}

/// The table. The row with id `k` is the `k`-th that was inserted.
pub struct Lives {
    rows: Vec<Life>,
}

impl View for Lives {
    type V = LivesView;

    closed spec fn view(&self) -> LivesView {
        LivesView {
            rows: Map::new(
                |id: int| 1 <= id <= self.rows@.len(),
                |id: int| self.rows@[id - 1]@,
            ),
            next_id: self.rows@.len() as int + 1,
        }
    }
}

impl Lives {
    #[verifier::type_invariant]
    spec fn inv(&self) -> bool {
        &&& self.rows@.len() <= i32::MAX
        &&& forall|i: int| 0 <= i < self.rows@.len() ==> (#[trigger] self.rows@[i]).id == i + 1
    }

    /// An empty table.
    pub fn new() -> (db: Lives)
        ensures
            db@ == LivesView::empty(),
            db@.wf(),
    {
        let db = Lives { rows: Vec::new() };
        assert(db@.rows =~= Map::<int, LifeView>::empty());
        db
    }

    /// Inserts `row` under the next id and answers with the row as it
    /// stands in the table; `Failed`, and no change, when no id is left.
    pub fn insert(&mut self, row: NewLife) -> (answer: Answer)
        ensures
            final(self)@.wf(),
            (final(self)@, answer@) == old(self)@.insert(row@),
    {
        proof {
            use_type_invariant(&*self);
        }
        let n: usize = self.rows.len();
        if n >= 2147483647 {
            return Answer::Failed;
        }
        let id: i32 = (n + 1) as i32;
        let stored = row.with_id(id);
        let back = stored.clone();
        let mut rows: Vec<Life> = Vec::new();
        std::mem::swap(&mut self.rows, &mut rows);
        rows.push(stored);
        self.rows = rows;
        assert(self@.rows =~= old(self)@.inserted(row@).rows);
        Answer::Row(back)
    }

    /// Answers with the row under `id`, or `NoRow` when there is none.
    pub fn select(&self, id: i32) -> (answer: Answer)
        ensures
            self@.wf(),
            answer@ == self@.select(id as int),
    {
        proof {
            use_type_invariant(self);
        }
        if id >= 1 && id as usize <= self.rows.len() {
            Answer::Row(self.rows[(id - 1) as usize].clone())
        } else {
            Answer::NoRow
        }
    }

    /// Writes the tag and the three nullable timestamps of `row` over the
    /// row with the same id, and answers with the row as it stands in the
    /// table afterwards; `NoRow`, and no change, when the table holds no
    /// row with that id.
    pub fn update(&mut self, row: Life) -> (answer: Answer)
        ensures
            final(self)@.wf(),
            (final(self)@, answer@) == old(self)@.update(row@),
    {
        proof {
            use_type_invariant(&*self);
        }
        let id: i32 = row.id;
        if id >= 1 && id as usize <= self.rows.len() {
            let at: usize = (id - 1) as usize;
            let stored = Life { created_at: self.rows[at].created_at, ..row };
            let back = stored.clone();
            let mut rows: Vec<Life> = Vec::new();
            std::mem::swap(&mut self.rows, &mut rows);
            rows.set(at, stored);
            self.rows = rows;
            assert(self@.rows =~= old(self)@.updated(row@).rows);
            Answer::Row(back)
        } else {
            Answer::NoRow
        }
    }
}

} // verus!
