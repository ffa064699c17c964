//! The flat rows of the table `lives`, and the three operations that keep
//! them there: create, find and save.
//!
//! None of the three tries again: each failure of the store comes back
//! as an [`Error`], and the caller decides what to do about it.
//!
//! The three work on the table in memory. A store elsewhere is asked by
//! whoever holds the connection: [`NewLife::gestating`] and
//! [`Life::touched`] give the row to send, and [`Life::from_insert`],
//! [`Life::from_select`] and [`Life::from_update`] read what came back.

use vstd::prelude::*;
use chrono::NaiveDateTime;
use crate::clock::now;
use crate::error::Error;
use crate::lifecycle::{
    lemma_state_names_differ, Alive, Dead, Gestating, Phase, STATE_NAME_ALIVE, STATE_NAME_DEAD,
    STATE_NAME_GESTATING,
};
use crate::schema::{Answer, AnswerView, Lives, LivesView};

verus! {

/// A row that has no id yet: what is handed to the table on insert.
#[derive(Debug, PartialEq, Eq)]
pub struct NewLife {
    pub state_type: String,
    pub created_at: NaiveDateTime,
    pub updated_at: Option<NaiveDateTime>,
    pub born_at: Option<NaiveDateTime>,
    pub died_at: Option<NaiveDateTime>,
}

/// A row of the table.
#[derive(Debug, PartialEq, Eq)]
pub struct Life {
    pub id: i32,
    pub state_type: String,
    pub created_at: NaiveDateTime,
    pub updated_at: Option<NaiveDateTime>,
    pub born_at: Option<NaiveDateTime>,
    pub died_at: Option<NaiveDateTime>,
}

/// The model of a [`NewLife`].
pub struct NewLifeView {
    pub state_type: Seq<char>,
    pub created_at: NaiveDateTime,
    pub updated_at: Option<NaiveDateTime>,
    pub born_at: Option<NaiveDateTime>,
    pub died_at: Option<NaiveDateTime>,
}

/// The model of a [`Life`].
pub struct LifeView {
    pub id: int,
    pub state_type: Seq<char>,
    pub created_at: NaiveDateTime,
    pub updated_at: Option<NaiveDateTime>,
    pub born_at: Option<NaiveDateTime>,
    pub died_at: Option<NaiveDateTime>,
}

impl View for NewLife {
    type V = NewLifeView;

    open spec fn view(&self) -> NewLifeView {
        NewLifeView {
            state_type: self.state_type@,
            created_at: self.created_at,
            updated_at: self.updated_at,
            born_at: self.born_at,
            died_at: self.died_at,
        }
    }
}

impl View for Life {
    type V = LifeView;

    open spec fn view(&self) -> LifeView {
        LifeView {
            id: self.id as int,
            state_type: self.state_type@,
            created_at: self.created_at,
            updated_at: self.updated_at,
            born_at: self.born_at,
            died_at: self.died_at,
        }
    }
}

impl NewLifeView {
    /// The row of a life that begins at `now`: tagged Gestating, created and
    /// last updated at `now`, neither born nor dead.
    pub open spec fn gestating(now: NaiveDateTime) -> NewLifeView {
        NewLifeView {
            state_type: STATE_NAME_GESTATING@,
            created_at: now,
            updated_at: Some(now),
            born_at: None,
            died_at: None,
        }
    }

    /// This row under the id `id`.
    pub open spec fn with_id(self, id: int) -> LifeView {
        LifeView {
            id,
            state_type: self.state_type,
            created_at: self.created_at,
            updated_at: self.updated_at,
            born_at: self.born_at,
            died_at: self.died_at,
        }
    }
}

impl LifeView {
    /// This row, last updated at `now`.
    pub open spec fn touched(self, now: NaiveDateTime) -> LifeView {
        LifeView { updated_at: Some(now), ..self }
    }
}

impl NewLife {
    /// The row of a life that begins at `now`.
    pub fn gestating(now: NaiveDateTime) -> (row: NewLife)
        ensures
            row@ == NewLifeView::gestating(now),
    {
        NewLife {
            state_type: STATE_NAME_GESTATING.to_owned(),
            created_at: now,
            updated_at: Some(now),
            born_at: None,
            died_at: None,
        }
    }

    /// This row under the id `id`.
    pub fn with_id(self, id: i32) -> (row: Life)
        ensures
            row@ == self@.with_id(id as int),
    {
        Life {
            id,
            state_type: self.state_type,
            created_at: self.created_at,
            updated_at: self.updated_at,
            born_at: self.born_at,
            died_at: self.died_at,
        }
    }
}

impl Clone for Life {
    fn clone(&self) -> (row: Life)
        ensures
            row == *self,
    {
        Life {
            id: self.id,
            state_type: self.state_type.clone(),
            created_at: self.created_at,
            updated_at: self.updated_at,
            born_at: self.born_at,
            died_at: self.died_at,
        }
    }
}

impl Life {
    /// The model of what an operation hands back.
    pub open spec fn result_view(r: Result<Life, Error>) -> Result<LifeView, Error> {
        match r {
            Ok(row) => Ok(row@),
            Err(e) => Err(e),
        }
    }

    /// The table after a create at `now`, and what the create hands back:
    /// a Gestating row under the next id, or `Storage` and no change when
    /// no id is left.
    pub open spec fn created(db: LivesView, now: NaiveDateTime) -> (
        LivesView,
        Result<LifeView, Error>,
    ) {
        if db.can_insert() {
            (
                db.inserted(NewLifeView::gestating(now)),
                Ok(NewLifeView::gestating(now).with_id(db.next_id)),
            )
        } else {
            (db, Err(Error::Storage))
        }
    }

    /// What a find of `id` hands back: the row under `id`, or `NotFound`.
    pub open spec fn found(db: LivesView, id: int) -> Result<LifeView, Error> {
        if db.rows.contains_key(id) {
            Ok(db.rows[id])
        } else {
            Err(Error::NotFound)
        }
    }

    /// The table after a save of `row` at `now`, and what the save hands
    /// back: the row as the table then holds it, last updated at `now`
    /// whatever `row` said, or `Storage` and no change when the table has
    /// no row with that id.
    pub open spec fn saved(db: LivesView, row: LifeView, now: NaiveDateTime) -> (
        LivesView,
        Result<LifeView, Error>,
    ) {
        if db.rows.contains_key(row.id) {
            (db.updated(row.touched(now)), Ok(db.stored(row.touched(now))))
        } else {
            (db, Err(Error::Storage))
        }
    }

    /// This row, last updated at `now`.
    pub fn touched(self, now: NaiveDateTime) -> (row: Life)
        ensures
            row@ == self@.touched(now),
    {
        Life { updated_at: Some(now), ..self }
    }

    /// Reads the answer to an insert: the new row, or `Storage` whatever
    /// went wrong.
    pub fn from_insert(answer: Answer) -> (r: Result<Life, Error>)
        ensures
            Life::result_view(r) == match answer@ {
                AnswerView::Row(row) => Ok::<LifeView, Error>(row),
                AnswerView::NoRow => Err(Error::Storage),
                AnswerView::Failed => Err(Error::Storage),
            },
    {
        match answer {
            Answer::Row(row) => Ok(row),
            Answer::NoRow => Err(Error::Storage),
            Answer::Failed => Err(Error::Storage),
        }
    }

    /// Reads the answer to a select: the row, or `NotFound` when there is
    /// none, or `Storage` when the store failed.
    pub fn from_select(answer: Answer) -> (r: Result<Life, Error>)
        ensures
            Life::result_view(r) == match answer@ {
                AnswerView::Row(row) => Ok::<LifeView, Error>(row),
                AnswerView::NoRow => Err(Error::NotFound),
                AnswerView::Failed => Err(Error::Storage),
            },
    {
        match answer {
            Answer::Row(row) => Ok(row),
            Answer::NoRow => Err(Error::NotFound),
            Answer::Failed => Err(Error::Storage),
        }
    }

    /// Reads the answer to an update: the row as it was stored, or
    /// `Storage` when there was no row to write over or the store failed.
    pub fn from_update(answer: Answer) -> (r: Result<Life, Error>)
        ensures
            Life::result_view(r) == match answer@ {
                AnswerView::Row(row) => Ok::<LifeView, Error>(row),
                AnswerView::NoRow => Err(Error::Storage),
                AnswerView::Failed => Err(Error::Storage),
            },
    {
        match answer {
            Answer::Row(row) => Ok(row),
            Answer::NoRow => Err(Error::Storage),
            Answer::Failed => Err(Error::Storage),
        }
    }

    /// Inserts the row of a life that begins at the time that the clock
    /// shows, and hands it back with its id.
    pub fn create(db: &mut Lives) -> (r: Result<Life, Error>)
        ensures
            final(db)@.wf(),
            exists|now: NaiveDateTime|
                (final(db)@, Life::result_view(r)) == #[trigger] Life::created(old(db)@, now),
    {
        Life::create_at(db, now())
    }

    /// Inserts the row of a life that begins at `now`, and hands it back
    /// with its id.
    pub fn create_at(db: &mut Lives, now: NaiveDateTime) -> (r: Result<Life, Error>)
        ensures
            final(db)@.wf(),
            (final(db)@, Life::result_view(r)) == Life::created(old(db)@, now),
    {
        Life::from_insert(db.insert(NewLife::gestating(now)))
    }

    /// The row under `id`.
    pub fn find(db: &Lives, id: i32) -> (r: Result<Life, Error>)
        ensures
            db@.wf(),
            Life::result_view(r) == Life::found(db@, id as int),
    {
        Life::from_select(db.select(id))
    }

    /// Writes this row over the one with the same id, last updated at the
    /// time that the clock shows, and hands back the row as the table then
    /// holds it.
    pub fn save(&self, db: &mut Lives) -> (r: Result<Life, Error>)
        ensures
            final(db)@.wf(),
            exists|now: NaiveDateTime|
                (final(db)@, Life::result_view(r)) == #[trigger] Life::saved(
                    old(db)@,
                    self@,
                    now,
                ),
    {
        self.save_at(db, now())
    }

    /// Writes this row over the one with the same id, last updated at
    /// `now`, and hands back the row as the table then holds it.
    pub fn save_at(&self, db: &mut Lives, now: NaiveDateTime) -> (r: Result<Life, Error>)
        ensures
            final(db)@.wf(),
            (final(db)@, Life::result_view(r)) == Life::saved(old(db)@, self@, now),
    {
        Life::from_update(db.update(self.clone().touched(now)))
    }

    /// Whether this row carries the tag `name`.
    fn tagged(&self, name: &str) -> (b: bool)
        ensures
            b == (self@.state_type == name@),
    {
        self.state_type == name.to_owned()
    }

    /// The phase that this row is in. A row whose tag names no phase, or
    /// whose timestamps do not fit the phase that its tag names, is
    /// `CorruptState`: it is never taken for the nearest phase.
    pub fn as_phase(&self) -> (r: Result<Phase, Error>)
        ensures
            Phase::result_view(r) == self@.as_phase(),
    {
        proof {
            lemma_state_names_differ();
        }
        let born = self.born_at.is_some();
        let died = self.died_at.is_some();
        if self.tagged(STATE_NAME_GESTATING) {
            if !born && !died {
                Ok(Phase::Gestating(Gestating { state: self.clone() }))
            } else {
                Err(Error::CorruptState)
            }
        } else if self.tagged(STATE_NAME_ALIVE) {
            if born && !died {
                Ok(Phase::Alive(Alive { state: self.clone() }))
            } else {
                Err(Error::CorruptState)
            }
        } else if self.tagged(STATE_NAME_DEAD) {
            if died {
                Ok(Phase::Dead(Dead { state: self.clone() }))
            } else {
                Err(Error::CorruptState)
            }
        } else {
            Err(Error::CorruptState)
        }
    }
}

} // verus!
