//! The three phases of a life and the transitions between them.
//!
//! A life is Gestating, then Alive, then Dead; it may also die without
//! having been born. Dead is the end: nothing leads out of it, and no
//! function here takes a [`Dead`] to anything else.
//!
//! A transition changes only the value in hand. [`Phase::save`] writes it
//! to the table and hands back the phase of the row that the table then
//! holds.

use vstd::prelude::*;
use chrono::NaiveDateTime;
use crate::clock::now;
use crate::error::Error;
use crate::models::{Life, LifeView};
use crate::schema::{Lives, LivesView};

verus! {

/// The tag of a row in the phase Gestating.
pub const STATE_NAME_GESTATING: &'static str = "Gestating";

/// The tag of a row in the phase Alive.
pub const STATE_NAME_ALIVE: &'static str = "Alive";

/// The tag of a row in the phase Dead.
pub const STATE_NAME_DEAD: &'static str = "Dead";

/// No two phases share a tag.
pub proof fn lemma_state_names_differ()
    ensures
        STATE_NAME_GESTATING@ != STATE_NAME_ALIVE@,
        STATE_NAME_GESTATING@ != STATE_NAME_DEAD@,
        STATE_NAME_ALIVE@ != STATE_NAME_DEAD@,
{
    reveal_strlit("Gestating");
    reveal_strlit("Alive");
    reveal_strlit("Dead");
    assert(STATE_NAME_GESTATING@.len() == 9);
    assert(STATE_NAME_ALIVE@.len() == 5);
    assert(STATE_NAME_DEAD@.len() == 4);
}

/// Whether `tag` is the tag of one of the three phases.
pub open spec fn is_state_name(tag: Seq<char>) -> bool {
    ||| tag == STATE_NAME_GESTATING@
    ||| tag == STATE_NAME_ALIVE@
    ||| tag == STATE_NAME_DEAD@
}

/// A life in one of its three phases.
#[derive(Debug)]
pub enum Phase {
    Gestating(Gestating),
    Alive(Alive),
    Dead(Dead),
}

/// A life that has begun and is not born yet.
#[derive(Debug)]
pub struct Gestating {
    pub state: Life,
}

/// A life that was born and has not died.
#[derive(Debug)]
pub struct Alive {
    pub state: Life,
}

/// A life that has ended.
#[derive(Debug)]
pub struct Dead {
    pub state: Life,
}

/// The model of a [`Phase`]: the phase, and the model of the row in it.
pub enum PhaseView {
    Gestating(LifeView),
    Alive(LifeView),
    Dead(LifeView),
}

impl LifeView {
    /// The row of a Gestating life: tagged so, neither born nor dead.
    pub open spec fn is_gestating(self) -> bool {
        &&& self.state_type == STATE_NAME_GESTATING@
        &&& self.born_at is None
        &&& self.died_at is None
    }

    /// The row of an Alive life: tagged so, born and not dead.
    pub open spec fn is_alive(self) -> bool {
        &&& self.state_type == STATE_NAME_ALIVE@
        &&& self.born_at is Some
        &&& self.died_at is None
    }

    /// The row of a Dead life: tagged so, and dead. It was born if it
    /// passed through Alive.
    pub open spec fn is_dead(self) -> bool {
        &&& self.state_type == STATE_NAME_DEAD@
        &&& self.died_at is Some
    }

    /// The phase that this row is in, or `CorruptState` when it is the row
    /// of no phase.
    pub open spec fn as_phase(self) -> Result<PhaseView, Error> {
        if self.is_gestating() {
            Ok(PhaseView::Gestating(self))
        } else if self.is_alive() {
            Ok(PhaseView::Alive(self))
        } else if self.is_dead() {
            Ok(PhaseView::Dead(self))
        } else {
            Err(Error::CorruptState)
        }
    }

    /// This row after a birth at `now`.
    pub open spec fn born(self, now: NaiveDateTime) -> LifeView {
        LifeView {
            state_type: STATE_NAME_ALIVE@,
            updated_at: Some(now),
            born_at: Some(now),
            ..self
        }
    }

    /// This row after a death at `now`.
    pub open spec fn died(self, now: NaiveDateTime) -> LifeView {
        LifeView {
            state_type: STATE_NAME_DEAD@,
            updated_at: Some(now),
            died_at: Some(now),
            ..self
        }
    }
}

impl PhaseView {
    /// The row in this phase.
    pub open spec fn life(self) -> LifeView {
        match self {
            PhaseView::Gestating(row) => row,
            PhaseView::Alive(row) => row,
            PhaseView::Dead(row) => row,
        }
    }

    /// The row is one of the phase that holds it.
    pub open spec fn wf(self) -> bool {
        match self {
            PhaseView::Gestating(row) => row.is_gestating(),
            PhaseView::Alive(row) => row.is_alive(),
            PhaseView::Dead(row) => row.is_dead(),
        }
    }
}

impl View for Gestating {
    type V = LifeView;

    open spec fn view(&self) -> LifeView {
        self.state@
    }
}

impl View for Alive {
    type V = LifeView;

    open spec fn view(&self) -> LifeView {
        self.state@
    }
}

impl View for Dead {
    type V = LifeView;

    open spec fn view(&self) -> LifeView {
        self.state@
    }
}

impl View for Phase {
    type V = PhaseView;

    open spec fn view(&self) -> PhaseView {
        match self {
            Phase::Gestating(v) => PhaseView::Gestating(v@),
            Phase::Alive(v) => PhaseView::Alive(v@),
            Phase::Dead(v) => PhaseView::Dead(v@),
        }
    }
}

impl Gestating {
    /// The row is that of a Gestating life.
    pub open spec fn wf(&self) -> bool {
        self@.is_gestating()
    }

    /// The birth of this life at `now`: the tag becomes Alive, `born_at` and
    /// `updated_at` become `now`, and the rest stays. Nothing is written.
    pub fn to_alive(self, now: NaiveDateTime) -> (alive: Alive)
        ensures
            alive@ == self@.born(now),
            self.wf() ==> alive.wf(),
    {
        Alive {
            state: Life {
                state_type: STATE_NAME_ALIVE.to_owned(),
                updated_at: Some(now),
                born_at: Some(now),
                ..self.state
            },
        }
    }

    /// The death of this life at `now`, before it was born: the tag becomes
    /// Dead, `died_at` and `updated_at` become `now`, and the rest stays, so
    /// that `born_at` stays absent. Nothing is written.
    pub fn to_dead(self, now: NaiveDateTime) -> (dead: Dead)
        ensures
            dead@ == self@.died(now),
            self.wf() ==> dead.wf() && dead@.born_at is None,
    {
        Dead {
            state: Life {
                state_type: STATE_NAME_DEAD.to_owned(),
                updated_at: Some(now),
                died_at: Some(now),
                ..self.state
            },
        }
    }
}

impl Alive {
    /// The row is that of an Alive life.
    pub open spec fn wf(&self) -> bool {
        self@.is_alive()
    }

    /// The death of this life at `now`: the tag becomes Dead, `died_at` and
    /// `updated_at` become `now`, and the rest stays, `born_at` with it.
    /// Nothing is written.
    pub fn to_dead(self, now: NaiveDateTime) -> (dead: Dead)
        ensures
            dead@ == self@.died(now),
            self.wf() ==> dead.wf() && dead@.born_at is Some,
    {
        Dead {
            state: Life {
                state_type: STATE_NAME_DEAD.to_owned(),
                updated_at: Some(now),
                died_at: Some(now),
                ..self.state
            },
        }
    }
}

impl Dead {
    /// The row is that of a Dead life.
    pub open spec fn wf(&self) -> bool {
        self@.is_dead()
    }
}

/// Birth at the time that the clock shows.
impl From<Gestating> for Alive {
    fn from(val: Gestating) -> (alive: Alive)
        ensures
            exists|now: NaiveDateTime| alive@ == #[trigger] val@.born(now),
            val.wf() ==> alive.wf(),
    {
        val.to_alive(now())
    }
}

/// Death at the time that the clock shows.
impl From<Alive> for Dead {
    fn from(val: Alive) -> (dead: Dead)
        ensures
            exists|now: NaiveDateTime| dead@ == #[trigger] val@.died(now),
            val.wf() ==> dead.wf() && dead@.born_at is Some,
    {
        val.to_dead(now())
    }
}

/// Death before birth, at the time that the clock shows.
impl From<Gestating> for Dead {
    fn from(val: Gestating) -> (dead: Dead)
        ensures
            exists|now: NaiveDateTime| dead@ == #[trigger] val@.died(now),
            val.wf() ==> dead.wf() && dead@.born_at is None,
    {
        val.to_dead(now())
    }
}

/// These conversions read the clock, so no spec function gives their
/// result: what they return is stated on `from` itself.
impl vstd::std_specs::convert::FromSpecImpl<Gestating> for Alive {
    open spec fn obeys_from_spec() -> bool {
        false
    }

    open spec fn from_spec(v: Gestating) -> Alive {
        arbitrary()
    }
}

impl vstd::std_specs::convert::FromSpecImpl<Alive> for Dead {
    open spec fn obeys_from_spec() -> bool {
        false
    }

    open spec fn from_spec(v: Alive) -> Dead {
        arbitrary()
    }
}

impl vstd::std_specs::convert::FromSpecImpl<Gestating> for Dead {
    open spec fn obeys_from_spec() -> bool {
        false
    }

    open spec fn from_spec(v: Gestating) -> Dead {
        arbitrary()
    }
}

impl Phase {
    /// The row is one of the phase that holds it.
    pub open spec fn wf(&self) -> bool {
        self@.wf()
    }

    /// The model of what an operation hands back.
    pub open spec fn result_view(r: Result<Phase, Error>) -> Result<PhaseView, Error> {
        match r {
            Ok(phase) => Ok(phase@),
            Err(e) => Err(e),
        }
    }

    /// The table after a create at `now`, and what the create hands back:
    /// the new row as a Gestating life, or the error of [`Life::created`].
    pub open spec fn created(db: LivesView, now: NaiveDateTime) -> (
        LivesView,
        Result<PhaseView, Error>,
    ) {
        (
            Life::created(db, now).0,
            match Life::created(db, now).1 {
                Ok(row) => Ok(PhaseView::Gestating(row)),
                Err(e) => Err(e),
            },
        )
    }

    /// What a find of `id` hands back: the phase of the row under `id`, or
    /// `NotFound`, or `CorruptState` when the row is that of no phase.
    pub open spec fn found(db: LivesView, id: int) -> Result<PhaseView, Error> {
        match Life::found(db, id) {
            Ok(row) => row.as_phase(),
            Err(e) => Err(e),
        }
    }

    /// The table after a save of `phase` at `now`, and what the save hands
    /// back: the phase of the row as the table then holds it, or the error
    /// of [`Life::saved`], or `CorruptState` when the row that was written
    /// is that of no phase.
    pub open spec fn saved(db: LivesView, phase: PhaseView, now: NaiveDateTime) -> (
        LivesView,
        Result<PhaseView, Error>,
    ) {
        (
            Life::saved(db, phase.life(), now).0,
            match Life::saved(db, phase.life(), now).1 {
                Ok(row) => row.as_phase(),
                Err(e) => Err(e),
            },
        )
    }

    /// Reads what a create handed back: the new row as a Gestating life.
    /// A new row that is not the row of a Gestating life is `CorruptState`.
    pub fn from_created(created: Result<Life, Error>) -> (r: Result<Phase, Error>)
        ensures
            Phase::result_view(r) == match Life::result_view(created) {
                Ok(row) => if row.is_gestating() {
                    Ok::<PhaseView, Error>(PhaseView::Gestating(row))
                } else {
                    Err(Error::CorruptState)
                },
                Err(e) => Err(e),
            },
            r matches Ok(phase) ==> phase is Gestating && phase.wf(),
    {
        match created {
            Ok(life) => match life.as_phase() {
                Ok(Phase::Gestating(gestating)) => Ok(Phase::Gestating(gestating)),
                Ok(_) => Err(Error::CorruptState),
                Err(e) => Err(e),
            },
            Err(e) => Err(e),
        }
    }

    /// Reads what a find or a save handed back: the row as the phase that
    /// it is in. A row that is the row of no phase is `CorruptState`.
    pub fn from_stored(stored: Result<Life, Error>) -> (r: Result<Phase, Error>)
        ensures
            Phase::result_view(r) == match Life::result_view(stored) {
                Ok(row) => row.as_phase(),
                Err(e) => Err(e),
            },
            r matches Ok(phase) ==> phase.wf(),
    {
        match stored {
            Ok(life) => life.as_phase(),
            Err(e) => Err(e),
        }
    }

    /// Inserts the row of a life that begins at the time that the clock
    /// shows, and hands it back as a Gestating life.
    pub fn create(db: &mut Lives) -> (r: Result<Phase, Error>)
        ensures
            final(db)@.wf(),
            exists|now: NaiveDateTime|
                (final(db)@, Phase::result_view(r)) == #[trigger] Phase::created(old(db)@, now),
            r matches Ok(phase) ==> phase is Gestating && phase.wf(),
    {
        Phase::create_at(db, now())
    }

    /// Inserts the row of a life that begins at `now`, and hands it back as
    /// a Gestating life.
    pub fn create_at(db: &mut Lives, now: NaiveDateTime) -> (r: Result<Phase, Error>)
        ensures
            final(db)@.wf(),
            (final(db)@, Phase::result_view(r)) == Phase::created(old(db)@, now),
            r matches Ok(phase) ==> phase is Gestating && phase.wf(),
    {
        Phase::from_created(Life::create_at(db, now))
    }

    /// The life under `id`, in the phase that its row is in.
    pub fn find_by_life(db: &Lives, id: i32) -> (r: Result<Phase, Error>)
        ensures
            db@.wf(),
            Phase::result_view(r) == Phase::found(db@, id as int),
            !db@.rows.contains_key(id as int) ==> r == Err::<Phase, Error>(Error::NotFound),
            db@.rows.contains_key(id as int) && !is_state_name(db@.rows[id as int].state_type)
                ==> r == Err::<Phase, Error>(Error::CorruptState),
            r matches Ok(phase) ==> phase.wf() && phase@.life() == db@.rows[id as int],
    {
        Phase::from_stored(Life::find(db, id))
    }

    /// Writes the row in this phase to the table, last updated at the time
    /// that the clock shows, and hands back the phase of the row that the
    /// table then holds. The row is written before it is looked at: on
    /// `CorruptState` the table has changed.
    pub fn save(&self, db: &mut Lives) -> (r: Result<Phase, Error>)
        ensures
            final(db)@.wf(),
            exists|now: NaiveDateTime|
                (final(db)@, Phase::result_view(r)) == #[trigger] Phase::saved(
                    old(db)@,
                    self@,
                    now,
                ),
            r matches Ok(phase) ==> phase.wf() && Phase::found(final(db)@, self@.life().id) == Ok::<
                PhaseView,
                Error,
            >(phase@),
    {
        self.save_at(db, now())
    }

    /// Writes the row in this phase to the table, last updated at `now`,
    /// and hands back the phase of the row that the table then holds. The
    /// row is written before it is looked at: on `CorruptState` the table
    /// has changed.
    pub fn save_at(&self, db: &mut Lives, now: NaiveDateTime) -> (r: Result<Phase, Error>)
        ensures
            final(db)@.wf(),
            (final(db)@, Phase::result_view(r)) == Phase::saved(old(db)@, self@, now),
            r matches Ok(phase) ==> phase.wf() && Phase::found(final(db)@, self@.life().id) == Ok::<
                PhaseView,
                Error,
            >(phase@),
    {
        Phase::from_stored(self.state().save_at(db, now))
    }

    /// The row in this phase.
    pub fn state(&self) -> (row: &Life)
        ensures
            row@ == self@.life(),
    {
        match self {
            Phase::Gestating(v) => &v.state,
            Phase::Alive(v) => &v.state,
            Phase::Dead(v) => &v.state,
        }
    }
}

} // verus!
