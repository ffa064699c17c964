//! What is written is what is read: a phase that went to the table comes
//! back from it as the same phase.

use vstd::prelude::*;
use chrono::NaiveDateTime;
use crate::error::Error;
use crate::lifecycle::{Phase, PhaseView};
use crate::models::LifeView;
use crate::schema::LivesView;

verus! {

impl PhaseView {
    /// This phase around another row.
    pub open spec fn with_life(self, row: LifeView) -> PhaseView {
        match self {
            PhaseView::Gestating(_) => PhaseView::Gestating(row),
            PhaseView::Alive(_) => PhaseView::Alive(row),
            PhaseView::Dead(_) => PhaseView::Dead(row),
        }
    }
}

/// A row is the row of at most one phase: `as_phase` gives a phase exactly
/// when the row is one of that phase, and then gives that phase around
/// that row.
pub proof fn as_phase_is_the_phase_of_the_row(row: LifeView, phase: PhaseView)
    ensures
        row.as_phase() == Ok::<PhaseView, Error>(phase) <==> phase.life() == row && phase.wf(),
        row.as_phase() is Err <==> !row.is_gestating() && !row.is_alive() && !row.is_dead(),
{
}

/// A life that was created at `now` is found under its id as the
/// Gestating life that the create handed back: same id, same time of
/// creation, neither born nor dead. Every row that the table held before
/// is found as before.
pub proof fn find_after_create(db: LivesView, now: NaiveDateTime)
    requires
        db.wf(),
    ensures
        Phase::created(db, now).1 is Ok <==> db.can_insert(),
        Phase::created(db, now).1 matches Ok(phase) ==> {
            &&& phase is Gestating
            &&& phase.wf()
            &&& phase.life().id == db.next_id
            &&& phase.life().created_at == now
            &&& Phase::found(Phase::created(db, now).0, phase.life().id) == Ok::<PhaseView, Error>(
                phase,
            )
        },
        forall|id: int|
            db.rows.contains_key(id) ==> #[trigger] Phase::found(Phase::created(db, now).0, id)
                == Phase::found(db, id),
{
}

/// A phase that was saved at `now` is found under its id as the phase that
/// the save handed back. That phase is the one that was saved, around the
/// row that was saved, but for two columns: `updated_at`, which is `now`,
/// and `created_at`, which is what the table held. So an Alive life that
/// was saved is found as an Alive life with the same `born_at`. The save
/// fails with `Storage` exactly when the table has no row under the id.
/// Every other row is found as before.
pub proof fn find_after_save(db: LivesView, phase: PhaseView, now: NaiveDateTime)
    requires
        db.wf(),
        phase.wf(),
    ensures
        Phase::saved(db, phase, now).1 is Ok <==> db.rows.contains_key(phase.life().id),
        Phase::saved(db, phase, now).1 is Err ==> Phase::saved(db, phase, now) == (
            db,
            Err::<PhaseView, Error>(Error::Storage),
        ),
        Phase::saved(db, phase, now).1 matches Ok(back) ==> {
            &&& back == phase.with_life(db.stored(phase.life().touched(now)))
            &&& back.life().created_at == db.rows[phase.life().id].created_at
            &&& back.life().updated_at == Some(now)
            &&& back.wf()
            &&& back.life().born_at == phase.life().born_at
            &&& back.life().died_at == phase.life().died_at
            &&& Phase::found(Phase::saved(db, phase, now).0, phase.life().id) == Ok::<
                PhaseView,
                Error,
            >(back)
        },
        forall|id: int|
            id != phase.life().id ==> #[trigger] Phase::found(Phase::saved(db, phase, now).0, id)
                == Phase::found(db, id),
{
}

} // verus!
