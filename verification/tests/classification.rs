use chrono::{NaiveDate, NaiveDateTime};
use lives::error::Error;
use lives::lifecycle::Phase;
use lives::models::Life;

fn at(day: u32) -> NaiveDateTime {
    NaiveDate::from_ymd_opt(2018, 3, day).unwrap().and_hms_opt(12, 0, 0).unwrap()
}

fn row(tag: &str, born_at: Option<NaiveDateTime>, died_at: Option<NaiveDateTime>) -> Life {
    Life {
        id: 5,
        state_type: String::from(tag),
        created_at: at(1),
        updated_at: Some(at(1)),
        born_at,
        died_at,
    }
}

#[test]
fn gestating_row_is_gestating() {
    let life = row("Gestating", None, None);
    match life.as_phase() {
        Ok(Phase::Gestating(val)) => assert_eq!(val.state, life),
        other => panic!("Expecting Gestating; instead got {:?}", other),
    }
}

#[test]
fn alive_row_is_alive() {
    let life = row("Alive", Some(at(2)), None);
    match life.as_phase() {
        Ok(Phase::Alive(val)) => assert_eq!(val.state, life),
        other => panic!("Expecting Alive; instead got {:?}", other),
    }
}

#[test]
fn dead_row_that_was_born_is_dead() {
    let life = row("Dead", Some(at(2)), Some(at(3)));
    match life.as_phase() {
        Ok(Phase::Dead(val)) => assert_eq!(val.state, life),
        other => panic!("Expecting Dead; instead got {:?}", other),
    }
}

#[test]
fn dead_row_that_was_never_born_is_dead() {
    let life = row("Dead", None, Some(at(3)));
    match life.as_phase() {
        Ok(Phase::Dead(val)) => assert_eq!(val.state, life),
        other => panic!("Expecting Dead; instead got {:?}", other),
    }
}

#[test]
fn unknown_tag_is_corrupt() {
    for tag in ["Zombie", "", "alive", "Alive ", "GESTATING", "Deceased"] {
        for born_at in [None, Some(at(2))] {
            for died_at in [None, Some(at(3))] {
                match row(tag, born_at, died_at).as_phase() {
                    Err(e) => assert_eq!(e, Error::CorruptState),
                    Ok(phase) => panic!("Expecting CorruptState; instead got {:?}", phase),
                }
            }
        }
    }
}

#[test]
fn gestating_row_with_a_timestamp_is_corrupt() {
    for (born_at, died_at) in
        [(Some(at(2)), None), (None, Some(at(3))), (Some(at(2)), Some(at(3)))]
    {
        match row("Gestating", born_at, died_at).as_phase() {
            Err(e) => assert_eq!(e, Error::CorruptState),
            Ok(phase) => panic!("Expecting CorruptState; instead got {:?}", phase),
        }
    }
}

#[test]
fn alive_row_without_birth_or_with_death_is_corrupt() {
    for (born_at, died_at) in [(None, None), (None, Some(at(3))), (Some(at(2)), Some(at(3)))] {
        match row("Alive", born_at, died_at).as_phase() {
            Err(e) => assert_eq!(e, Error::CorruptState),
            Ok(phase) => panic!("Expecting CorruptState; instead got {:?}", phase),
        }
    }
}

#[test]
fn dead_row_without_death_is_corrupt() {
    for born_at in [None, Some(at(2))] {
        match row("Dead", born_at, None).as_phase() {
            Err(e) => assert_eq!(e, Error::CorruptState),
            Ok(phase) => panic!("Expecting CorruptState; instead got {:?}", phase),
        }
    }
}

#[test]
fn created_row_is_read_as_gestating() {
    let life = row("Gestating", None, None);
    match Phase::from_created(Ok(life.clone())) {
        Ok(Phase::Gestating(val)) => assert_eq!(val.state, life),
        other => panic!("Expecting Gestating; instead got {:?}", other),
    }
}

#[test]
fn created_row_of_another_phase_is_corrupt() {
    for life in [
        row("Alive", Some(at(2)), None),
        row("Dead", Some(at(2)), Some(at(3))),
        row("Dead", None, Some(at(3))),
        row("Gestating", Some(at(2)), None),
        row("Zombie", None, None),
    ] {
        match Phase::from_created(Ok(life)) {
            Err(e) => assert_eq!(e, Error::CorruptState),
            Ok(phase) => panic!("Expecting CorruptState; instead got {:?}", phase),
        }
    }
}

#[test]
fn failed_create_is_read_as_its_error() {
    for e in [Error::Storage, Error::NotFound, Error::CorruptState] {
        match Phase::from_created(Err(e)) {
            Err(got) => assert_eq!(got, e),
            Ok(phase) => panic!("Expecting {:?}; instead got {:?}", e, phase),
        }
    }
}

#[test]
fn stored_row_is_read_as_its_phase() {
    assert!(matches!(
        Phase::from_stored(Ok(row("Gestating", None, None))),
        Ok(Phase::Gestating(_))
    ));
    assert!(matches!(
        Phase::from_stored(Ok(row("Alive", Some(at(2)), None))),
        Ok(Phase::Alive(_))
    ));
    assert!(matches!(
        Phase::from_stored(Ok(row("Dead", None, Some(at(3))))),
        Ok(Phase::Dead(_))
    ));
    assert!(matches!(
        Phase::from_stored(Ok(row("Alive", None, None))),
        Err(Error::CorruptState)
    ));
    assert!(matches!(
        Phase::from_stored(Ok(row("Undead", Some(at(2)), None))),
        Err(Error::CorruptState)
    ));
}

#[test]
fn failed_find_or_save_is_read_as_its_error() {
    for e in [Error::Storage, Error::NotFound, Error::CorruptState] {
        match Phase::from_stored(Err(e)) {
            Err(got) => assert_eq!(got, e),
            Ok(phase) => panic!("Expecting {:?}; instead got {:?}", e, phase),
        }
    }
}
