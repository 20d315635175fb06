use click_analytics::analytic::clicks::{
    increment_link, ClickError, Counted, DbAction, DbEvent, DbStage,
};

#[derive(Clone, Debug, PartialEq)]
struct Tables {
    links: Vec<(i64, String, i64)>,
    countries: Vec<(i64, String, i64)>,
}

struct FakeDb {
    committed: Tables,
    open: Option<Tables>,
    fail_at: Option<usize>,
    actions: usize,
}

fn database(fail_at: Option<usize>) -> FakeDb {
    FakeDb {
        committed: Tables {
            links: vec![(7, "abc123".to_string(), 10), (8, "other".to_string(), 0)],
            countries: vec![(7, "US".to_string(), 4)],
        },
        open: None,
        fail_at,
        actions: 0,
    }
}

fn perform(db: &mut FakeDb, action: DbAction) -> DbEvent {
    let index = db.actions;
    db.actions += 1;
    if db.fail_at == Some(index) {
        return DbEvent::Failed;
    }
    match action {
        DbAction::Begin => {
            db.open = Some(db.committed.clone());
            DbEvent::Opened
        }
        DbAction::FindLink { short_code } => {
            let t = db.open.as_ref().unwrap();
            DbEvent::Link(t.links.iter().find(|l| l.1 == short_code).map(|l| l.0))
        }
        DbAction::IncrementTotal { link_id } => {
            let t = db.open.as_mut().unwrap();
            for l in t.links.iter_mut().filter(|l| l.0 == link_id) {
                l.2 += 1;
            }
            DbEvent::Executed
        }
        DbAction::UpsertCountry { link_id, country } => {
            let t = db.open.as_mut().unwrap();
            match t.countries.iter_mut().find(|c| c.0 == link_id && c.1 == country) {
                Some(c) => c.2 += 1,
                None => t.countries.push((link_id, country, 1)),
            }
            DbEvent::Executed
        }
        DbAction::Commit => {
            db.committed = db.open.take().unwrap();
            DbEvent::Committed
        }
        DbAction::Finish(_) => unreachable!(),
    }
}

fn increment(db: &mut FakeDb, short_code: &str, country: &str) -> Result<Counted, ClickError> {
    let (mut aggregator, mut action) = increment_link(short_code, country);
    for _ in 0..16 {
        if let DbAction::Finish(result) = action {
            db.open = None;
            assert_eq!(aggregator.stage(), DbStage::Done);
            return result;
        }
        let event = perform(db, action);
        action = aggregator.step(event);
    }
    panic!("the increment did not finish");
}

fn clicks(db: &FakeDb, link_id: i64, country: &str) -> Option<i64> {
    db.committed.countries.iter().find(|c| c.0 == link_id && c.1 == country).map(|c| c.2)
}

fn total(db: &FakeDb, link_id: i64) -> i64 {
    db.committed.links.iter().find(|l| l.0 == link_id).map(|l| l.2).unwrap()
}

#[test]
fn increment_raises_both_counters() {
    let mut db = database(None);
    assert_eq!(increment(&mut db, "abc123", "US"), Ok(Counted::Applied));
    assert_eq!(total(&db, 7), 11);
    assert_eq!(clicks(&db, 7, "US"), Some(5));
    assert_eq!(total(&db, 8), 0);
    assert_eq!(db.actions, 5);
}

#[test]
fn first_click_from_a_country_creates_its_count() {
    let mut db = database(None);
    assert_eq!(clicks(&db, 7, "FR"), None);
    assert_eq!(increment(&mut db, "abc123", "FR"), Ok(Counted::Applied));
    assert_eq!(clicks(&db, 7, "FR"), Some(1));
    assert_eq!(clicks(&db, 7, "US"), Some(4));
    assert_eq!(total(&db, 7), 11);
}

#[test]
fn two_increments_add_two() {
    let mut db = database(None);
    assert_eq!(increment(&mut db, "abc123", "US"), Ok(Counted::Applied));
    assert_eq!(increment(&mut db, "abc123", "US"), Ok(Counted::Applied));
    assert_eq!(clicks(&db, 7, "US"), Some(6));
    assert_eq!(total(&db, 7), 12);
}

#[test]
fn increments_commute() {
    let mut one = database(None);
    increment(&mut one, "abc123", "US").unwrap();
    increment(&mut one, "other", "FR").unwrap();
    increment(&mut one, "abc123", "FR").unwrap();
    let mut two = database(None);
    increment(&mut two, "abc123", "FR").unwrap();
    increment(&mut two, "abc123", "US").unwrap();
    increment(&mut two, "other", "FR").unwrap();
    assert_eq!(total(&one, 7), total(&two, 7));
    assert_eq!(total(&one, 8), total(&two, 8));
    for (id, country) in [(7, "US"), (7, "FR"), (8, "FR")] {
        assert_eq!(clicks(&one, id, country), clicks(&two, id, country));
    }
}

#[test]
fn unknown_short_code() {
    let mut db = database(None);
    let before = db.committed.clone();
    assert_eq!(increment(&mut db, "does-not-exist", "US"), Ok(Counted::LinkNotFound));
    assert_eq!(db.committed, before);
    assert_eq!(db.actions, 2);
    assert!(db.open.is_none());
}

#[test]
fn failure_at_any_step_changes_nothing() {
    for step in 0..5 {
        let mut db = database(Some(step));
        let before = db.committed.clone();
        assert_eq!(increment(&mut db, "abc123", "US"), Err(ClickError::Database));
        assert_eq!(db.committed, before);
        assert_eq!(db.actions, step + 1);
    }
}

#[test]
fn actions_come_in_order() {
    let (mut aggregator, first) = increment_link("abc123", "US");
    assert_eq!(first, DbAction::Begin);
    assert_eq!(aggregator.stage(), DbStage::Open);
    assert_eq!(
        aggregator.step(DbEvent::Opened),
        DbAction::FindLink { short_code: "abc123".to_string() }
    );
    assert_eq!(aggregator.step(DbEvent::Link(Some(7))), DbAction::IncrementTotal { link_id: 7 });
    assert_eq!(
        aggregator.step(DbEvent::Executed),
        DbAction::UpsertCountry { link_id: 7, country: "US".to_string() }
    );
    assert_eq!(aggregator.step(DbEvent::Executed), DbAction::Commit);
    assert_eq!(aggregator.step(DbEvent::Committed), DbAction::Finish(Ok(Counted::Applied)));
    assert_eq!(aggregator.step(DbEvent::Opened), DbAction::Finish(Err(ClickError::Unexpected)));
}

#[test]
fn outcome_out_of_turn_ends_the_increment() {
    let (mut aggregator, _) = increment_link("abc123", "US");
    assert_eq!(aggregator.step(DbEvent::Committed), DbAction::Finish(Err(ClickError::Unexpected)));
    assert_eq!(aggregator.stage(), DbStage::Done);
}
