//! The counters as a mathematical store, an increment run to its end against
//! it, and what holds of every such run.

use vstd::prelude::*;
use crate::analytic::clicks::{
    next, started, AggregatorModel, ClickError, Counted, DbActionModel, DbEvent,
};

verus! {

/// A link as the store holds it.
pub struct LinkRow {
    pub id: i64,
    pub total_clicks: int,
}

/// The two tables.
pub struct Store {
    /// Short code to link. A short code has at most one link.
    pub links: Map<Seq<char>, LinkRow>,
    /// Link identifier and country code to clicks. A pair has at most one count.
    pub countries: Map<(i64, Seq<char>), int>,
}

/// No two short codes share a link identifier.
pub open spec fn unique_ids(s: Store) -> bool {
    forall|a: Seq<char>, b: Seq<char>|
        s.links.contains_key(a) && s.links.contains_key(b) && s.links[a].id == s.links[b].id
            ==> a == b
}

/// The clicks counted for a link and a country; 0 where there is no count yet.
pub open spec fn country_clicks(s: Store, link_id: i64, country: Seq<char>) -> int {
    if s.countries.contains_key((link_id, country)) {
        s.countries[(link_id, country)]
    } else {
        0
    }
}

/// The store after one click on `short_code` from `country`: the link's total
/// and the pair's count are each one higher, and a short code without a link
/// changes nothing.
pub open spec fn incremented(s: Store, short_code: Seq<char>, country: Seq<char>) -> Store {
    if s.links.contains_key(short_code) {
        let row = s.links[short_code];
        Store {
            links: s.links.insert(
                short_code,
                LinkRow { id: row.id, total_clicks: row.total_clicks + 1 },
            ),
            countries: s.countries.insert(
                (row.id, country),
                country_clicks(s, row.id, country) + 1,
            ),
        }
    } else {
        s
    }
}

/// The store after the statement that adds one to the total of the link
/// `link_id`.
pub open spec fn total_raised(s: Store, link_id: i64) -> Store {
    Store {
        links: Map::new(
            |k: Seq<char>| s.links.contains_key(k),
            |k: Seq<char>|
                if s.links[k].id == link_id {
                    LinkRow { id: link_id, total_clicks: s.links[k].total_clicks + 1 }
                } else {
                    s.links[k]
                },
        ),
        ..s
    }
}

/// The store after the upsert of the count of `link_id` and `country`.
pub open spec fn country_raised(s: Store, link_id: i64, country: Seq<char>) -> Store {
    Store {
        countries: s.countries.insert(
            (link_id, country),
            country_clicks(s, link_id, country) + 1,
        ),
        ..s
    }
}

/// A database: what is committed, the open transaction's own state of the
/// tables, and how many more actions succeed before one fails.
pub struct Database {
    pub committed: Store,
    pub open: Option<Store>,
    /// `None`: no action fails.
    pub succeed: Option<nat>,
}

/// A finished increment.
pub struct Outcome {
    pub result: Result<Counted, ClickError>,
    pub database: Database,
}

/// The database with one success less to give.
pub open spec fn spent(d: Database) -> Database {
    Database {
        succeed: match d.succeed {
            Some(n) => Some((n - 1) as nat),
            None => None,
        },
        ..d
    }
}

/// The database after an action, and the outcome handed back. A failed action
/// changes nothing. A statement outside a transaction fails.
pub open spec fn perform(d: Database, a: DbActionModel) -> (Database, DbEvent) {
    if d.succeed == Some(0nat) {
        (d, DbEvent::Failed)
    } else {
        let d = spent(d);
        match (a, d.open) {
            (DbActionModel::Begin, _) => (
                Database { open: Some(d.committed), ..d },
                DbEvent::Opened,
            ),
            (DbActionModel::FindLink { short_code }, Some(t)) => (
                d,
                DbEvent::Link(
                    if t.links.contains_key(short_code) {
                        Some(t.links[short_code].id)
                    } else {
                        None
                    },
                ),
            ),
            (DbActionModel::IncrementTotal { link_id }, Some(t)) => (
                Database { open: Some(total_raised(t, link_id)), ..d },
                DbEvent::Executed,
            ),
            (DbActionModel::UpsertCountry { link_id, country }, Some(t)) => (
                Database { open: Some(country_raised(t, link_id, country)), ..d },
                DbEvent::Executed,
            ),
            (DbActionModel::Commit, Some(t)) => (
                Database { committed: t, open: None, ..d },
                DbEvent::Committed,
            ),
            _ => (d, DbEvent::Failed),
        }
    }
}

/// Performs `a` and what the aggregator asks for after it, for at most `fuel`
/// actions; at the end an open transaction is rolled back. `None` where the
/// aggregator has not finished by then.
pub open spec fn drive(m: AggregatorModel, a: DbActionModel, d: Database, fuel: nat) -> Option<
    Outcome,
>
    decreases fuel,
{
    match a {
        DbActionModel::Finish(result) => Some(
            Outcome { result, database: Database { open: None, ..d } },
        ),
        _ => if fuel == 0 {
            None
        } else {
            let (d2, e) = perform(d, a);
            let (m2, a2) = next(m, e);
            drive(m2, a2, d2, (fuel - 1) as nat)
        },
    }
}

/// A whole increment against the database `d`.
pub open spec fn run(short_code: Seq<char>, country: Seq<char>, d: Database) -> Option<Outcome> {
    drive(started(short_code, country), DbActionModel::Begin, d, 6)
}

/// A database at rest that holds `s`, in which the next `succeed` actions
/// succeed.
pub open spec fn at_rest(s: Store, succeed: Option<nat>) -> Database {
    Database { committed: s, open: None, succeed }
}

/// With unique identifiers the two statements of an increment give the store
/// that `incremented` describes.
pub proof fn lemma_statements_increment(s: Store, short_code: Seq<char>, country: Seq<char>)
    requires
        unique_ids(s),
        s.links.contains_key(short_code),
    ensures
        country_raised(total_raised(s, s.links[short_code].id), s.links[short_code].id, country)
            == incremented(s, short_code, country),
{
    let id = s.links[short_code].id;
    let a = country_raised(total_raised(s, id), id, country);
    let b = incremented(s, short_code, country);
    assert(a.links =~= b.links);
    assert(a.countries =~= b.countries);
}

/// Where no step fails, an increment succeeds and commits exactly one click:
/// `Applied` where the short code has a link, `LinkNotFound` where it has none.
pub proof fn law_increment_counts_once(s: Store, short_code: Seq<char>, country: Seq<char>)
    requires
        unique_ids(s),
    ensures
        run(short_code, country, at_rest(s, None)) == Some(
            Outcome {
                result: Ok(
                    if s.links.contains_key(short_code) {
                        Counted::Applied
                    } else {
                        Counted::LinkNotFound
                    },
                ),
                database: at_rest(incremented(s, short_code, country), None),
            },
        ),
{
    reveal_with_fuel(drive, 7);
    if s.links.contains_key(short_code) {
        lemma_statements_increment(s, short_code, country);
    }
}

/// An increment for a short code that no link has succeeds and writes nothing.
pub proof fn law_unknown_short_code(s: Store, short_code: Seq<char>, country: Seq<char>)
    requires
        !s.links.contains_key(short_code),
    ensures
        incremented(s, short_code, country) == s,
        run(short_code, country, at_rest(s, None)) == Some(
            Outcome { result: Ok(Counted::LinkNotFound), database: at_rest(s, None) },
        ),
{
    reveal_with_fuel(drive, 7);
}

/// The two counters move together or not at all: whichever step fails, an
/// increment ends, with no transaction left open; where it succeeds the store
/// holds exactly one more click, and where it fails the store is as before.
pub proof fn law_all_or_nothing(
    s: Store,
    short_code: Seq<char>,
    country: Seq<char>,
    succeed: Option<nat>,
)
    requires
        unique_ids(s),
    ensures
        run(short_code, country, at_rest(s, succeed)) matches Some(o) && o.database.open is None
            && match o.result {
            Ok(_) => o.database.committed == incremented(s, short_code, country),
            Err(e) => e == ClickError::Database && o.database.committed == s,
        },
{
    reveal_with_fuel(drive, 7);
    if s.links.contains_key(short_code) {
        lemma_statements_increment(s, short_code, country);
    }
}

/// Two clicks on one link from one country, in whatever order their
/// transactions commit, raise the link's total by exactly 2 and the pair's
/// count by exactly 2.
pub proof fn law_two_increments(s: Store, short_code: Seq<char>, country: Seq<char>)
    requires
        s.links.contains_key(short_code),
    ensures
        ({
            let id = s.links[short_code].id;
            let t = incremented(incremented(s, short_code, country), short_code, country);
            &&& t.links.contains_key(short_code)
            &&& t.links[short_code].id == id
            &&& t.links[short_code].total_clicks == s.links[short_code].total_clicks + 2
            &&& country_clicks(t, id, country) == country_clicks(s, id, country) + 2
        }),
{
}

/// Increments commute: two clicks leave the same store in either order.
pub proof fn law_increments_commute(
    s: Store,
    short_a: Seq<char>,
    country_a: Seq<char>,
    short_b: Seq<char>,
    country_b: Seq<char>,
)
    ensures
        incremented(incremented(s, short_a, country_a), short_b, country_b) == incremented(
            incremented(s, short_b, country_b),
            short_a,
            country_a,
        ),
{
    let x = incremented(incremented(s, short_a, country_a), short_b, country_b);
    let y = incremented(incremented(s, short_b, country_b), short_a, country_a);
    assert(x.links =~= y.links);
    assert(x.countries =~= y.countries);
}

} // verus!
