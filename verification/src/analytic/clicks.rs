//! Click counting: one transaction that finds the link of a short code and
//! raises its total and its per-country count together, as a machine that
//! names the next database action and is told its outcome.

use vstd::prelude::*;
use vstd::string::*;

verus! {

/// The database refused or lost a step of the transaction.
#[derive(Clone, Copy, Debug, PartialEq, Eq, Structural)]
pub enum ClickError {
    /// A statement, the opening of the transaction or the commit failed.
    Database,
    /// An outcome arrived that answers no pending action.
    Unexpected,
}

/// The text of a failure, for the log.
pub open spec fn click_error_text(e: ClickError) -> Seq<char> {
    match e {
        ClickError::Database => "the database failed"@,
        ClickError::Unexpected => "an outcome answered no pending action"@,
    }
}

impl ClickError {
    /// The text of the failure, for the log.
    pub fn describe(&self) -> (r: String)
        ensures
            r@ == click_error_text(*self),
    {
        match self {
            ClickError::Database => String::from_str("the database failed"),
            ClickError::Unexpected => String::from_str("an outcome answered no pending action"),
        }
    }
}

/// What a successful increment did.
#[derive(Clone, Copy, Debug, PartialEq, Eq, Structural)]
pub enum Counted {
    /// Both counters were raised and committed.
    Applied,
    /// No link has the short code: nothing was written.
    LinkNotFound,
}

/// What the aggregator is waiting for.
#[derive(Clone, Copy, Debug, PartialEq, Eq, Structural)]
pub enum DbStage {
    /// The opening of the transaction.
    Open,
    /// The link's identifier.
    Lookup,
    /// The update of the link's total.
    Total,
    /// The upsert of the per-country count.
    Country,
    /// The commit.
    Commit,
    /// Nothing: the increment is over.
    Done,
}

/// The outcome of a database action.
#[derive(Clone, Copy, Debug, PartialEq, Eq, Structural)]
pub enum DbEvent {
    /// The transaction is open.
    Opened,
    /// The lookup ran: the identifier of the link, or nothing.
    Link(Option<i64>),
    /// The statement ran.
    Executed,
    /// The transaction is committed.
    Committed,
    /// The action failed.
    Failed,
}

/// What the caller is to do next. With `Finish` a transaction that is still
/// open is abandoned, which rolls it back.
#[derive(Debug, PartialEq, Eq)]
pub enum DbAction {
    /// Connect and begin a transaction.
    Begin,
    /// Select the identifier of the link with this short code.
    FindLink { short_code: String },
    /// Add one to the total of this link.
    IncrementTotal { link_id: i64 },
    /// Insert the count 1 for this link and country, or add one to the count
    /// that is there.
    UpsertCountry { link_id: i64, country: String },
    /// Commit the transaction.
    Commit,
    /// The increment is over, with this result.
    Finish(Result<Counted, ClickError>),
}

/// What a `DbAction` is in contracts: its texts as sequences of characters.
pub enum DbActionModel {
    Begin,
    FindLink { short_code: Seq<char> },
    IncrementTotal { link_id: i64 },
    UpsertCountry { link_id: i64, country: Seq<char> },
    Commit,
    Finish(Result<Counted, ClickError>),
}

impl View for DbAction {
    type V = DbActionModel;

    open spec fn view(&self) -> DbActionModel {
        match *self {
            DbAction::Begin => DbActionModel::Begin,
            DbAction::FindLink { short_code } => DbActionModel::FindLink {
                short_code: short_code@,
            },
            DbAction::IncrementTotal { link_id } => DbActionModel::IncrementTotal { link_id },
            DbAction::UpsertCountry { link_id, country } => DbActionModel::UpsertCountry {
                link_id,
                country: country@,
            },
            DbAction::Commit => DbActionModel::Commit,
            DbAction::Finish(r) => DbActionModel::Finish(r),
        }
    }
}

/// An increment in progress.
pub struct ClickAggregator {
    short_code: String,
    country: String,
    link_id: i64,
    stage: DbStage,
}

/// What a `ClickAggregator` is in contracts: its texts as sequences of characters.
pub struct AggregatorModel {
    pub short_code: Seq<char>,
    pub country: Seq<char>,
    /// The link found; meaningful after the lookup.
    pub link_id: i64,
    pub stage: DbStage,
}

impl View for ClickAggregator {
    type V = AggregatorModel;

    closed spec fn view(&self) -> AggregatorModel {
        AggregatorModel {
            short_code: self.short_code@,
            country: self.country@,
            link_id: self.link_id,
            stage: self.stage,
        }
    }
}

/// The machine that an increment starts with; its first action is `Begin`.
pub open spec fn started(short_code: Seq<char>, country: Seq<char>) -> AggregatorModel {
    AggregatorModel { short_code, country, link_id: 0, stage: DbStage::Open }
}

/// The machine at `stage`.
pub open spec fn at(m: AggregatorModel, stage: DbStage) -> AggregatorModel {
    AggregatorModel { stage, ..m }
}

/// The transition of the aggregator: the machine after `e`, and what it asks
/// for. Any failure ends the increment; so does a short code without a link,
/// as a success.
pub open spec fn next(m: AggregatorModel, e: DbEvent) -> (AggregatorModel, DbActionModel) {
    match (m.stage, e) {
        (DbStage::Open, DbEvent::Opened) => (
            at(m, DbStage::Lookup),
            DbActionModel::FindLink { short_code: m.short_code },
        ),
        (DbStage::Lookup, DbEvent::Link(None)) => (
            at(m, DbStage::Done),
            DbActionModel::Finish(Ok(Counted::LinkNotFound)),
        ),
        (DbStage::Lookup, DbEvent::Link(Some(id))) => (
            AggregatorModel { link_id: id, stage: DbStage::Total, ..m },
            DbActionModel::IncrementTotal { link_id: id },
        ),
        (DbStage::Total, DbEvent::Executed) => (
            at(m, DbStage::Country),
            DbActionModel::UpsertCountry { link_id: m.link_id, country: m.country },
        ),
        (DbStage::Country, DbEvent::Executed) => (at(m, DbStage::Commit), DbActionModel::Commit),
        (DbStage::Commit, DbEvent::Committed) => (
            at(m, DbStage::Done),
            DbActionModel::Finish(Ok(Counted::Applied)),
        ),
        (DbStage::Done, _) => (m, DbActionModel::Finish(Err(ClickError::Unexpected))),
        (_, DbEvent::Failed) => (
            at(m, DbStage::Done),
            DbActionModel::Finish(Err(ClickError::Database)),
        ),
        _ => (at(m, DbStage::Done), DbActionModel::Finish(Err(ClickError::Unexpected))),
    }
}

/// Starts the increment of the link `short_link` for `country`.
pub fn increment_link(short_link: &str, country: &str) -> (r: (ClickAggregator, DbAction))
    ensures
        r.0@ == started(short_link@, country@),
        r.1@ == DbActionModel::Begin,
{
    let aggregator = ClickAggregator {
        short_code: short_link.to_owned(),
        country: country.to_owned(),
        link_id: 0,
        stage: DbStage::Open,
    };
    (aggregator, DbAction::Begin)
}

impl ClickAggregator {
    /// What the aggregator is waiting for.
    pub fn stage(&self) -> (s: DbStage)
        ensures
            s == self@.stage,
    {
        self.stage
    }

    /// Takes the outcome of the action last asked for and names the next one.
    pub fn step(&mut self, event: DbEvent) -> (a: DbAction)
        ensures
            (final(self)@, a@) == next(old(self)@, event),
    {
        match (self.stage, event) {
            (DbStage::Open, DbEvent::Opened) => {
                self.stage = DbStage::Lookup;
                DbAction::FindLink { short_code: self.short_code.clone() }
            },
            (DbStage::Lookup, DbEvent::Link(None)) => {
                self.stage = DbStage::Done;
                DbAction::Finish(Ok(Counted::LinkNotFound))
            },
            (DbStage::Lookup, DbEvent::Link(Some(id))) => {
                self.link_id = id;
                self.stage = DbStage::Total;
                DbAction::IncrementTotal { link_id: id }
            },
            (DbStage::Total, DbEvent::Executed) => {
                self.stage = DbStage::Country;
                DbAction::UpsertCountry { link_id: self.link_id, country: self.country.clone() }
            },
            (DbStage::Country, DbEvent::Executed) => {
                self.stage = DbStage::Commit;
                DbAction::Commit
            },
            (DbStage::Commit, DbEvent::Committed) => {
                self.stage = DbStage::Done;
                DbAction::Finish(Ok(Counted::Applied))
            },
            (DbStage::Done, _) => DbAction::Finish(Err(ClickError::Unexpected)),
            (_, DbEvent::Failed) => {
                self.stage = DbStage::Done;
                DbAction::Finish(Err(ClickError::Database))
            },
            _ => {
                self.stage = DbStage::Done;
                DbAction::Finish(Err(ClickError::Unexpected))
            },
        }
    }
}

} // verus!
