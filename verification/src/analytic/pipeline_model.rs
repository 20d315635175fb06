//! One message carried through the pipeline against models of the cache, the
//! geolocation service and the database, and what holds of every message.

use vstd::prelude::*;
use crate::analytic::clicks_model;
use crate::analytic::clicks_model::{at_rest, incremented, unique_ids, Database, Store};
use crate::analytic::constants::{unknown_country, STATUS_OK};
use crate::analytic::event::{decoded, ClickEventModel, DecodeError};
use crate::analytic::geo_model;
use crate::analytic::geo_model::World;
use crate::analytic::pipeline::{
    next, origin_label, DirectiveModel, LogModel, PipelineModel, SignalModel, TaskModel,
};
use crate::text::trimmed;

verus! {

/// All that a pipeline works on.
pub struct Surroundings {
    /// The cache and the geolocation service.
    pub world: World,
    /// The database.
    pub database: Database,
    /// The token sent to the geolocation service.
    pub token: Seq<char>,
    /// The log, the first line first.
    pub log: Seq<LogModel>,
}

/// The surroundings with one more line in the log, if there is one.
pub open spec fn logged(s: Surroundings, line: Option<LogModel>) -> Surroundings {
    match line {
        Some(l) => Surroundings { log: s.log.push(l), ..s },
        None => s,
    }
}

/// The surroundings after a resolution or a counting, and its outcome; `None`
/// for the other tasks.
pub open spec fn perform(s: Surroundings, t: TaskModel) -> Option<(Surroundings, SignalModel)> {
    match t {
        TaskModel::Resolve { ip } => match geo_model::run(ip, s.token, s.world) {
            Some(o) => Some((Surroundings { world: o.world, ..s }, SignalModel::Resolved(o.result))),
            None => None,
        },
        TaskModel::Count { short_code, country } => match clicks_model::run(
            short_code,
            country,
            s.database,
        ) {
            Some(o) => Some(
                (Surroundings { database: o.database, ..s }, SignalModel::Counted(o.result)),
            ),
            None => None,
        },
        _ => None,
    }
}

/// Follows a directive and those after it, for at most `fuel` tasks, until the
/// pipeline asks for the next message or stops.
pub open spec fn carry(p: PipelineModel, d: DirectiveModel, s: Surroundings, fuel: nat) -> Option<
    (PipelineModel, Surroundings),
>
    decreases fuel,
{
    let s1 = logged(s, d.log);
    match d.task {
        TaskModel::Receive => Some((p, s1)),
        TaskModel::Stop(_) => Some((p, s1)),
        t => if fuel == 0 {
            None
        } else {
            match perform(s1, t) {
                None => None,
                Some((s2, signal)) => {
                    let (p2, d2) = next(p, signal);
                    carry(p2, d2, s2, (fuel - 1) as nat)
                },
            }
        },
    }
}

/// The pipeline and its surroundings after one message is handled in full.
pub open spec fn handle(payload: Seq<u8>, s: Surroundings) -> Option<
    (PipelineModel, Surroundings),
> {
    let (p, d) = next(PipelineModel::Waiting, SignalModel::Message(payload));
    carry(p, d, s, 2)
}

/// A payload that is no click event leaves one line in the log and changes
/// nothing else; the pipeline waits for the next message.
pub proof fn law_malformed_message_changes_nothing(payload: Seq<u8>, s: Surroundings)
    requires
        decoded(payload) is Err,
    ensures
        handle(payload, s) == Some(
            (
                PipelineModel::Waiting,
                Surroundings {
                    log: s.log.push(LogModel::Corrupted { error: decoded(payload)->Err_0 }),
                    ..s
                },
            ),
        ),
{
    reveal_with_fuel(carry, 2);
}

/// Whatever the cache and the service answer and whichever database step
/// fails, a message is handled to its end and the pipeline is running after
/// it, waiting for the next message.
pub proof fn law_message_never_stops_the_pipeline(payload: Seq<u8>, s: Surroundings)
    requires
        s.database.open is None,
        unique_ids(s.database.committed),
    ensures
        handle(payload, s) matches Some(after) && after.0 == PipelineModel::Waiting,
{
    reveal_with_fuel(carry, 3);
    match decoded(payload) {
        Err(_) => {},
        Ok(e) => {
            geo_model::law_resolution_ends(e.ip, s.token, s.world);
            let o = geo_model::run(e.ip, s.token, s.world)->Some_0;
            let country = match o.result {
                Ok(c) => c,
                Err(_) => unknown_country(),
            };
            assert(s.database == at_rest(s.database.committed, s.database.succeed));
            clicks_model::law_all_or_nothing(
                s.database.committed,
                e.short_code,
                country,
                s.database.succeed,
            );
        },
    }
}

/// A click from an address that the cache does not hold, confirmed by the
/// service with status 200, on a working database: afterwards the cache holds
/// the address with the trimmed body as its country, the link's total and the
/// count of link and country are each one higher (the count is 1 where there
/// was none), the service got one request, and the log has one line more,
/// which reports the increment.
pub proof fn law_click_is_cached_and_counted(
    payload: Seq<u8>,
    e: ClickEventModel,
    address: Seq<char>,
    s: Surroundings,
    store: Store,
)
    requires
        decoded(payload) == Ok::<ClickEventModel, DecodeError>(e),
        e.ip == Some(address),
        !s.world.cache.contains_key(address),
        s.world.calls < s.world.replies.len(),
        s.world.replies[s.world.calls as int].status == STATUS_OK,
        s.database == at_rest(store, None),
        unique_ids(store),
    ensures
        ({
            let country = trimmed(s.world.replies[s.world.calls as int].body);
            handle(payload, s) == Some(
                (
                    PipelineModel::Waiting,
                    Surroundings {
                        world: World {
                            cache: s.world.cache.insert(address, country),
                            calls: s.world.calls + 1,
                            ..s.world
                        },
                        database: at_rest(incremented(store, e.short_code, country), None),
                        log: s.log.push(
                            LogModel::Incremented {
                                ip: address,
                                country,
                                short_code: e.short_code,
                            },
                        ),
                        ..s
                    },
                ),
            )
        }),
{
    reveal_with_fuel(carry, 3);
    let country = trimmed(s.world.replies[s.world.calls as int].body);
    geo_model::law_cache_round_trip(address, s.token, s.world);
    clicks_model::law_increment_counts_once(store, e.short_code, country);
    assert(origin_label(e) == address);
}

/// A payload that is no click event followed by the click of the law above:
/// the two leave exactly one line for the dropped payload and one for the
/// increment, and the store holds exactly one more click.
pub proof fn law_malformed_then_valid(
    bad: Seq<u8>,
    good: Seq<u8>,
    e: ClickEventModel,
    address: Seq<char>,
    s: Surroundings,
    store: Store,
)
    requires
        decoded(bad) is Err,
        decoded(good) == Ok::<ClickEventModel, DecodeError>(e),
        e.ip == Some(address),
        !s.world.cache.contains_key(address),
        s.world.calls < s.world.replies.len(),
        s.world.replies[s.world.calls as int].status == STATUS_OK,
        s.database == at_rest(store, None),
        unique_ids(store),
    ensures
        ({
            let country = trimmed(s.world.replies[s.world.calls as int].body);
            &&& handle(bad, s) matches Some(first)
            &&& first.0 == PipelineModel::Waiting
            &&& handle(good, first.1) matches Some(second)
            &&& second.0 == PipelineModel::Waiting
            &&& second.1.database == at_rest(incremented(store, e.short_code, country), None)
            &&& second.1.log == s.log.push(
                LogModel::Corrupted { error: decoded(bad)->Err_0 },
            ).push(LogModel::Incremented { ip: address, country, short_code: e.short_code })
        }),
{
    law_malformed_message_changes_nothing(bad, s);
    let first = handle(bad, s)->Some_0;
    law_click_is_cached_and_counted(good, e, address, first.1, store);
}

} // verus!
