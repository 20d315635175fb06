//! The resolver run to its end against a model of its surroundings, and what
//! holds of every such run.

use vstd::prelude::*;
use crate::analytic::constants::{
    unknown_country, MAX_ATTEMPTS, STATUS_OK, STATUS_TOO_MANY_REQUESTS,
};
use crate::analytic::geo::{
    begin, next, GeoActionModel, GeoError, GeoEventModel, HttpReplyModel, ResolverModel, Stage,
};
use crate::text::{decimal_value, trimmed};

verus! {

/// The surroundings of a resolver: a cache that always answers, a service
/// that gives its replies in order, and a record of what was asked of them.
pub struct World {
    /// Address to country.
    pub cache: Map<Seq<char>, Seq<char>>,
    /// The service's replies, the first one first.
    pub replies: Seq<HttpReplyModel>,
    /// How many requests the service has received.
    pub calls: nat,
    /// The waits made, in seconds, the first one first.
    pub waits: Seq<u64>,
}

/// A finished resolution.
pub struct Outcome {
    pub result: Result<Seq<char>, GeoError>,
    pub world: World,
}

/// The world after an action, and the outcome handed back to the resolver.
/// A request beyond the last reply fails. `Finish` asks for nothing: the world
/// stays as it is, and `drive` hands no outcome back.
pub open spec fn perform(w: World, a: GeoActionModel) -> (World, GeoEventModel) {
    match a {
        GeoActionModel::CacheGet { key } => (
            w,
            GeoEventModel::CacheAnswer(
                if w.cache.contains_key(key) {
                    Some(w.cache[key])
                } else {
                    None
                },
            ),
        ),
        GeoActionModel::HttpGet { url } => (
            World { calls: w.calls + 1, ..w },
            if w.calls < w.replies.len() {
                GeoEventModel::HttpAnswer(w.replies[w.calls as int])
            } else {
                GeoEventModel::HttpFailed
            },
        ),
        GeoActionModel::Sleep { seconds } => (
            World { waits: w.waits.push(seconds), ..w },
            GeoEventModel::SleepDone,
        ),
        GeoActionModel::CacheSet { key, value } => (
            World { cache: w.cache.insert(key, value), ..w },
            GeoEventModel::CacheStored,
        ),
        GeoActionModel::Finish(_) => (w, GeoEventModel::CacheFailed),
    }
}

/// Performs `a` and what the resolver asks for after it, for at most `fuel`
/// actions. `None` where the resolver has not finished by then.
pub open spec fn drive(m: ResolverModel, a: GeoActionModel, w: World, fuel: nat) -> Option<
    Outcome,
>
    decreases fuel,
{
    match a {
        GeoActionModel::Finish(result) => Some(Outcome { result, world: w }),
        _ => if fuel == 0 {
            None
        } else {
            let (w2, e) = perform(w, a);
            let (m2, a2) = next(m, e);
            drive(m2, a2, w2, (fuel - 1) as nat)
        },
    }
}

/// More actions than any resolution asks for.
pub open spec fn enough() -> nat {
    8
}

/// A whole resolution of `ip` in the world `w`.
pub open spec fn run(ip: Option<Seq<char>>, token: Seq<char>, w: World) -> Option<Outcome> {
    let (m, a) = begin(ip, token);
    drive(m, a, w, enough())
}

/// Whether the service's reply number `k` limits the rate and names a wait
/// of `seconds`.
pub open spec fn asks_to_wait(w: World, k: nat, seconds: u64) -> bool {
    &&& k < w.replies.len()
    &&& w.replies[k as int].status == STATUS_TOO_MANY_REQUESTS
    &&& w.replies[k as int].retry_after matches Some(h)
    &&& decimal_value(h, u64::MAX as nat) == Some(seconds as nat)
}

/// How many actions a resolver may still ask for.
pub open spec fn rank(m: ResolverModel) -> nat {
    let left: nat = if m.attempts >= MAX_ATTEMPTS {
        0
    } else {
        (MAX_ATTEMPTS - m.attempts) as nat
    };
    match m.stage {
        Stage::Done => 0,
        Stage::Store => 1,
        Stage::Sleep => 1 + 2 * left,
        Stage::Http => 2 + 2 * left,
        Stage::Cache => 7,
    }
}

/// A step uses up rank: after it the resolver has finished or may ask for less.
pub proof fn lemma_step_lowers_rank(m: ResolverModel, e: GeoEventModel)
    requires
        m.stage == Stage::Cache ==> m.attempts == 0,
    ensures
        next(m, e).1 is Finish || rank(next(m, e).0) < rank(m),
        next(m, e).0.stage != Stage::Cache,
{
}

/// Every resolver finishes: `rank(m) + 1` actions are enough, whatever the
/// cache and the service answer.
pub proof fn lemma_drive_finishes(m: ResolverModel, a: GeoActionModel, w: World, fuel: nat)
    requires
        m.stage == Stage::Cache ==> m.attempts == 0,
        fuel > rank(m),
    ensures
        drive(m, a, w, fuel) is Some,
    decreases fuel,
{
    if !(a is Finish) {
        let (w2, e) = perform(w, a);
        let (m2, a2) = next(m, e);
        lemma_step_lowers_rank(m, e);
        if a2 is Finish {
            assert(drive(m2, a2, w2, (fuel - 1) as nat) is Some);
        } else {
            lemma_drive_finishes(m2, a2, w2, (fuel - 1) as nat);
        }
        assert(drive(m, a, w, fuel) == drive(m2, a2, w2, (fuel - 1) as nat));
    }
}

/// Every resolution comes to an end within the fixed number of actions,
/// whatever the cache holds and the service replies.
pub proof fn law_resolution_ends(ip: Option<Seq<char>>, token: Seq<char>, w: World)
    ensures
        run(ip, token, w) is Some,
{
    let (m, a) = begin(ip, token);
    lemma_drive_finishes(m, a, w, enough());
}

/// How many requests a resolver may still send, the one it is asking for
/// included.
pub open spec fn budget(m: ResolverModel, a: GeoActionModel) -> nat {
    let left: nat = if m.attempts >= MAX_ATTEMPTS {
        0
    } else {
        (MAX_ATTEMPTS - m.attempts) as nat
    };
    let asked: nat = if a is HttpGet {
        1
    } else {
        0
    };
    asked + match m.stage {
        Stage::Cache => MAX_ATTEMPTS as nat,
        Stage::Http => left,
        Stage::Sleep => left,
        Stage::Store => 0,
        Stage::Done => 0,
    }
}

/// How many waits a resolver may still make, the one it is asking for
/// included.
pub open spec fn wait_budget(m: ResolverModel, a: GeoActionModel) -> nat {
    let left: nat = if m.attempts >= MAX_ATTEMPTS {
        0
    } else {
        (MAX_ATTEMPTS - m.attempts) as nat
    };
    let asked: nat = if a is Sleep {
        1
    } else {
        0
    };
    asked + match m.stage {
        Stage::Cache => MAX_ATTEMPTS as nat,
        Stage::Http => left + 1,
        Stage::Sleep => left,
        Stage::Store => 0,
        Stage::Done => 0,
    }
}

/// A resolver sends no more requests and makes no more waits than its budgets.
pub proof fn lemma_drive_keeps_budget(m: ResolverModel, a: GeoActionModel, w: World, fuel: nat)
    requires
        drive(m, a, w, fuel) is Some,
    ensures
        drive(m, a, w, fuel)->Some_0.world.calls <= w.calls + budget(m, a),
        drive(m, a, w, fuel)->Some_0.world.waits.len() <= w.waits.len() + wait_budget(m, a),
    decreases fuel,
{
    if !(a is Finish) {
        let (w2, e) = perform(w, a);
        let (m2, a2) = next(m, e);
        assert(drive(m, a, w, fuel) == drive(m2, a2, w2, (fuel - 1) as nat));
        lemma_drive_keeps_budget(m2, a2, w2, (fuel - 1) as nat);
        assert(w2.calls + budget(m2, a2) <= w.calls + budget(m, a));
        assert(w2.waits.len() + wait_budget(m2, a2) <= w.waits.len() + wait_budget(m, a));
    }
}

/// No resolution sends more than three requests to the service or waits more
/// than three times, whatever the service replies.
pub proof fn law_at_most_three_requests(ip: Option<Seq<char>>, token: Seq<char>, w: World)
    ensures
        run(ip, token, w) matches Some(o) && o.world.calls <= w.calls + MAX_ATTEMPTS
            && o.world.waits.len() <= w.waits.len() + MAX_ATTEMPTS,
{
    law_resolution_ends(ip, token, w);
    let (m, a) = begin(ip, token);
    lemma_drive_keeps_budget(m, a, w, enough());
}

/// Without an address the answer is the unknown country, and neither the
/// cache nor the service is touched.
pub proof fn law_no_address(token: Seq<char>, w: World)
    ensures
        run(None, token, w) == Some(Outcome { result: Ok(unknown_country()), world: w }),
{
}

/// An address that the cache holds is answered from the cache: the service
/// gets no request, nothing waits, and the cache stays as it is.
pub proof fn law_cache_hit(ip: Seq<char>, token: Seq<char>, w: World)
    requires
        w.cache.contains_key(ip),
    ensures
        run(Some(ip), token, w) == Some(Outcome { result: Ok(w.cache[ip]), world: w }),
{
    reveal_with_fuel(drive, 3);
}

/// A confirmed answer goes round through the cache: where the first reply to
/// a missed address has status 200, the resolution returns the trimmed body
/// after one request and leaves it in the cache, and a second resolution of
/// the same address in the world left behind returns the same country with no
/// further request and no wait.
pub proof fn law_cache_round_trip(ip: Seq<char>, token: Seq<char>, w: World)
    requires
        !w.cache.contains_key(ip),
        w.calls < w.replies.len(),
        w.replies[w.calls as int].status == STATUS_OK,
    ensures
        ({
            let country = trimmed(w.replies[w.calls as int].body);
            let after = World { cache: w.cache.insert(ip, country), calls: w.calls + 1, ..w };
            &&& run(Some(ip), token, w) == Some(Outcome { result: Ok(country), world: after })
            &&& run(Some(ip), token, after) == Some(Outcome { result: Ok(country), world: after })
        }),
{
    reveal_with_fuel(drive, 4);
    let country = trimmed(w.replies[w.calls as int].body);
    let after = World { cache: w.cache.insert(ip, country), calls: w.calls + 1, ..w };
    law_cache_hit(ip, token, after);
}

/// A reply with a status other than 200 and 429 gives the unknown country
/// after one request, and the cache stays as it is.
pub proof fn law_unconfirmed_answer_is_not_cached(ip: Seq<char>, token: Seq<char>, w: World)
    requires
        !w.cache.contains_key(ip),
        w.calls < w.replies.len(),
        w.replies[w.calls as int].status != STATUS_OK,
        w.replies[w.calls as int].status != STATUS_TOO_MANY_REQUESTS,
    ensures
        run(Some(ip), token, w) == Some(
            Outcome { result: Ok(unknown_country()), world: World { calls: w.calls + 1, ..w } },
        ),
{
    reveal_with_fuel(drive, 4);
}

/// A rate limit that names no wait fails at once: one request, no wait, no
/// further attempt.
pub proof fn law_rate_limit_without_wait(ip: Seq<char>, token: Seq<char>, w: World)
    requires
        !w.cache.contains_key(ip),
        w.calls < w.replies.len(),
        w.replies[w.calls as int].status == STATUS_TOO_MANY_REQUESTS,
        w.replies[w.calls as int].retry_after is None,
    ensures
        run(Some(ip), token, w) == Some(
            Outcome {
                result: Err(GeoError::RateLimited),
                world: World { calls: w.calls + 1, ..w },
            },
        ),
{
    reveal_with_fuel(drive, 4);
}

/// Two rate limits with waits of `s1` and `s2` seconds and then a reply with
/// status 200: the resolution returns the trimmed body after exactly three
/// requests and exactly these two waits, and stores it.
pub proof fn law_backoff_then_answer(
    ip: Seq<char>,
    token: Seq<char>,
    w: World,
    s1: u64,
    s2: u64,
)
    requires
        !w.cache.contains_key(ip),
        asks_to_wait(w, w.calls, s1),
        asks_to_wait(w, w.calls + 1, s2),
        w.calls + 2 < w.replies.len(),
        w.replies[w.calls as int + 2].status == STATUS_OK,
    ensures
        ({
            let country = trimmed(w.replies[w.calls as int + 2].body);
            run(Some(ip), token, w) == Some(
                Outcome {
                    result: Ok(country),
                    world: World {
                        cache: w.cache.insert(ip, country),
                        calls: w.calls + 3,
                        waits: w.waits.push(s1).push(s2),
                        ..w
                    },
                },
            )
        }),
{
    reveal_with_fuel(drive, 8);
}

/// A service that limits the rate three times in a row, each time naming a
/// wait, exhausts the resolution: it fails with `Exhausted` after exactly
/// three requests, each followed by its wait, and the cache stays as it is.
pub proof fn law_exhaustion(
    ip: Seq<char>,
    token: Seq<char>,
    w: World,
    s1: u64,
    s2: u64,
    s3: u64,
)
    requires
        !w.cache.contains_key(ip),
        asks_to_wait(w, w.calls, s1),
        asks_to_wait(w, w.calls + 1, s2),
        asks_to_wait(w, w.calls + 2, s3),
    ensures
        run(Some(ip), token, w) == Some(
            Outcome {
                result: Err(GeoError::Exhausted),
                world: World {
                    calls: w.calls + 3,
                    waits: w.waits.push(s1).push(s2).push(s3),
                    ..w
                },
            },
        ),
{
    reveal_with_fuel(drive, 9);
}

} // verus!
