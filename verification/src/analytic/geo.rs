//! Country resolution: a cache-aside lookup against a rate-limited
//! geolocation service, as a machine that names the next outside action and
//! is told its outcome.

use vstd::prelude::*;
use vstd::string::*;
use crate::analytic::constants::{
    country_null, unknown_country, MAX_ATTEMPTS, STATUS_OK, STATUS_TOO_MANY_REQUESTS,
};
use crate::text::{decimal_value, opt_text, parse_decimal, trim_owned, trimmed};

verus! {

/// Why a lookup ended without a country.
#[derive(Clone, Copy, Debug, PartialEq, Eq, Structural)]
pub enum GeoError {
    /// The service limited the rate and named no time to wait.
    RateLimited,
    /// Every attempt was spent on waiting.
    Exhausted,
    /// The time to wait was not an unsigned decimal number of seconds.
    BadRetryAfter,
    /// The cache could not be reached.
    Cache,
    /// The service could not be reached, or its answer could not be read.
    Http,
    /// An outcome arrived that answers no pending action.
    Unexpected,
}

/// The text of a failure, for the log.
pub open spec fn geo_error_text(e: GeoError) -> Seq<char> {
    match e {
        GeoError::RateLimited => "got TOO_MANY_REQUESTS status but no retry after"@,
        GeoError::Exhausted => "after 3 attempts we failed to retrieve the geo data from the ip"@,
        GeoError::BadRetryAfter => "the retry after is not a number of seconds"@,
        GeoError::Cache => "the cache failed"@,
        GeoError::Http => "the geolocation service failed"@,
        GeoError::Unexpected => "an outcome answered no pending action"@,
    }
}

impl GeoError {
    /// The text of the failure, for the log.
    pub fn describe(&self) -> (r: String)
        ensures
            r@ == geo_error_text(*self),
    {
        match self {
            GeoError::RateLimited => String::from_str(
                "got TOO_MANY_REQUESTS status but no retry after",
            ),
            GeoError::Exhausted => String::from_str(
                "after 3 attempts we failed to retrieve the geo data from the ip",
            ),
            GeoError::BadRetryAfter => String::from_str(
                "the retry after is not a number of seconds",
            ),
            GeoError::Cache => String::from_str("the cache failed"),
            GeoError::Http => String::from_str("the geolocation service failed"),
            GeoError::Unexpected => String::from_str("an outcome answered no pending action"),
        }
    }
}

/// What the resolver is waiting for.
#[derive(Clone, Copy, Debug, PartialEq, Eq, Structural)]
pub enum Stage {
    /// The cache's answer to a get.
    Cache,
    /// The service's reply.
    Http,
    /// The end of a wait.
    Sleep,
    /// The cache's acknowledgement of a set.
    Store,
    /// Nothing: the lookup is over.
    Done,
}

/// A reply of the geolocation service, as plain values.
#[derive(Debug, PartialEq, Eq)]
pub struct HttpReply {
    pub status: u16,
    /// The bytes of the `retry-after` header, if the reply has one.
    pub retry_after: Option<Vec<u8>>,
    /// The body; read only where the status is 200.
    pub body: String,
}

/// What a `HttpReply` is in contracts: its texts as sequences of characters.
pub struct HttpReplyModel {
    pub status: u16,
    pub retry_after: Option<Seq<u8>>,
    pub body: Seq<char>,
}

impl View for HttpReply {
    type V = HttpReplyModel;

    open spec fn view(&self) -> HttpReplyModel {
        HttpReplyModel {
            status: self.status,
            retry_after: match self.retry_after {
                Some(h) => Some(h@),
                None => None,
            },
            body: self.body@,
        }
    }
}

/// The outcome of an outside action.
#[derive(Debug, PartialEq, Eq)]
pub enum GeoEvent {
    /// The cache answered a get: the stored country, or nothing.
    CacheAnswer(Option<String>),
    /// A cache operation failed.
    CacheFailed,
    /// The service replied.
    HttpAnswer(HttpReply),
    /// The request failed, or the body could not be read.
    HttpFailed,
    /// The wait is over.
    SleepDone,
    /// The cache took the set.
    CacheStored,
}

/// What a `GeoEvent` is in contracts: its texts as sequences of characters.
pub enum GeoEventModel {
    CacheAnswer(Option<Seq<char>>),
    CacheFailed,
    HttpAnswer(HttpReplyModel),
    HttpFailed,
    SleepDone,
    CacheStored,
}

impl View for GeoEvent {
    type V = GeoEventModel;

    open spec fn view(&self) -> GeoEventModel {
        match *self {
            GeoEvent::CacheAnswer(c) => GeoEventModel::CacheAnswer(opt_text(c)),
            GeoEvent::CacheFailed => GeoEventModel::CacheFailed,
            GeoEvent::HttpAnswer(r) => GeoEventModel::HttpAnswer(r@),
            GeoEvent::HttpFailed => GeoEventModel::HttpFailed,
            GeoEvent::SleepDone => GeoEventModel::SleepDone,
            GeoEvent::CacheStored => GeoEventModel::CacheStored,
        }
    }
}

/// What the caller is to do next.
#[derive(Debug, PartialEq, Eq)]
pub enum GeoAction {
    /// Get `key` from the cache.
    CacheGet { key: String },
    /// Send a GET request to `url`.
    HttpGet { url: String },
    /// Wait for `seconds`.
    Sleep { seconds: u64 },
    /// Set `key` to `value` in the cache.
    CacheSet { key: String, value: String },
    /// The lookup is over, with this result.
    Finish(Result<String, GeoError>),
}

/// What a `GeoAction` is in contracts: its texts as sequences of characters.
pub enum GeoActionModel {
    CacheGet { key: Seq<char> },
    HttpGet { url: Seq<char> },
    Sleep { seconds: u64 },
    CacheSet { key: Seq<char>, value: Seq<char> },
    Finish(Result<Seq<char>, GeoError>),
}

impl View for GeoAction {
    type V = GeoActionModel;

    open spec fn view(&self) -> GeoActionModel {
        match *self {
            GeoAction::CacheGet { key } => GeoActionModel::CacheGet { key: key@ },
            GeoAction::HttpGet { url } => GeoActionModel::HttpGet { url: url@ },
            GeoAction::Sleep { seconds } => GeoActionModel::Sleep { seconds },
            GeoAction::CacheSet { key, value } => GeoActionModel::CacheSet {
                key: key@,
                value: value@,
            },
            GeoAction::Finish(Ok(c)) => GeoActionModel::Finish(Ok(c@)),
            GeoAction::Finish(Err(e)) => GeoActionModel::Finish(Err(e)),
        }
    }
}

/// A lookup in progress.
pub struct GeoResolver {
    ip: String,
    token: String,
    attempts: u32,
    stage: Stage,
    pending: String,
}

/// What a `GeoResolver` is in contracts: its texts as sequences of characters.
pub struct ResolverModel {
    /// The address being looked up.
    pub ip: Seq<char>,
    /// The token sent to the service.
    pub token: Seq<char>,
    /// How many requests were sent to the service.
    pub attempts: nat,
    pub stage: Stage,
    /// The country on its way into the cache.
    pub pending: Seq<char>,
}

impl View for GeoResolver {
    type V = ResolverModel;

    closed spec fn view(&self) -> ResolverModel {
        ResolverModel {
            ip: self.ip@,
            token: self.token@,
            attempts: self.attempts as nat,
            stage: self.stage,
            pending: self.pending@,
        }
    }
}

/// The address of the service's answer for `ip`.
pub open spec fn request_url(ip: Seq<char>, token: Seq<char>) -> Seq<char> {
    "https://api.ipinfo.io/lite/"@ + ip + "/country?token="@ + token
}

/// The machine that has nothing more to ask.
pub open spec fn finished(m: ResolverModel) -> ResolverModel {
    ResolverModel { stage: Stage::Done, ..m }
}

/// The machine that `request` starts with.
pub open spec fn initial(ip: Seq<char>, token: Seq<char>) -> ResolverModel {
    ResolverModel { ip, token, attempts: 0, stage: Stage::Cache, pending: Seq::empty() }
}

/// The machine and first action of a resolution: with no address the answer is
/// the unknown country at once; with one, the cache is asked first.
pub open spec fn begin(ip: Option<Seq<char>>, token: Seq<char>) -> (
    ResolverModel,
    GeoActionModel,
) {
    match ip {
        None => (
            finished(initial(Seq::empty(), token)),
            GeoActionModel::Finish(Ok(unknown_country())),
        ),
        Some(a) => (initial(a, token), GeoActionModel::CacheGet { key: a }),
    }
}

/// What follows a reply of the service.
pub open spec fn after_reply(m: ResolverModel, reply: HttpReplyModel) -> (
    ResolverModel,
    GeoActionModel,
) {
    if reply.status == STATUS_TOO_MANY_REQUESTS {
        match reply.retry_after {
            None => (finished(m), GeoActionModel::Finish(Err(GeoError::RateLimited))),
            Some(h) => match decimal_value(h, u64::MAX as nat) {
                None => (finished(m), GeoActionModel::Finish(Err(GeoError::BadRetryAfter))),
                Some(s) => (
                    ResolverModel { stage: Stage::Sleep, ..m },
                    GeoActionModel::Sleep { seconds: s as u64 },
                ),
            },
        }
    } else if reply.status == STATUS_OK {
        (
            ResolverModel { stage: Stage::Store, pending: trimmed(reply.body), ..m },
            GeoActionModel::CacheSet { key: m.ip, value: trimmed(reply.body) },
        )
    } else {
        (finished(m), GeoActionModel::Finish(Ok(unknown_country())))
    }
}

/// The request to the service that makes the number of attempts `attempt`.
pub open spec fn ask_service(m: ResolverModel, attempt: nat) -> (ResolverModel, GeoActionModel) {
    (
        ResolverModel { stage: Stage::Http, attempts: attempt, ..m },
        GeoActionModel::HttpGet { url: request_url(m.ip, m.token) },
    )
}

/// The transition of the resolver: the machine after `e`, and what it asks for.
pub open spec fn next(m: ResolverModel, e: GeoEventModel) -> (ResolverModel, GeoActionModel) {
    match (m.stage, e) {
        (Stage::Cache, GeoEventModel::CacheAnswer(Some(c))) => (
            finished(m),
            GeoActionModel::Finish(Ok(c)),
        ),
        (Stage::Cache, GeoEventModel::CacheAnswer(None)) => ask_service(m, 1),
        (Stage::Cache, GeoEventModel::CacheFailed) => (
            finished(m),
            GeoActionModel::Finish(Err(GeoError::Cache)),
        ),
        (Stage::Http, GeoEventModel::HttpAnswer(reply)) => after_reply(m, reply),
        (Stage::Http, GeoEventModel::HttpFailed) => (
            finished(m),
            GeoActionModel::Finish(Err(GeoError::Http)),
        ),
        (Stage::Sleep, GeoEventModel::SleepDone) => if m.attempts >= MAX_ATTEMPTS {
            (finished(m), GeoActionModel::Finish(Err(GeoError::Exhausted)))
        } else {
            ask_service(m, m.attempts + 1)
        },
        (Stage::Store, GeoEventModel::CacheStored) => (
            finished(m),
            GeoActionModel::Finish(Ok(m.pending)),
        ),
        (Stage::Store, GeoEventModel::CacheFailed) => (
            finished(m),
            GeoActionModel::Finish(Err(GeoError::Cache)),
        ),
        _ => (finished(m), GeoActionModel::Finish(Err(GeoError::Unexpected))),
    }
}

/// Builds the address of the service's answer for `ip`.
pub fn build_url(ip: &str, token: &str) -> (r: String)
    ensures
        r@ == request_url(ip@, token@),
{
    let mut url = String::from_str("https://api.ipinfo.io/lite/");
    url.append(ip);
    url.append("/country?token=");
    url.append(token);
    url
}

/// Starts the lookup of a known address: the cache is asked first.
pub fn request(ip: &str, token: &str) -> (r: (GeoResolver, GeoAction))
    ensures
        (r.0@, r.1@) == begin(Some(ip@), token@),
{
    let resolver = GeoResolver {
        ip: ip.to_owned(),
        token: token.to_owned(),
        attempts: 0,
        stage: Stage::Cache,
        pending: String::new(),
    };
    (resolver, GeoAction::CacheGet { key: ip.to_owned() })
}

/// Starts a resolution. Without an address it is over at once, with the
/// unknown country and no outside action.
pub fn resolve(ip: Option<&str>, token: &str) -> (r: (GeoResolver, GeoAction))
    ensures
        (r.0@, r.1@) == begin(
            match ip {
                Some(a) => Some(a@),
                None => None,
            },
            token@,
        ),
{
    match ip {
        Some(a) => request(a, token),
        None => {
            let resolver = GeoResolver {
                ip: String::new(),
                token: token.to_owned(),
                attempts: 0,
                stage: Stage::Done,
                pending: String::new(),
            };
            (resolver, GeoAction::Finish(Ok(country_null())))
        },
    }
}

impl GeoResolver {
    /// What the resolver is waiting for.
    pub fn stage(&self) -> (s: Stage)
        ensures
            s == self@.stage,
    {
        self.stage
    }

    /// How many requests were sent to the service.
    pub fn attempts(&self) -> (n: u32)
        ensures
            n == self@.attempts,
    {
        self.attempts
    }

    fn finish(&mut self, result: Result<String, GeoError>) -> (a: GeoAction)
        ensures
            final(self)@ == finished(old(self)@),
            a == GeoAction::Finish(result),
    {
        self.stage = Stage::Done;
        GeoAction::Finish(result)
    }

    fn ask(&mut self, attempt: u32) -> (a: GeoAction)
        ensures
            (final(self)@, a@) == ask_service(old(self)@, attempt as nat),
    {
        self.stage = Stage::Http;
        self.attempts = attempt;
        GeoAction::HttpGet { url: build_url(self.ip.as_str(), self.token.as_str()) }
    }

    fn reply(&mut self, reply: HttpReply) -> (a: GeoAction)
        ensures
            (final(self)@, a@) == after_reply(old(self)@, reply@),
    {
        if reply.status == STATUS_TOO_MANY_REQUESTS {
            match reply.retry_after {
                None => self.finish(Err(GeoError::RateLimited)),
                Some(header) => match parse_decimal(header.as_slice(), u64::MAX) {
                    None => self.finish(Err(GeoError::BadRetryAfter)),
                    Some(seconds) => {
                        self.stage = Stage::Sleep;
                        GeoAction::Sleep { seconds }
                    },
                },
            }
        } else if reply.status == STATUS_OK {
            let country = trim_owned(reply.body.as_str());
            self.stage = Stage::Store;
            self.pending = country.clone();
            GeoAction::CacheSet { key: self.ip.clone(), value: country }
        } else {
            self.finish(Ok(country_null()))
        }
    }

    /// Takes the outcome of the action last asked for and names the next one.
    /// An outcome that answers no pending action ends the lookup with
    /// `GeoError::Unexpected`.
    pub fn step(&mut self, event: GeoEvent) -> (a: GeoAction)
        ensures
            (final(self)@, a@) == next(old(self)@, event@),
    {
        match (self.stage, event) {
            (Stage::Cache, GeoEvent::CacheAnswer(Some(country))) => self.finish(Ok(country)),
            (Stage::Cache, GeoEvent::CacheAnswer(None)) => self.ask(1),
            (Stage::Cache, GeoEvent::CacheFailed) => self.finish(Err(GeoError::Cache)),
            (Stage::Http, GeoEvent::HttpAnswer(reply)) => self.reply(reply),
            (Stage::Http, GeoEvent::HttpFailed) => self.finish(Err(GeoError::Http)),
            (Stage::Sleep, GeoEvent::SleepDone) => {
                if self.attempts >= MAX_ATTEMPTS {
                    self.finish(Err(GeoError::Exhausted))
                } else {
                    let attempt: u32 = self.attempts + 1;
                    self.ask(attempt)
                }
            },
            (Stage::Store, GeoEvent::CacheStored) => {
                let country = self.pending.clone();
                self.finish(Ok(country))
            },
            (Stage::Store, GeoEvent::CacheFailed) => self.finish(Err(GeoError::Cache)),
            _ => self.finish(Err(GeoError::Unexpected)),
        }
    }
}

} // verus!
