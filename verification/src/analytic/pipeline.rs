//! The flow of one message after another: decode, resolve the country, count
//! the click, report. The pipeline names the next outside action and is told
//! its outcome; it stops only when the queue is lost.

use vstd::prelude::*;
use vstd::string::*;
use crate::analytic::clicks::{click_error_text, ClickError, Counted};
use crate::analytic::constants::{country_null, unknown_country};
use crate::analytic::event::{
    decode, decode_error_text, decoded, ClickEvent, ClickEventModel, DecodeError,
};
use crate::analytic::geo::{geo_error_text, GeoError};
use crate::text::opt_text;

verus! {

/// The failure that ends the pipeline.
#[derive(Clone, Copy, Debug, PartialEq, Eq, Structural)]
pub enum PipelineError {
    /// The queue can give no more messages.
    QueueDisconnected,
}

/// A line for the log, as plain values.
#[derive(Debug, PartialEq, Eq)]
#[allow(inconsistent_fields)]
pub enum LogEntry {
    /// A payload was no click event and was dropped.
    Corrupted { error: DecodeError },
    /// The country could not be resolved; the unknown country stands in.
    GeoFailed { ip: String, short_code: String, error: GeoError },
    /// The click could not be counted and is lost.
    ClickFailed { ip: String, short_code: String, error: ClickError },
    /// The click was counted.
    Incremented { ip: String, country: String, short_code: String },
    /// An outcome arrived that answers no pending action and was dropped.
    OutOfTurn,
}

/// What a `LogEntry` is in contracts: its texts as sequences of characters.
#[allow(inconsistent_fields)]
pub enum LogModel {
    Corrupted { error: DecodeError },
    GeoFailed { ip: Seq<char>, short_code: Seq<char>, error: GeoError },
    ClickFailed { ip: Seq<char>, short_code: Seq<char>, error: ClickError },
    Incremented { ip: Seq<char>, country: Seq<char>, short_code: Seq<char> },
    OutOfTurn,
}

impl View for LogEntry {
    type V = LogModel;

    open spec fn view(&self) -> LogModel {
        match *self {
            LogEntry::Corrupted { error } => LogModel::Corrupted { error },
            LogEntry::GeoFailed { ip, short_code, error } => LogModel::GeoFailed {
                ip: ip@,
                short_code: short_code@,
                error,
            },
            LogEntry::ClickFailed { ip, short_code, error } => LogModel::ClickFailed {
                ip: ip@,
                short_code: short_code@,
                error,
            },
            LogEntry::Incremented { ip, country, short_code } => LogModel::Incremented {
                ip: ip@,
                country: country@,
                short_code: short_code@,
            },
            LogEntry::OutOfTurn => LogModel::OutOfTurn,
        }
    }
}

/// The line that an entry makes in the log.
pub open spec fn line_of(l: LogModel) -> Seq<char> {
    match l {
        LogModel::Corrupted { error } => "corrupted message from the broker, error: "@
            + decode_error_text(error),
        LogModel::GeoFailed { ip, short_code, error } =>
            "failed to retrieve the geolocation of the ip; ip: "@ + ip + ", short link: "@
            + short_code + "; error: "@ + geo_error_text(error),
        LogModel::ClickFailed { ip, short_code, error } =>
            "failed to increment a click of a link; ip: "@ + ip + ", short link: "@
            + short_code + "; error: "@ + click_error_text(error),
        LogModel::Incremented { ip, country, short_code } => "incremented click, ip: "@ + ip
            + "; country: "@ + country + ", short link: "@ + short_code,
        LogModel::OutOfTurn => "dropped an outcome that answers no pending task"@,
    }
}

/// The text of the failure that ends the pipeline.
pub open spec fn pipeline_error_text(e: PipelineError) -> Seq<char> {
    "lost connection with the queue"@
}

impl PipelineError {
    /// The text of the failure, for the caller that the pipeline ends to.
    pub fn describe(&self) -> (r: String)
        ensures
            r@ == pipeline_error_text(*self),
    {
        String::from_str("lost connection with the queue")
    }
}

impl LogEntry {
    /// Whether the entry reports a failure; the one that does not reports a
    /// counted click.
    pub fn is_error(&self) -> (b: bool)
        ensures
            b == !(self@ is Incremented),
    {
        match self {
            LogEntry::Incremented { .. } => false,
            _ => true,
        }
    }

    /// The line that the entry makes in the log.
    pub fn line(&self) -> (r: String)
        ensures
            r@ == line_of(self@),
    {
        match self {
            LogEntry::Corrupted { error } => {
                let mut text = String::from_str("corrupted message from the broker, error: ");
                text.append(error.describe().as_str());
                text
            },
            LogEntry::GeoFailed { ip, short_code, error } => {
                let mut text = String::from_str(
                    "failed to retrieve the geolocation of the ip; ip: ",
                );
                text.append(ip.as_str());
                text.append(", short link: ");
                text.append(short_code.as_str());
                text.append("; error: ");
                text.append(error.describe().as_str());
                text
            },
            LogEntry::ClickFailed { ip, short_code, error } => {
                let mut text = String::from_str("failed to increment a click of a link; ip: ");
                text.append(ip.as_str());
                text.append(", short link: ");
                text.append(short_code.as_str());
                text.append("; error: ");
                text.append(error.describe().as_str());
                text
            },
            LogEntry::Incremented { ip, country, short_code } => {
                let mut text = String::from_str("incremented click, ip: ");
                text.append(ip.as_str());
                text.append("; country: ");
                text.append(country.as_str());
                text.append(", short link: ");
                text.append(short_code.as_str());
                text
            },
            LogEntry::OutOfTurn => String::from_str(
                "dropped an outcome that answers no pending task",
            ),
        }
    }
}

/// The outside work that the pipeline asks for.
#[derive(Debug, PartialEq, Eq)]
pub enum Task {
    /// Receive the next message.
    Receive,
    /// Resolve the country of this origin.
    Resolve { ip: Option<String> },
    /// Count a click on this short code from this country.
    Count { short_code: String, country: String },
    /// Stop: the pipeline has ended with this error.
    Stop(PipelineError),
}

/// What a `Task` is in contracts: its texts as sequences of characters.
pub enum TaskModel {
    Receive,
    Resolve { ip: Option<Seq<char>> },
    Count { short_code: Seq<char>, country: Seq<char> },
    Stop(PipelineError),
}

impl View for Task {
    type V = TaskModel;

    open spec fn view(&self) -> TaskModel {
        match *self {
            Task::Receive => TaskModel::Receive,
            Task::Resolve { ip } => TaskModel::Resolve { ip: opt_text(ip) },
            Task::Count { short_code, country } => TaskModel::Count {
                short_code: short_code@,
                country: country@,
            },
            Task::Stop(e) => TaskModel::Stop(e),
        }
    }
}

/// What to write to the log, if anything, and what to do next.
#[derive(Debug, PartialEq, Eq)]
pub struct Directive {
    pub log: Option<LogEntry>,
    pub task: Task,
}

/// What a `Directive` is in contracts: its texts as sequences of characters.
pub struct DirectiveModel {
    pub log: Option<LogModel>,
    pub task: TaskModel,
}

impl View for Directive {
    type V = DirectiveModel;

    open spec fn view(&self) -> DirectiveModel {
        DirectiveModel {
            log: match self.log {
                Some(l) => Some(l@),
                None => None,
            },
            task: self.task@,
        }
    }
}

/// The outcome of an outside task.
#[derive(Debug, PartialEq, Eq)]
pub enum Signal {
    /// A message arrived, with this payload.
    Message(Vec<u8>),
    /// The resolution ended.
    Resolved(Result<String, GeoError>),
    /// The counting ended.
    Counted(Result<Counted, ClickError>),
    /// The queue can give no more messages.
    QueueClosed,
}

/// What a `Signal` is in contracts: its texts as sequences of characters.
pub enum SignalModel {
    Message(Seq<u8>),
    Resolved(Result<Seq<char>, GeoError>),
    Counted(Result<Counted, ClickError>),
    QueueClosed,
}

impl View for Signal {
    type V = SignalModel;

    open spec fn view(&self) -> SignalModel {
        match *self {
            Signal::Message(p) => SignalModel::Message(p@),
            Signal::Resolved(Ok(c)) => SignalModel::Resolved(Ok(c@)),
            Signal::Resolved(Err(e)) => SignalModel::Resolved(Err(e)),
            Signal::Counted(r) => SignalModel::Counted(r),
            Signal::QueueClosed => SignalModel::QueueClosed,
        }
    }
}

/// The pipeline: running, with the event in hand and how far it has come, or
/// terminated.
#[derive(Debug, PartialEq, Eq)]
pub enum Pipeline {
    /// Running, between two messages.
    Waiting,
    /// Running, while the country of this event is resolved.
    Resolving(ClickEvent),
    /// Running, while the click of this event is counted for this country.
    Counting(ClickEvent, String),
    /// The queue was lost.
    Terminated,
}

/// What a `Pipeline` is in contracts: its texts as sequences of characters.
pub enum PipelineModel {
    Waiting,
    Resolving(ClickEventModel),
    Counting(ClickEventModel, Seq<char>),
    Terminated,
}

impl View for Pipeline {
    type V = PipelineModel;

    open spec fn view(&self) -> PipelineModel {
        match *self {
            Pipeline::Waiting => PipelineModel::Waiting,
            Pipeline::Resolving(e) => PipelineModel::Resolving(e@),
            Pipeline::Counting(e, c) => PipelineModel::Counting(e@, c@),
            Pipeline::Terminated => PipelineModel::Terminated,
        }
    }
}

/// How an origin is written in the log: the address, or `N/A` without one.
pub open spec fn origin_label(e: ClickEventModel) -> Seq<char> {
    match e.ip {
        Some(a) => a,
        None => "N/A"@,
    }
}

/// The country to count a click for when its resolution failed: always the
/// unknown country.
pub open spec fn fallback_country(e: ClickEventModel) -> Seq<char> {
    unknown_country()
}

/// What follows a message: a payload that is no event is dropped and logged.
pub open spec fn on_message(payload: Seq<u8>) -> (PipelineModel, DirectiveModel) {
    match decoded(payload) {
        Err(error) => (
            PipelineModel::Waiting,
            DirectiveModel {
                log: Some(LogModel::Corrupted { error }),
                task: TaskModel::Receive,
            },
        ),
        Ok(e) => (
            PipelineModel::Resolving(e),
            DirectiveModel { log: None, task: TaskModel::Resolve { ip: e.ip } },
        ),
    }
}

/// What follows a resolution: the click is counted for the country found, or,
/// after a logged failure, for the fallback country.
pub open spec fn on_resolved(e: ClickEventModel, r: Result<Seq<char>, GeoError>) -> (
    PipelineModel,
    DirectiveModel,
) {
    match r {
        Ok(country) => (
            PipelineModel::Counting(e, country),
            DirectiveModel {
                log: None,
                task: TaskModel::Count { short_code: e.short_code, country },
            },
        ),
        Err(error) => (
            PipelineModel::Counting(e, fallback_country(e)),
            DirectiveModel {
                log: Some(
                    LogModel::GeoFailed {
                        ip: origin_label(e),
                        short_code: e.short_code,
                        error,
                    },
                ),
                task: TaskModel::Count {
                    short_code: e.short_code,
                    country: fallback_country(e),
                },
            },
        ),
    }
}

/// What follows a counting: its outcome is logged and the next message is
/// received, whether the click was counted or lost.
pub open spec fn on_counted(
    e: ClickEventModel,
    country: Seq<char>,
    r: Result<Counted, ClickError>,
) -> (PipelineModel, DirectiveModel) {
    (
        PipelineModel::Waiting,
        DirectiveModel {
            log: Some(
                match r {
                    Ok(_) => LogModel::Incremented {
                        ip: origin_label(e),
                        country,
                        short_code: e.short_code,
                    },
                    Err(error) => LogModel::ClickFailed {
                        ip: origin_label(e),
                        short_code: e.short_code,
                        error,
                    },
                },
            ),
            task: TaskModel::Receive,
        },
    )
}

/// The end of the pipeline.
pub open spec fn stopped() -> (PipelineModel, DirectiveModel) {
    (
        PipelineModel::Terminated,
        DirectiveModel { log: None, task: TaskModel::Stop(PipelineError::QueueDisconnected) },
    )
}

/// The transition of the pipeline. A lost queue terminates it from any state,
/// and a terminated pipeline stays so. An outcome that answers no pending task
/// is dropped and logged, and the next message is received.
pub open spec fn next(p: PipelineModel, s: SignalModel) -> (PipelineModel, DirectiveModel) {
    match (p, s) {
        (PipelineModel::Terminated, _) | (_, SignalModel::QueueClosed) => stopped(),
        (PipelineModel::Waiting, SignalModel::Message(payload)) => on_message(payload),
        (PipelineModel::Resolving(e), SignalModel::Resolved(r)) => on_resolved(e, r),
        (PipelineModel::Counting(e, country), SignalModel::Counted(r)) => on_counted(
            e,
            country,
            r,
        ),
        _ => (
            PipelineModel::Waiting,
            DirectiveModel { log: Some(LogModel::OutOfTurn), task: TaskModel::Receive },
        ),
    }
}

/// How the origin of `event` is written in the log.
pub fn click_ip(event: &ClickEvent) -> (r: String)
    ensures
        r@ == origin_label(event@),
{
    match &event.ip {
        Some(a) => a.clone(),
        None => String::from_str("N/A"),
    }
}

/// The country to count a click for when its resolution failed.
pub fn on_resolver_failure(event: &ClickEvent) -> (r: String)
    ensures
        r@ == fallback_country(event@),
{
    country_null()
}

impl Pipeline {
    /// A pipeline that waits for its first message.
    pub fn new() -> (p: Pipeline)
        ensures
            p@ == PipelineModel::Waiting,
    {
        Pipeline::Waiting
    }

    /// Whether the pipeline is still running.
    pub fn is_running(&self) -> (b: bool)
        ensures
            b == !(self@ is Terminated),
    {
        match self {
            Pipeline::Terminated => false,
            _ => true,
        }
    }

    /// Takes the outcome of the task last asked for; returns the pipeline
    /// after it, what to log and what to do next.
    pub fn step(self, signal: Signal) -> (r: (Pipeline, Directive))
        ensures
            (r.0@, r.1@) == next(self@, signal@),
    {
        match (self, signal) {
            (Pipeline::Terminated, _) | (_, Signal::QueueClosed) => (
                Pipeline::Terminated,
                Directive { log: None, task: Task::Stop(PipelineError::QueueDisconnected) },
            ),
            (Pipeline::Waiting, Signal::Message(payload)) => match decode(payload.as_slice()) {
                Err(error) => (
                    Pipeline::Waiting,
                    Directive { log: Some(LogEntry::Corrupted { error }), task: Task::Receive },
                ),
                Ok(event) => {
                    let ip = match &event.ip {
                        Some(a) => Some(a.clone()),
                        None => None,
                    };
                    (Pipeline::Resolving(event), Directive { log: None, task: Task::Resolve { ip } })
                },
            },
            (Pipeline::Resolving(event), Signal::Resolved(Ok(country))) => {
                let task = Task::Count {
                    short_code: event.short_code.clone(),
                    country: country.clone(),
                };
                (Pipeline::Counting(event, country), Directive { log: None, task })
            },
            (Pipeline::Resolving(event), Signal::Resolved(Err(error))) => {
                let country = on_resolver_failure(&event);
                let log = LogEntry::GeoFailed {
                    ip: click_ip(&event),
                    short_code: event.short_code.clone(),
                    error,
                };
                let task = Task::Count {
                    short_code: event.short_code.clone(),
                    country: country.clone(),
                };
                (Pipeline::Counting(event, country), Directive { log: Some(log), task })
            },
            (Pipeline::Counting(event, country), Signal::Counted(result)) => {
                let ip = click_ip(&event);
                let log = match result {
                    Ok(_) => LogEntry::Incremented { ip, country, short_code: event.short_code },
                    Err(error) => LogEntry::ClickFailed {
                        ip,
                        short_code: event.short_code,
                        error,
                    },
                };
                (Pipeline::Waiting, Directive { log: Some(log), task: Task::Receive })
            },
            _ => (
                Pipeline::Waiting,
                Directive { log: Some(LogEntry::OutOfTurn), task: Task::Receive },
            ),
        }
    }
}

/// Only the loss of the queue terminates the pipeline: after any other
/// outcome a running pipeline is still running, and a terminated one never
/// runs again.
pub proof fn law_only_disconnection_terminates(p: PipelineModel, s: SignalModel)
    ensures
        next(p, s).0 is Terminated <==> (p is Terminated || s is QueueClosed),
        next(p, s).1.task is Stop <==> (p is Terminated || s is QueueClosed),
{
}

/// A payload that is no click event is dropped: the failure is logged, the
/// pipeline waits for the next message, and nothing is resolved or counted.
pub proof fn law_malformed_message_is_skipped(payload: Seq<u8>)
    requires
        decoded(payload) is Err,
    ensures
        next(PipelineModel::Waiting, SignalModel::Message(payload)) == (
            PipelineModel::Waiting,
            DirectiveModel {
                log: Some(LogModel::Corrupted { error: decoded(payload)->Err_0 }),
                task: TaskModel::Receive,
            },
        ),
{
}

/// A failed resolution does not lose the click: it is counted for the unknown
/// country, whatever the failure was.
pub proof fn law_failed_resolution_counts_unknown(e: ClickEventModel, error: GeoError)
    ensures
        next(PipelineModel::Resolving(e), SignalModel::Resolved(Err(error))).1.task
            == (TaskModel::Count { short_code: e.short_code, country: unknown_country() }),
{
}

} // verus!
