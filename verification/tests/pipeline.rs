use click_analytics::analytic::clicks::{
    increment_link, ClickError, Counted, DbAction, DbEvent,
};
use click_analytics::analytic::event::{ClickEvent, DecodeError};
use click_analytics::analytic::geo::{resolve, GeoAction, GeoError, GeoEvent, HttpReply};
use click_analytics::analytic::pipeline::{
    click_ip, on_resolver_failure, Directive, LogEntry, Pipeline, PipelineError, Signal, Task,
};

struct Surroundings {
    cache: Vec<(String, String)>,
    replies: Vec<(u16, &'static str)>,
    http_calls: usize,
    link_total: i64,
    fr_clicks: Option<i64>,
    aggregations: usize,
    log: Vec<LogEntry>,
}

fn surroundings() -> Surroundings {
    Surroundings {
        cache: Vec::new(),
        replies: vec![(200, "FR")],
        http_calls: 0,
        link_total: 41,
        fr_clicks: None,
        aggregations: 0,
        log: Vec::new(),
    }
}

fn resolve_country(world: &mut Surroundings, ip: Option<String>) -> Result<String, GeoError> {
    let (mut resolver, mut action) = resolve(ip.as_deref(), "tok");
    loop {
        let event = match action {
            GeoAction::Finish(result) => return result,
            GeoAction::CacheGet { key } => GeoEvent::CacheAnswer(
                world.cache.iter().find(|p| p.0 == key).map(|p| p.1.clone()),
            ),
            GeoAction::HttpGet { .. } => {
                world.http_calls += 1;
                match world.replies.get(world.http_calls - 1) {
                    Some(r) => GeoEvent::HttpAnswer(HttpReply {
                        status: r.0,
                        retry_after: None,
                        body: r.1.to_string(),
                    }),
                    None => GeoEvent::HttpFailed,
                }
            }
            GeoAction::Sleep { .. } => GeoEvent::SleepDone,
            GeoAction::CacheSet { key, value } => {
                world.cache.push((key, value));
                GeoEvent::CacheStored
            }
        };
        action = resolver.step(event);
    }
}

fn count(world: &mut Surroundings, short_code: &str, country: &str) -> Result<Counted, ClickError> {
    let (mut aggregator, mut action) = increment_link(short_code, country);
    let mut total = world.link_total;
    let mut fr = world.fr_clicks;
    loop {
        let event = match action {
            DbAction::Finish(result) => return result,
            DbAction::Begin => DbEvent::Opened,
            DbAction::FindLink { short_code } => {
                DbEvent::Link(if short_code == "abc123" { Some(7) } else { None })
            }
            DbAction::IncrementTotal { link_id } => {
                assert_eq!(link_id, 7);
                total += 1;
                DbEvent::Executed
            }
            DbAction::UpsertCountry { link_id, country } => {
                assert_eq!((link_id, country.as_str()), (7, "FR"));
                fr = Some(fr.map_or(1, |n| n + 1));
                DbEvent::Executed
            }
            DbAction::Commit => {
                world.link_total = total;
                world.fr_clicks = fr;
                world.aggregations += 1;
                DbEvent::Committed
            }
        };
        action = aggregator.step(event);
    }
}

fn feed(world: &mut Surroundings, pipeline: Pipeline, first: Signal) -> Pipeline {
    let (mut pipeline, mut directive) = pipeline.step(first);
    loop {
        let Directive { log, task } = directive;
        if let Some(entry) = log {
            world.log.push(entry);
        }
        let signal = match task {
            Task::Receive | Task::Stop(_) => return pipeline,
            Task::Resolve { ip } => Signal::Resolved(resolve_country(world, ip)),
            Task::Count { short_code, country } => {
                Signal::Counted(count(world, &short_code, &country))
            }
        };
        let next = pipeline.step(signal);
        pipeline = next.0;
        directive = next.1;
    }
}

#[test]
fn end_to_end_scenario() {
    let mut world = surroundings();
    let payload = br#"{"i":"203.0.113.5","l":"abc123"}"#.to_vec();
    let pipeline = feed(&mut world, Pipeline::new(), Signal::Message(payload));
    assert_eq!(pipeline, Pipeline::Waiting);
    assert!(pipeline.is_running());
    assert_eq!(world.cache, vec![("203.0.113.5".to_string(), "FR".to_string())]);
    assert_eq!(world.link_total, 42);
    assert_eq!(world.fr_clicks, Some(1));
    assert_eq!(
        world.log,
        vec![LogEntry::Incremented {
            ip: "203.0.113.5".to_string(),
            country: "FR".to_string(),
            short_code: "abc123".to_string(),
        }]
    );
    let again = br#"{"i":"203.0.113.5","l":"abc123"}"#.to_vec();
    feed(&mut world, pipeline, Signal::Message(again));
    assert_eq!(world.http_calls, 1);
    assert_eq!(world.link_total, 43);
    assert_eq!(world.fr_clicks, Some(2));
}

#[test]
fn malformed_message_resilience() {
    let mut world = surroundings();
    let pipeline = feed(&mut world, Pipeline::new(), Signal::Message(b"not json".to_vec()));
    assert!(pipeline.is_running());
    assert_eq!(world.aggregations, 0);
    let valid = br#"{"i":"203.0.113.5","l":"abc123"}"#.to_vec();
    let pipeline = feed(&mut world, pipeline, Signal::Message(valid));
    assert!(pipeline.is_running());
    assert_eq!(world.aggregations, 1);
    let failures = world.log.iter().filter(|l| matches!(l, LogEntry::Corrupted { .. })).count();
    assert_eq!(failures, 1);
    assert_eq!(world.log[0], LogEntry::Corrupted { error: DecodeError::Malformed });
    assert_eq!(world.log.len(), 2);
}

#[test]
fn failed_resolution_counts_for_the_unknown_country() {
    let event = ClickEvent { ip: Some("198.51.100.7".to_string()), short_code: "abc123".to_string() };
    let (pipeline, directive) =
        Pipeline::Resolving(event).step(Signal::Resolved(Err(GeoError::Exhausted)));
    assert_eq!(
        directive,
        Directive {
            log: Some(LogEntry::GeoFailed {
                ip: "198.51.100.7".to_string(),
                short_code: "abc123".to_string(),
                error: GeoError::Exhausted,
            }),
            task: Task::Count { short_code: "abc123".to_string(), country: "ZZ".to_string() },
        }
    );
    assert!(matches!(pipeline, Pipeline::Counting(_, ref c) if c == "ZZ"));
}

#[test]
fn event_without_origin_is_resolved_without_address() {
    let (pipeline, directive) = Pipeline::new().step(Signal::Message(br#"{"l":"abc123"}"#.to_vec()));
    assert_eq!(directive, Directive { log: None, task: Task::Resolve { ip: None } });
    let (pipeline, directive) = pipeline.step(Signal::Resolved(Ok("ZZ".to_string())));
    assert_eq!(
        directive,
        Directive {
            log: None,
            task: Task::Count { short_code: "abc123".to_string(), country: "ZZ".to_string() },
        }
    );
    let (pipeline, directive) = pipeline.step(Signal::Counted(Ok(Counted::LinkNotFound)));
    assert_eq!(pipeline, Pipeline::Waiting);
    assert_eq!(
        directive.log,
        Some(LogEntry::Incremented {
            ip: "N/A".to_string(),
            country: "ZZ".to_string(),
            short_code: "abc123".to_string(),
        })
    );
    assert_eq!(directive.task, Task::Receive);
}

#[test]
fn lost_click_is_logged_and_the_loop_goes_on() {
    let event = ClickEvent { ip: None, short_code: "abc123".to_string() };
    let (pipeline, directive) = Pipeline::Counting(event, "US".to_string())
        .step(Signal::Counted(Err(ClickError::Database)));
    assert_eq!(pipeline, Pipeline::Waiting);
    assert_eq!(
        directive,
        Directive {
            log: Some(LogEntry::ClickFailed {
                ip: "N/A".to_string(),
                short_code: "abc123".to_string(),
                error: ClickError::Database,
            }),
            task: Task::Receive,
        }
    );
}

#[test]
fn lost_queue_terminates() {
    let (pipeline, directive) = Pipeline::new().step(Signal::QueueClosed);
    assert_eq!(pipeline, Pipeline::Terminated);
    assert!(!pipeline.is_running());
    assert_eq!(directive, Directive { log: None, task: Task::Stop(PipelineError::QueueDisconnected) });
    let (pipeline, directive) = pipeline.step(Signal::Message(br#"{"l":"abc123"}"#.to_vec()));
    assert_eq!(pipeline, Pipeline::Terminated);
    assert_eq!(directive.task, Task::Stop(PipelineError::QueueDisconnected));
}

#[test]
fn outcome_out_of_turn_is_dropped() {
    let (pipeline, directive) = Pipeline::new().step(Signal::Counted(Ok(Counted::Applied)));
    assert_eq!(pipeline, Pipeline::Waiting);
    assert_eq!(directive, Directive { log: Some(LogEntry::OutOfTurn), task: Task::Receive });
}

#[test]
fn fallback_policy_is_the_unknown_country() {
    let with = ClickEvent { ip: Some("198.51.100.7".to_string()), short_code: "a".to_string() };
    let without = ClickEvent { ip: None, short_code: "a".to_string() };
    assert_eq!(on_resolver_failure(&with), "ZZ");
    assert_eq!(on_resolver_failure(&without), "ZZ");
    assert_eq!(click_ip(&with), "198.51.100.7");
    assert_eq!(click_ip(&without), "N/A");
}

#[test]
fn log_lines_have_fixed_texts() {
    let counted = LogEntry::Incremented {
        ip: "203.0.113.5".to_string(),
        country: "FR".to_string(),
        short_code: "abc123".to_string(),
    };
    assert_eq!(counted.line(), "incremented click, ip: 203.0.113.5; country: FR, short link: abc123");
    assert!(!counted.is_error());
    let geo = LogEntry::GeoFailed {
        ip: "N/A".to_string(),
        short_code: "abc123".to_string(),
        error: GeoError::Exhausted,
    };
    assert_eq!(
        geo.line(),
        "failed to retrieve the geolocation of the ip; ip: N/A, short link: abc123; error: after 3 attempts we failed to retrieve the geo data from the ip"
    );
    assert!(geo.is_error());
    let lost = LogEntry::ClickFailed {
        ip: "203.0.113.5".to_string(),
        short_code: "abc123".to_string(),
        error: ClickError::Database,
    };
    assert_eq!(
        lost.line(),
        "failed to increment a click of a link; ip: 203.0.113.5, short link: abc123; error: the database failed"
    );
    assert!(lost.is_error());
    let corrupted = LogEntry::Corrupted { error: DecodeError::MissingShortCode };
    assert_eq!(corrupted.line(), "corrupted message from the broker, error: missing field `l`");
    assert!(corrupted.is_error());
    assert!(LogEntry::OutOfTurn.is_error());
    assert_eq!(PipelineError::QueueDisconnected.describe(), "lost connection with the queue");
    assert_eq!(GeoError::RateLimited.describe(), "got TOO_MANY_REQUESTS status but no retry after");
}
