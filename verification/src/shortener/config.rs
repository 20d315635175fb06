//! The settings of the redirect server, read from the environment's variables.

use vstd::prelude::*;
use vstd::string::*;
use crate::settings::{
    number_of, required, required_number, text_of, ConfigError, ConfigErrorModel,
};

verus! {

/// The settings: made once at startup and handed to whatever needs them.
#[derive(Debug)]
pub struct Object {
    /// How many days of log are kept.
    pub log_days_retention: usize,
    /// The server's own host name.
    pub server_name: String,
    /// Where the root path forwards to.
    pub fallback_url: String,
    /// The host of the database.
    pub pg_fqdn: String,
    /// The user of the database.
    pub pg_username: String,
    /// The password of that user.
    pub pg_password: String,
    /// The name of the database.
    pub pg_dbname: String,
    /// The most connections the pool may open.
    pub pg_max_conns: u32,
    /// The host of the cache.
    pub cache_fqdn: String,
    /// The host of the queue of click events.
    pub analytic_queue_fqdn: String,
}

/// What an `Object` is in contracts: its texts as sequences of characters.
pub struct ObjectModel {
    pub log_days_retention: usize,
    pub server_name: Seq<char>,
    pub fallback_url: Seq<char>,
    pub pg_fqdn: Seq<char>,
    pub pg_username: Seq<char>,
    pub pg_password: Seq<char>,
    pub pg_dbname: Seq<char>,
    pub pg_max_conns: u32,
    pub cache_fqdn: Seq<char>,
    pub analytic_queue_fqdn: Seq<char>,
}

impl View for Object {
    type V = ObjectModel;

    open spec fn view(&self) -> ObjectModel {
        ObjectModel {
            log_days_retention: self.log_days_retention,
            server_name: self.server_name@,
            fallback_url: self.fallback_url@,
            pg_fqdn: self.pg_fqdn@,
            pg_username: self.pg_username@,
            pg_password: self.pg_password@,
            pg_dbname: self.pg_dbname@,
            pg_max_conns: self.pg_max_conns,
            cache_fqdn: self.cache_fqdn@,
            analytic_queue_fqdn: self.analytic_queue_fqdn@,
        }
    }
}

/// The first variable, in the order of the fields, that is not set or holds
/// no number in its field's range; `None` where every variable is in order.
pub open spec fn failure(vars: Seq<(String, String)>) -> Option<ConfigErrorModel> {
    if number_of(vars, "PVLINK_LOG_RETENTION"@, usize::MAX as nat) is Err {
        Some(number_of(vars, "PVLINK_LOG_RETENTION"@, usize::MAX as nat)->Err_0)
    } else if text_of(vars, "PVLINK_ROOT_DOMAIN"@) is Err {
        Some(text_of(vars, "PVLINK_ROOT_DOMAIN"@)->Err_0)
    } else if text_of(vars, "PVLINK_FALLBACK_URL"@) is Err {
        Some(text_of(vars, "PVLINK_FALLBACK_URL"@)->Err_0)
    } else if text_of(vars, "PVLINK_DB_FQDN"@) is Err {
        Some(text_of(vars, "PVLINK_DB_FQDN"@)->Err_0)
    } else if text_of(vars, "PVLINK_DB_USER"@) is Err {
        Some(text_of(vars, "PVLINK_DB_USER"@)->Err_0)
    } else if text_of(vars, "PVLINK_DB_PASSWORD"@) is Err {
        Some(text_of(vars, "PVLINK_DB_PASSWORD"@)->Err_0)
    } else if text_of(vars, "PVLINK_DB_NAME"@) is Err {
        Some(text_of(vars, "PVLINK_DB_NAME"@)->Err_0)
    } else if number_of(vars, "PVLINK_DB_MAX_CONNS"@, u32::MAX as nat) is Err {
        Some(number_of(vars, "PVLINK_DB_MAX_CONNS"@, u32::MAX as nat)->Err_0)
    } else if text_of(vars, "PVLINK_CACHE_FQDN"@) is Err {
        Some(text_of(vars, "PVLINK_CACHE_FQDN"@)->Err_0)
    } else if text_of(vars, "PVLINK_ANALYTIC_QUEUE_FQDN"@) is Err {
        Some(text_of(vars, "PVLINK_ANALYTIC_QUEUE_FQDN"@)->Err_0)
    } else {
        None
    }
}

/// The settings that the variables hold, where every variable is in order.
pub open spec fn settings(vars: Seq<(String, String)>) -> ObjectModel {
    ObjectModel {
        log_days_retention: (number_of(vars, "PVLINK_LOG_RETENTION"@, usize::MAX as nat)->Ok_0) as usize,
        server_name: text_of(vars, "PVLINK_ROOT_DOMAIN"@)->Ok_0,
        fallback_url: text_of(vars, "PVLINK_FALLBACK_URL"@)->Ok_0,
        pg_fqdn: text_of(vars, "PVLINK_DB_FQDN"@)->Ok_0,
        pg_username: text_of(vars, "PVLINK_DB_USER"@)->Ok_0,
        pg_password: text_of(vars, "PVLINK_DB_PASSWORD"@)->Ok_0,
        pg_dbname: text_of(vars, "PVLINK_DB_NAME"@)->Ok_0,
        pg_max_conns: (number_of(vars, "PVLINK_DB_MAX_CONNS"@, u32::MAX as nat)->Ok_0) as u32,
        cache_fqdn: text_of(vars, "PVLINK_CACHE_FQDN"@)->Ok_0,
        analytic_queue_fqdn: text_of(vars, "PVLINK_ANALYTIC_QUEUE_FQDN"@)->Ok_0,
    }
}

/// Makes the settings from the variables of the environment, given as pairs
/// of name and value. Fails on the first variable, in the order of the fields,
/// that is not set or holds no number in its field's range.
pub fn load(vars: &Vec<(String, String)>) -> (r: Result<Object, ConfigError>)
    ensures
        match r {
            Ok(o) => failure(vars@) is None && o@ == settings(vars@),
            Err(e) => failure(vars@) == Some(e@),
        },
{
    let log_days_retention: usize = required_number(vars, "PVLINK_LOG_RETENTION", usize::MAX as u64)? as usize;
    let server_name = required(vars, "PVLINK_ROOT_DOMAIN")?;
    let fallback_url = required(vars, "PVLINK_FALLBACK_URL")?;
    let pg_fqdn = required(vars, "PVLINK_DB_FQDN")?;
    let pg_username = required(vars, "PVLINK_DB_USER")?;
    let pg_password = required(vars, "PVLINK_DB_PASSWORD")?;
    let pg_dbname = required(vars, "PVLINK_DB_NAME")?;
    let pg_max_conns: u32 = required_number(vars, "PVLINK_DB_MAX_CONNS", u32::MAX as u64)? as u32;
    let cache_fqdn = required(vars, "PVLINK_CACHE_FQDN")?;
    let analytic_queue_fqdn = required(vars, "PVLINK_ANALYTIC_QUEUE_FQDN")?;
    Ok(
        Object {
            log_days_retention,
            server_name,
            fallback_url,
            pg_fqdn,
            pg_username,
            pg_password,
            pg_dbname,
            pg_max_conns,
            cache_fqdn,
            analytic_queue_fqdn,
        },
    )
}

/// The settings in `slot`, which must have been loaded.
pub fn object<'a>(slot: &'a Option<Object>) -> (r: &'a Object)
    requires
        slot is Some,
    ensures
        *slot == Some(*r),
{
    slot.as_ref().unwrap()
}

} // verus!
