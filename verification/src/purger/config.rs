//! The settings of the purge scheduler, read from the environment's variables.

use vstd::prelude::*;
use vstd::string::*;
use crate::settings::{
    number_of, required, required_number, text_of, ConfigError, ConfigErrorModel,
};

verus! {

/// The settings: made once at startup and handed to whatever needs them.
#[derive(Debug)]
pub struct Object {
    /// How many days of log are kept.
    pub log_days_retention: usize,
    /// The host of the database.
    pub pg_fqdn: String,
    /// The user of the database.
    pub pg_username: String,
    /// The password of that user.
    pub pg_password: String,
    /// The name of the database.
    pub pg_dbname: String,
    /// The most connections the pool may open.
    pub pg_max_conns: u32,
    /// How many minutes lie between two purges.
    pub purge_interval_minutes: u64,
}

/// What an `Object` is in contracts: its texts as sequences of characters.
pub struct ObjectModel {
    pub log_days_retention: usize,
    pub pg_fqdn: Seq<char>,
    pub pg_username: Seq<char>,
    pub pg_password: Seq<char>,
    pub pg_dbname: Seq<char>,
    pub pg_max_conns: u32,
    pub purge_interval_minutes: u64,
}

impl View for Object {
    type V = ObjectModel;

    open spec fn view(&self) -> ObjectModel {
        ObjectModel {
            log_days_retention: self.log_days_retention,
            pg_fqdn: self.pg_fqdn@,
            pg_username: self.pg_username@,
            pg_password: self.pg_password@,
            pg_dbname: self.pg_dbname@,
            pg_max_conns: self.pg_max_conns,
            purge_interval_minutes: self.purge_interval_minutes,
        }
    }
}

/// The first variable, in the order of the fields, that is not set or holds
/// no number in its field's range; `None` where every variable is in order.
pub open spec fn failure(vars: Seq<(String, String)>) -> Option<ConfigErrorModel> {
    if number_of(vars, "PVLINK_LOG_RETENTION"@, usize::MAX as nat) is Err {
        Some(number_of(vars, "PVLINK_LOG_RETENTION"@, usize::MAX as nat)->Err_0)
    } else if text_of(vars, "PVLINK_DB_FQDN"@) is Err {
        Some(text_of(vars, "PVLINK_DB_FQDN"@)->Err_0)
    } else if text_of(vars, "PVLINK_DB_USER"@) is Err {
        Some(text_of(vars, "PVLINK_DB_USER"@)->Err_0)
    } else if text_of(vars, "PVLINK_DB_PASSWORD"@) is Err {
        Some(text_of(vars, "PVLINK_DB_PASSWORD"@)->Err_0)
    } else if text_of(vars, "PVLINK_DB_NAME"@) is Err {
        Some(text_of(vars, "PVLINK_DB_NAME"@)->Err_0)
    } else if number_of(vars, "PVLINK_DB_MAX_CONNS"@, u32::MAX as nat) is Err {
        Some(number_of(vars, "PVLINK_DB_MAX_CONNS"@, u32::MAX as nat)->Err_0)
    } else if number_of(vars, "PVLINK_PURGE_INTERVAL_MINUTES"@, u64::MAX as nat) is Err {
        Some(number_of(vars, "PVLINK_PURGE_INTERVAL_MINUTES"@, u64::MAX as nat)->Err_0)
    } else {
        None
    }
}

/// The settings that the variables hold, where every variable is in order.
pub open spec fn settings(vars: Seq<(String, String)>) -> ObjectModel {
    ObjectModel {
        log_days_retention: (number_of(vars, "PVLINK_LOG_RETENTION"@, usize::MAX as nat)->Ok_0) as usize,
        pg_fqdn: text_of(vars, "PVLINK_DB_FQDN"@)->Ok_0,
        pg_username: text_of(vars, "PVLINK_DB_USER"@)->Ok_0,
        pg_password: text_of(vars, "PVLINK_DB_PASSWORD"@)->Ok_0,
        pg_dbname: text_of(vars, "PVLINK_DB_NAME"@)->Ok_0,
        pg_max_conns: (number_of(vars, "PVLINK_DB_MAX_CONNS"@, u32::MAX as nat)->Ok_0) as u32,
        purge_interval_minutes: (number_of(vars, "PVLINK_PURGE_INTERVAL_MINUTES"@, u64::MAX as nat)->Ok_0) as u64,
    }
}

/// Makes the settings from the variables of the environment, given as pairs
/// of name and value. Fails on the first variable, in the order of the fields,
/// that is not set or holds no number in its field's range.
pub fn load(vars: &Vec<(String, String)>) -> (r: Result<Object, ConfigError>)
    ensures
        match r {
            Ok(o) => failure(vars@) is None && o@ == settings(vars@),
            Err(e) => failure(vars@) == Some(e@),
        },
{
    let log_days_retention: usize = required_number(vars, "PVLINK_LOG_RETENTION", usize::MAX as u64)? as usize;
    let pg_fqdn = required(vars, "PVLINK_DB_FQDN")?;
    let pg_username = required(vars, "PVLINK_DB_USER")?;
    let pg_password = required(vars, "PVLINK_DB_PASSWORD")?;
    let pg_dbname = required(vars, "PVLINK_DB_NAME")?;
    let pg_max_conns: u32 = required_number(vars, "PVLINK_DB_MAX_CONNS", u32::MAX as u64)? as u32;
    let purge_interval_minutes: u64 = required_number(vars, "PVLINK_PURGE_INTERVAL_MINUTES", u64::MAX as u64)? as u64;
    Ok(
        Object {
            log_days_retention,
            pg_fqdn,
            pg_username,
            pg_password,
            pg_dbname,
            pg_max_conns,
            purge_interval_minutes,
        },
    )
}

/// The settings in `slot`, which must have been loaded.
pub fn object<'a>(slot: &'a Option<Object>) -> (r: &'a Object)
    requires
        slot is Some,
    ensures
        *slot == Some(*r),
{
    slot.as_ref().unwrap()
}

} // verus!
