//! Reading settings from the variables of the environment, handed over as
//! pairs of name and value.

use vstd::prelude::*;
use vstd::string::*;
use vstd::utf8::encode_utf8;
use crate::text::{decimal_value, parse_decimal};

verus! {

/// Why the settings could not be made.
#[derive(Debug, PartialEq, Eq)]
pub enum ConfigError {
    /// The variable is not set.
    Missing { name: String },
    /// The variable's value is not an unsigned decimal number in range.
    Bad { name: String },
}

/// What a `ConfigError` is in contracts: its texts as sequences of characters.
pub enum ConfigErrorModel {
    Missing { name: Seq<char> },
    Bad { name: Seq<char> },
}

impl View for ConfigError {
    type V = ConfigErrorModel;

    open spec fn view(&self) -> ConfigErrorModel {
        match *self {
            ConfigError::Missing { name } => ConfigErrorModel::Missing { name: name@ },
            ConfigError::Bad { name } => ConfigErrorModel::Bad { name: name@ },
        }
    }
}

/// The text of an error.
pub open spec fn message_of(e: ConfigErrorModel) -> Seq<char> {
    match e {
        ConfigErrorModel::Missing { name } => "missing '"@ + name + "'"@,
        ConfigErrorModel::Bad { name } => "bad '"@ + name + "' value"@,
    }
}

impl ConfigError {
    /// The text of the error, which names the variable.
    pub fn message(&self) -> (r: String)
        ensures
            r@ == message_of(self@),
    {
        match self {
            ConfigError::Missing { name } => {
                let mut text = String::from_str("missing '");
                text.append(name.as_str());
                text.append("'");
                text
            },
            ConfigError::Bad { name } => {
                let mut text = String::from_str("bad '");
                text.append(name.as_str());
                text.append("' value");
                text
            },
        }
    }
}

/// The value of the first variable called `name`.
pub open spec fn lookup(vars: Seq<(String, String)>, name: Seq<char>) -> Option<Seq<char>>
    decreases vars.len(),
{
    if vars.len() == 0 {
        None
    } else if vars[0].0@ == name {
        Some(vars[0].1@)
    } else {
        lookup(vars.subrange(1, vars.len() as int), name)
    }
}

/// The text that the variable `name` must hold.
pub open spec fn text_of(vars: Seq<(String, String)>, name: Seq<char>) -> Result<
    Seq<char>,
    ConfigErrorModel,
> {
    match lookup(vars, name) {
        Some(v) => Ok(v),
        None => Err(ConfigErrorModel::Missing { name }),
    }
}

/// The number up to `max` that the variable `name` must hold.
pub open spec fn number_of(vars: Seq<(String, String)>, name: Seq<char>, max: nat) -> Result<
    nat,
    ConfigErrorModel,
> {
    match lookup(vars, name) {
        None => Err(ConfigErrorModel::Missing { name }),
        Some(v) => match decimal_value(encode_utf8(v), max) {
            Some(n) => Ok(n),
            None => Err(ConfigErrorModel::Bad { name }),
        },
    }
}

/// Finds the value of the first variable called `name`.
pub fn find<'a>(vars: &'a Vec<(String, String)>, name: &str) -> (r: Option<&'a String>)
    ensures
        match r {
            Some(v) => lookup(vars@, name@) == Some(v@),
            None => lookup(vars@, name@) is None,
        },
{
    let key = name.to_owned();
    let mut i: usize = 0;
    proof {
        assert(vars@.subrange(0, vars@.len() as int) =~= vars@);
    }
    while i < vars.len()
        invariant
            i <= vars.len(),
            key@ == name@,
            lookup(vars@, name@) == lookup(vars@.subrange(i as int, vars@.len() as int), name@),
        decreases vars.len() - i,
    {
        let ghost rest = vars@.subrange(i as int, vars@.len() as int);
        proof {
            assert(rest[0] == vars@[i as int]);
            assert(rest.subrange(1, rest.len() as int) =~= vars@.subrange(
                i + 1,
                vars@.len() as int,
            ));
        }
        if vars[i].0 == key {
            return Some(&vars[i].1);
        }
        i = i + 1;
    }
    None
}

/// The text of the variable `name`, which must be set.
pub fn required(vars: &Vec<(String, String)>, name: &str) -> (r: Result<String, ConfigError>)
    ensures
        match r {
            Ok(v) => text_of(vars@, name@) == Ok::<Seq<char>, ConfigErrorModel>(v@),
            Err(e) => text_of(vars@, name@) == Err::<Seq<char>, ConfigErrorModel>(e@),
        },
{
    match find(vars, name) {
        Some(v) => Ok(v.clone()),
        None => Err(ConfigError::Missing { name: name.to_owned() }),
    }
}

/// The number of the variable `name`, which must be set to an unsigned
/// decimal number no larger than `max`.
pub fn required_number(vars: &Vec<(String, String)>, name: &str, max: u64) -> (r: Result<
    u64,
    ConfigError,
>)
    ensures
        match r {
            Ok(n) => number_of(vars@, name@, max as nat) == Ok::<nat, ConfigErrorModel>(n as nat),
            Err(e) => number_of(vars@, name@, max as nat) == Err::<nat, ConfigErrorModel>(e@),
        },
{
    match find(vars, name) {
        None => Err(ConfigError::Missing { name: name.to_owned() }),
        Some(v) => match parse_decimal(v.as_str().as_bytes(), max) {
            Some(n) => Ok(n),
            None => Err(ConfigError::Bad { name: name.to_owned() }),
        },
    }
}

} // verus!
