//! Fixed values of the analytics service.

use vstd::prelude::*;
use vstd::string::*;

verus! {

/// How many times the geolocation service is asked about one address.
pub const MAX_ATTEMPTS: u32 = 3;

/// The HTTP status of a confirmed answer.
pub const STATUS_OK: u16 = 200;

/// The HTTP status of a rate-limited request.
pub const STATUS_TOO_MANY_REQUESTS: u16 = 429;

/// The country code that stands for "country unknown".
pub open spec fn unknown_country() -> Seq<char> {
    "ZZ"@
}

/// The subject on which click events arrive; the consumer group has the same name.
pub open spec fn queue_name() -> Seq<char> {
    "analytic"@
}

/// The country code that stands for "country unknown".
pub fn country_null() -> (r: String)
    ensures
        r@ == unknown_country(),
{
    String::from_str("ZZ")
}

/// The subject on which click events arrive; the consumer group has the same name.
pub fn analytic_queue_name() -> (r: String)
    ensures
        r@ == queue_name(),
{
    String::from_str("analytic")
}

} // verus!
