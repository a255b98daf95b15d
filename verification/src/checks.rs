//! The rules that payload fields are held to. The tests themselves are the
//! `validator` crate's.

use vstd::prelude::*;
use vstd::string::*;
use crate::web_url::url_parse;

verus! {

/// Whether a text of `len` characters satisfies a length rule with the given
/// bounds; a bound that is `None` is not tested.
pub open spec fn length_within(len: nat, min: Option<u64>, max: Option<u64>) -> bool {
    &&& min matches Some(m) ==> len >= m
    &&& max matches Some(m) ==> len <= m
}

/// Whether `value` satisfies a range rule with the given inclusive bounds; a
/// bound that is `None` is not tested.
pub open spec fn range_within(value: i64, min: Option<i64>, max: Option<i64>) -> bool {
    &&& min matches Some(m) ==> value >= m
    &&& max matches Some(m) ==> value <= m
}

/// Calls `validator::ValidateLength::validate_length` on a text, with no
/// `equal` bound. It counts the characters of the text (`chars().count()`) and
/// holds the count to the bounds that are given.
#[verifier::external_body]
pub(crate) fn validate_length(s: &str, min: Option<u64>, max: Option<u64>) -> (r: bool)
    ensures
        r == length_within(s@.len(), min, max),
{
    validator::ValidateLength::validate_length(s, min, max, None)
}

/// Calls `validator::ValidateUrl::validate_url` on a text: whether
/// `url::Url::parse` accepts it.
#[verifier::external_body]
pub(crate) fn validate_url(s: &str) -> (r: bool)
    ensures
        r == url_parse(s@) is Some,
{
    validator::ValidateUrl::validate_url(s)
}

/// Calls `validator::ValidateRange::validate_range` on an integer with
/// inclusive bounds and no exclusive ones: the value is not greater than `max`
/// and not less than `min`, as far as they are given.
#[verifier::external_body]
pub(crate) fn validate_range(value: i64, min: Option<i64>, max: Option<i64>) -> (r: bool)
    ensures
        r == range_within(value, min, max),
{
    validator::ValidateRange::validate_range(&value, min, max, None, None)
}

} // verus!
