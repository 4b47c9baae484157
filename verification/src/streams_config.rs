//! DynamoDB Streams service configuration, built from the values of its
//! environment variables.

use vstd::prelude::*;
use crate::text::{own, parse_u64, spec_parse_u64, str_eq};

verus! {

/// DynamoDB Streams service configuration.
#[derive(Debug, Clone)]
pub struct DynamoDBStreamsConfig {
    /// Skip signature validation (default: true for local dev).
    pub skip_signature_validation: bool,
    /// Default AWS region.
    pub default_region: String,
    /// Default account ID for ARNs.
    pub default_account_id: String,
    /// Maximum records per shard (0 = unlimited).
    pub max_records_per_shard: usize,
    /// Maximum record age in seconds (0 = unlimited).
    pub max_record_age_seconds: u64,
}

/// The spellings of a true boolean flag.
pub open spec fn is_true_flag(v: Seq<char>) -> bool {
    v == "1"@ || v == "true"@ || v == "yes"@ || v == "TRUE"@ || v == "YES"@
}

/// A boolean flag's value: `default` when unset, else whether it is spelled true.
pub open spec fn flag_value(v: Option<Seq<char>>, default: bool) -> bool {
    match v {
        Some(s) => is_true_flag(s),
        None => default,
    }
}

/// A count's value: the parsed `usize`, or 0 when unset or unparsable.
pub open spec fn count_value(v: Option<Seq<char>>) -> usize {
    match v {
        Some(s) => match spec_parse_u64(s) {
            Some(n) => if n <= usize::MAX {
                n as usize
            } else {
                0
            },
            None => 0,
        },
        None => 0,
    }
}

/// A number of seconds: the parsed `u64`, or 0 when unset or unparsable.
pub open spec fn seconds_value(v: Option<Seq<char>>) -> u64 {
    match v {
        Some(s) => match spec_parse_u64(s) {
            Some(n) => n,
            None => 0,
        },
        None => 0,
    }
}

/// A string setting: its value, or `default` when unset.
pub open spec fn string_value(v: Option<Seq<char>>, default: Seq<char>) -> Seq<char> {
    match v {
        Some(s) => s,
        None => default,
    }
}

/// The view of an optional string.
pub open spec fn opt_string_view(o: Option<String>) -> Option<Seq<char>> {
    match o {
        Some(s) => Some(s@),
        None => None,
    }
}

/// A flag is set by `1`, `true`, `yes`, `TRUE` or `YES`, and by no other
/// spelling (`false`, `0`, `no` among them); an unset flag takes its default.
pub proof fn lemma_flag_spellings(v: Seq<char>, default: bool)
    ensures
        is_true_flag("1"@),
        is_true_flag("true"@),
        is_true_flag("yes"@),
        is_true_flag("TRUE"@),
        is_true_flag("YES"@),
        !is_true_flag("false"@),
        !is_true_flag("0"@),
        !is_true_flag("no"@),
        flag_value(None, default) == default,
        flag_value(Some(v), default) == is_true_flag(v),
{
    reveal_strlit("1");
    reveal_strlit("true");
    reveal_strlit("yes");
    reveal_strlit("TRUE");
    reveal_strlit("YES");
    reveal_strlit("false");
    reveal_strlit("0");
    reveal_strlit("no");
    assert("0"@[0] != "1"@[0]);
    assert("no"@[0] != "true"@[0]);
    assert("false"@[0] != "true"@[0]);
    assert("false"@[0] != "TRUE"@[0]);
}

/// Whether the flag value is one of the spellings of true.
pub fn env_bool(value: Option<&str>, default: bool) -> (r: bool)
    ensures
        r == match value {
            Some(s) => is_true_flag(s@),
            None => default,
        },
{
    match value {
        Some(v) => str_eq(v, "1") || str_eq(v, "true") || str_eq(v, "yes") || str_eq(v, "TRUE")
            || str_eq(v, "YES"),
        None => default,
    }
}

fn parse_count(value: Option<String>) -> (r: usize)
    ensures
        r == count_value(opt_string_view(value)),
{
    match value {
        Some(v) => match parse_u64(v.as_str()) {
            Some(n) => if n <= usize::MAX as u64 {
                n as usize
            } else {
                0
            },
            None => 0,
        },
        None => 0,
    }
}

fn parse_seconds(value: Option<String>) -> (r: u64)
    ensures
        r == seconds_value(opt_string_view(value)),
{
    match value {
        Some(v) => match parse_u64(v.as_str()) {
            Some(n) => n,
            None => 0,
        },
        None => 0,
    }
}

impl DynamoDBStreamsConfig {
    /// Configuration from the values of the variables
    /// `DYNAMODBSTREAMS_SKIP_SIGNATURE_VALIDATION`, `DEFAULT_REGION`,
    /// `DEFAULT_ACCOUNT_ID`, `DYNAMODBSTREAMS_MAX_RECORDS_PER_SHARD` and
    /// `DYNAMODBSTREAMS_MAX_RECORD_AGE_SECONDS` (`None` where unset).
    pub fn from_values(
        skip_signature_validation: Option<String>,
        default_region: Option<String>,
        default_account_id: Option<String>,
        max_records_per_shard: Option<String>,
        max_record_age_seconds: Option<String>,
    ) -> (r: Self)
        ensures
            r.skip_signature_validation == flag_value(
                opt_string_view(skip_signature_validation),
                true,
            ),
            r.default_region@ == string_value(opt_string_view(default_region), "us-east-1"@),
            r.default_account_id@ == string_value(
                opt_string_view(default_account_id),
                "000000000000"@,
            ),
            r.max_records_per_shard == count_value(opt_string_view(max_records_per_shard)),
            r.max_record_age_seconds == seconds_value(opt_string_view(max_record_age_seconds)),
    {
        let skip = match &skip_signature_validation {
            Some(v) => env_bool(Some(v.as_str()), true),
            None => env_bool(None, true),
        };
        let region = match default_region {
            Some(v) => v,
            None => own("us-east-1"),
        };
        let account = match default_account_id {
            Some(v) => v,
            None => own("000000000000"),
        };
        DynamoDBStreamsConfig {
            skip_signature_validation: skip,
            default_region: region,
            default_account_id: account,
            max_records_per_shard: parse_count(max_records_per_shard),
            max_record_age_seconds: parse_seconds(max_record_age_seconds),
        }
    }
}

impl Default for DynamoDBStreamsConfig {
    fn default() -> (r: Self)
        ensures
            r.skip_signature_validation,
            r.default_region@ == "us-east-1"@,
            r.default_account_id@ == "000000000000"@,
            r.max_records_per_shard == 0,
            r.max_record_age_seconds == 0,
    {
        DynamoDBStreamsConfig {
            skip_signature_validation: true,
            default_region: own("us-east-1"),
            default_account_id: own("000000000000"),
            max_records_per_shard: 0,
            max_record_age_seconds: 0,
        }
    }
}

} // verus!
