//! When a failed query is tried again, and after how long.

use vstd::prelude::*;
use vstd::string::*;
use crate::error::{DatabaseError, DatabaseErrorView};
use crate::text::str_eq;

verus! {

/// How often a failed read is tried again, and the bounds of the wait before
/// each new attempt, in milliseconds.
#[derive(Clone, Copy, Debug, PartialEq, Eq, Structural)]
pub struct RetryConfig {
    pub max_retries: u32,
    pub base_backoff_ms: u64,
    pub max_backoff_ms: u64,
}

pub const DEFAULT_MAX_RETRIES: u32 = 2;

pub const DEFAULT_BASE_BACKOFF_MS: u64 = 50;

pub const DEFAULT_MAX_BACKOFF_MS: u64 = 500;

/// The value of a decimal digit, if the character is one.
pub open spec fn digit_value(c: char) -> Option<nat> {
    if '0' <= c && c <= '9' {
        Some((c as u32 - '0' as u32) as nat)
    } else {
        None
    }
}

/// The number that a run of decimal digits stands for; `None` where a
/// character is no digit.
pub open spec fn digits_value(digits: Seq<char>) -> Option<nat>
    decreases digits.len(),
{
    if digits.len() == 0 {
        Some(0)
    } else {
        match (digits_value(digits.drop_last()), digit_value(digits.last())) {
            (Some(v), Some(d)) => Some(v * 10 + d),
            _ => None,
        }
    }
}

/// The number that a text stands for: one or more decimal digits, with `+`
/// in front of them or not, whose value is at most `limit`.
pub open spec fn parsed_number(text: Seq<char>, limit: nat) -> Option<nat> {
    let digits = if text.len() > 0 && text[0] == '+' {
        text.subrange(1, text.len() as int)
    } else {
        text
    };
    if digits.len() == 0 {
        None
    } else {
        match digits_value(digits) {
            Some(v) => if v <= limit {
                Some(v)
            } else {
                None
            },
            None => None,
        }
    }
}

/// The value of a run of digits does not shrink as digits are added.
pub proof fn lemma_digits_grow(digits: Seq<char>, i: int)
    requires
        0 <= i <= digits.len(),
        digits_value(digits) is Some,
    ensures
        digits_value(digits.take(i)) is Some,
        digits_value(digits.take(i)).unwrap() <= digits_value(digits).unwrap(),
    decreases digits.len() - i,
{
    if i == digits.len() {
        assert(digits.take(i) =~= digits);
    } else {
        lemma_digits_none_stays(digits, i);
        lemma_digits_grow(digits, i + 1);
        assert(digits.take(i + 1).drop_last() =~= digits.take(i));
    }
}

/// A run of digits with a character that is no digit has no value, however
/// it goes on.
pub proof fn lemma_digits_none_stays(digits: Seq<char>, i: int)
    requires
        0 <= i <= digits.len(),
    ensures
        digits_value(digits.take(i)) is None ==> digits_value(digits) is None,
    decreases digits.len() - i,
{
    if i == digits.len() {
        assert(digits.take(i) =~= digits);
    } else {
        assert(digits.take(i + 1).drop_last() =~= digits.take(i));
        lemma_digits_none_stays(digits, i + 1);
    }
}

/// Reads a number of at most `limit` from its decimal text.
pub fn parse_number(text: &str, limit: u64) -> (r: Option<u64>)
    ensures
        match r {
            Some(v) => parsed_number(text@, limit as nat) == Some(v as nat),
            None => parsed_number(text@, limit as nat).is_none(),
        },
{
    let n = text.unicode_len();
    let start: usize = if n > 0 && text.get_char(0) == '+' {
        1
    } else {
        0
    };
    if start == n {
        return None;
    }
    let ghost digits = text@.subrange(start as int, n as int);
    let mut value: u64 = 0;
    let mut i: usize = start;
    proof {
        assert(digits.take(0) =~= Seq::empty());
        if start == 0 {
            assert(digits =~= text@);
        }
    }
    while i < n
        invariant
            start <= i <= n,
            n == text@.len(),
            digits == text@.subrange(start as int, n as int),
            digits.len() > 0,
            digits == if text@.len() > 0 && text@[0] == '+' {
                text@.subrange(1, text@.len() as int)
            } else {
                text@
            },
            digits_value(digits.take(i - start)) == Some(value as nat),
            value <= limit,
        decreases n - i,
    {
        let c = text.get_char(i);
        proof {
            assert(digits.take(i - start + 1).drop_last() =~= digits.take(i - start));
            assert(digits.take(i - start + 1).last() == c);
            lemma_digits_none_stays(digits, i - start + 1);
        }
        if c < '0' || c > '9' {
            return None;
        }
        let d: u64 = (c as u32 - '0' as u32) as u64;
        if d > limit {
            proof {
                if digits_value(digits) is Some {
                    lemma_digits_grow(digits, i - start + 1);
                }
            }
            return None;
        }
        if value > (limit - d) / 10 {
            proof {
                assert(value * 10 + d > limit) by (nonlinear_arith)
                    requires
                        value > (limit - d) / 10,
                        d <= limit,
                        d < 10,
                ;
                if digits_value(digits) is Some {
                    lemma_digits_grow(digits, i - start + 1);
                }
            }
            return None;
        }
        assert(value * 10 + d <= limit) by (nonlinear_arith)
            requires
                value <= (limit - d) / 10,
                d <= limit,
        ;
        value = value * 10 + d;
        i += 1;
    }
    proof {
        assert(digits.take(i - start) =~= digits);
    }
    Some(value)
}

impl RetryConfig {
    /// The configuration that the three settings stand for; a setting that is
    /// missing or is no number of its range takes its default.
    pub open spec fn spec_from_env(
        max_retries: Option<Seq<char>>,
        base_backoff_ms: Option<Seq<char>>,
        max_backoff_ms: Option<Seq<char>>,
    ) -> RetryConfig {
        RetryConfig {
            max_retries: match max_retries {
                Some(t) => match parsed_number(t, u32::MAX as nat) {
                    Some(v) => v as u32,
                    None => DEFAULT_MAX_RETRIES,
                },
                None => DEFAULT_MAX_RETRIES,
            },
            base_backoff_ms: match base_backoff_ms {
                Some(t) => match parsed_number(t, u64::MAX as nat) {
                    Some(v) => v as u64,
                    None => DEFAULT_BASE_BACKOFF_MS,
                },
                None => DEFAULT_BASE_BACKOFF_MS,
            },
            max_backoff_ms: match max_backoff_ms {
                Some(t) => match parsed_number(t, u64::MAX as nat) {
                    Some(v) => v as u64,
                    None => DEFAULT_MAX_BACKOFF_MS,
                },
                None => DEFAULT_MAX_BACKOFF_MS,
            },
        }
    }

    /// Reads the configuration from the values of `EXO_DB_RETRY_MAX`,
    /// `EXO_DB_RETRY_BASE_MS` and `EXO_DB_RETRY_MAX_MS`, each given where the
    /// variable is set.
    pub fn from_env(
        max_retries: Option<&str>,
        base_backoff_ms: Option<&str>,
        max_backoff_ms: Option<&str>,
    ) -> (r: RetryConfig)
        ensures
            r == RetryConfig::spec_from_env(
                match max_retries {
                    Some(t) => Some(t@),
                    None => None,
                },
                match base_backoff_ms {
                    Some(t) => Some(t@),
                    None => None,
                },
                match max_backoff_ms {
                    Some(t) => Some(t@),
                    None => None,
                },
            ),
    {
        let max_retries = match max_retries {
            Some(t) => match parse_number(t, 0xffff_ffff) {
                Some(v) => v as u32,
                None => DEFAULT_MAX_RETRIES,
            },
            None => DEFAULT_MAX_RETRIES,
        };
        let base_backoff_ms = match base_backoff_ms {
            Some(t) => match parse_number(t, 0xffff_ffff_ffff_ffff) {
                Some(v) => v,
                None => DEFAULT_BASE_BACKOFF_MS,
            },
            None => DEFAULT_BASE_BACKOFF_MS,
        };
        let max_backoff_ms = match max_backoff_ms {
            Some(t) => match parse_number(t, 0xffff_ffff_ffff_ffff) {
                Some(v) => v,
                None => DEFAULT_MAX_BACKOFF_MS,
            },
            None => DEFAULT_MAX_BACKOFF_MS,
        };
        RetryConfig { max_retries, base_backoff_ms, max_backoff_ms }
    }
}

/// Two to the power of `n`.
pub open spec fn doubled(n: nat) -> nat
    decreases n,
{
    if n == 0 {
        1
    } else {
        2 * doubled((n - 1) as nat)
    }
}

/// The wait that attempt `attempt` is capped at: the base wait doubled for
/// each attempt after the first, but no more than the longest wait.
pub open spec fn capped_backoff(attempt: u32, base_ms: u64, max_ms: u64) -> nat {
    let exponent = if attempt == 0 {
        0nat
    } else {
        (attempt - 1) as nat
    };
    if base_ms * doubled(exponent) <= max_ms {
        (base_ms * doubled(exponent)) as nat
    } else {
        max_ms as nat
    }
}

/// Powers of two are positive and grow with the exponent.
pub proof fn lemma_doubled_grows(a: nat, b: nat)
    requires
        a <= b,
    ensures
        1 <= doubled(a) <= doubled(b),
    decreases b,
{
    if b == 0 {
    } else if a == b {
        lemma_doubled_grows((a - 1) as nat, (b - 1) as nat);
    } else {
        lemma_doubled_grows(a, (b - 1) as nat);
    }
}

/// Computes the cap of the wait before attempt `attempt`.
pub fn backoff_cap(attempt: u32, base_ms: u64, max_ms: u64) -> (r: u64)
    ensures
        r == capped_backoff(attempt, base_ms, max_ms),
        r <= max_ms,
{
    let exponent: u32 = if attempt == 0 {
        0
    } else {
        attempt - 1
    };
    if base_ms >= max_ms {
        proof {
            lemma_doubled_grows(0, exponent as nat);
            assert(base_ms * doubled(exponent as nat) >= base_ms) by (nonlinear_arith)
                requires
                    doubled(exponent as nat) >= 1,
            ;
            if base_ms * doubled(exponent as nat) <= max_ms {
                assert(base_ms == max_ms);
            }
        }
        return max_ms;
    }
    let mut value: u64 = base_ms;
    let mut j: u32 = 0;
    proof {
        assert(doubled(0) == 1);
        assert(base_ms * doubled(0) == base_ms);
    }
    while j < exponent && value < max_ms
        invariant
            j <= exponent,
            value <= max_ms,
            value < max_ms ==> value == base_ms * doubled(j as nat),
            value == max_ms ==> base_ms * doubled(j as nat) >= max_ms,
        decreases exponent - j,
    {
        proof {
            assert(base_ms * doubled((j + 1) as nat) == 2 * (base_ms * doubled(j as nat)))
                by (nonlinear_arith)
                requires
                    doubled((j + 1) as nat) == 2 * doubled(j as nat),
            ;
        }
        if value > max_ms - value {
            value = max_ms;
        } else {
            value = value + value;
        }
        j += 1;
    }
    proof {
        if j < exponent {
            lemma_doubled_grows(j as nat, exponent as nat);
            assert(base_ms * doubled(exponent as nat) >= base_ms * doubled(j as nat))
                by (nonlinear_arith)
                requires
                    doubled(exponent as nat) >= doubled(j as nat),
            ;
        }
    }
    value
}

/// The wait before attempt `attempt`, given the jitter that was drawn: half
/// the cap, and the jitter on top.
pub open spec fn backoff_with_jitter(attempt: u32, base_ms: u64, max_ms: u64, jitter: u64) -> nat {
    (capped_backoff(attempt, base_ms, max_ms) / 2 + jitter) as nat
}

/// Computes the wait before attempt `attempt` from the jitter that was drawn.
pub fn backoff_from_jitter(attempt: u32, base_ms: u64, max_ms: u64, jitter: u64) -> (r: u64)
    requires
        jitter <= capped_backoff(attempt, base_ms, max_ms) / 2,
    ensures
        r == backoff_with_jitter(attempt, base_ms, max_ms, jitter),
        capped_backoff(attempt, base_ms, max_ms) / 2 <= r <= capped_backoff(
            attempt,
            base_ms,
            max_ms,
        ),
{
    let capped = backoff_cap(attempt, base_ms, max_ms);
    capped / 2 + jitter
}

/// Draws a number between 0 and `high`, both included, with
/// `rand::Rng::random_range` on the generator of the thread. Nothing but the
/// range is known of the number drawn.
#[verifier::external_body]
fn random_up_to(high: u64) -> (r: u64)
    ensures
        r <= high,
{
    rand::Rng::random_range(&mut rand::rng(), 0..=high)
}

/// Draws the wait before attempt `attempt`: between half the cap and the cap.
pub fn retry_backoff_ms(attempt: u32, base_ms: u64, max_ms: u64) -> (r: u64)
    ensures
        capped_backoff(attempt, base_ms, max_ms) / 2 <= r <= capped_backoff(
            attempt,
            base_ms,
            max_ms,
        ),
{
    let capped = backoff_cap(attempt, base_ms, max_ms);
    let jitter = random_up_to(capped / 2);
    backoff_from_jitter(attempt, base_ms, max_ms, jitter)
}

/// Whether an error code of the server tells of a connection that was lost
/// or refused for a while: the server shutting down or starting up, or the
/// connection failing or gone.
pub open spec fn is_transient(sqlstate: Seq<char>) -> bool {
    sqlstate == "57P01"@ || sqlstate == "57P02"@ || sqlstate == "57P03"@ || sqlstate == "08006"@
        || sqlstate == "08003"@
}

/// Whether a failure may be met by trying again, going by the error code
/// that the server gave, if it gave one.
pub fn is_retryable_db_error(sqlstate: Option<&str>) -> (r: bool)
    ensures
        r == match sqlstate {
            Some(code) => is_transient(code@),
            None => false,
        },
{
    match sqlstate {
        Some(code) => {
            str_eq(code, "57P01") || str_eq(code, "57P02") || str_eq(code, "57P03") || str_eq(
                code,
                "08006",
            ) || str_eq(code, "08003")
        },
        None => false,
    }
}

/// What to do about a query that failed.
#[derive(Clone, Copy, Debug, PartialEq, Eq, Structural)]
pub enum RetryDecision {
    /// Report the failure.
    GiveUp,
    /// Wait `backoff_ms` milliseconds and make attempt number `attempt`.
    Retry { attempt: u32, backoff_ms: u64 },
}

/// Whether a query that failed after `attempt` retries is tried again: only
/// a read, only on a transient failure, and only while retries are left.
pub open spec fn may_retry(
    config: RetryConfig,
    read_only: bool,
    attempt: u32,
    sqlstate: Option<Seq<char>>,
) -> bool {
    &&& config.max_retries > 0
    &&& read_only
    &&& sqlstate is Some
    &&& is_transient(sqlstate.unwrap())
    &&& attempt < config.max_retries
}

/// The view of an optional string slice.
pub open spec fn code_view(sqlstate: Option<&str>) -> Option<Seq<char>> {
    match sqlstate {
        Some(code) => Some(code@),
        None => None,
    }
}

/// Whether a query that failed after `attempt` retries is tried again.
pub fn should_retry(config: &RetryConfig, read_only: bool, attempt: u32, sqlstate: Option<&str>) -> (r:
    bool)
    ensures
        r == may_retry(*config, read_only, attempt, code_view(sqlstate)),
{
    let allow_retry = config.max_retries > 0 && read_only;
    let retryable = allow_retry && is_retryable_db_error(sqlstate);
    retryable && attempt < config.max_retries
}

/// Decides about a query that failed after `attempt` retries, given the
/// jitter that was drawn for the wait.
pub fn decide_with_jitter(
    config: &RetryConfig,
    read_only: bool,
    attempt: u32,
    sqlstate: Option<&str>,
    jitter: u64,
) -> (r: RetryDecision)
    requires
        attempt < u32::MAX ==> jitter <= capped_backoff(
            (attempt + 1) as u32,
            config.base_backoff_ms,
            config.max_backoff_ms,
        ) / 2,
    ensures
        r == if may_retry(*config, read_only, attempt, code_view(sqlstate)) {
            RetryDecision::Retry {
                attempt: (attempt + 1) as u32,
                backoff_ms: backoff_with_jitter(
                    (attempt + 1) as u32,
                    config.base_backoff_ms,
                    config.max_backoff_ms,
                    jitter,
                ) as u64,
            }
        } else {
            RetryDecision::GiveUp
        },
{
    if should_retry(config, read_only, attempt, sqlstate) {
        let next = attempt + 1;
        RetryDecision::Retry {
            attempt: next,
            backoff_ms: backoff_from_jitter(
                next,
                config.base_backoff_ms,
                config.max_backoff_ms,
                jitter,
            ),
        }
    } else {
        RetryDecision::GiveUp
    }
}

/// Decides about a query that failed after `attempt` retries. A retry waits
/// between half the cap of the next attempt and the cap.
pub fn decide(config: &RetryConfig, read_only: bool, attempt: u32, sqlstate: Option<&str>) -> (r:
    RetryDecision)
    ensures
        r is Retry <==> may_retry(*config, read_only, attempt, code_view(sqlstate)),
        match r {
            RetryDecision::Retry { attempt: next, backoff_ms } => next == attempt + 1
                && capped_backoff(next, config.base_backoff_ms, config.max_backoff_ms) / 2
                <= backoff_ms <= capped_backoff(
                next,
                config.base_backoff_ms,
                config.max_backoff_ms,
            ),
            RetryDecision::GiveUp => true,
        },
{
    if should_retry(config, read_only, attempt, sqlstate) {
        let next = attempt + 1;
        RetryDecision::Retry {
            attempt: next,
            backoff_ms: retry_backoff_ms(next, config.base_backoff_ms, config.max_backoff_ms),
        }
    } else {
        RetryDecision::GiveUp
    }
}

/// The error that a query is reported with once it is given up.
pub fn failure(sqlstate: Option<&str>) -> (r: DatabaseError)
    ensures
        r@ == (DatabaseErrorView::Delegate {
            sqlstate: code_view(sqlstate),
            context: "Database operation failed"@,
        }),
{
    DatabaseError::Delegate {
        sqlstate: match sqlstate {
            Some(code) => Some(code.to_owned()),
            None => None,
        },
        context: "Database operation failed".to_owned(),
    }
}

/// The wait before any attempt is at least half its cap and at most its cap,
/// whatever jitter within range was drawn, and the cap is at most the
/// longest wait.
pub proof fn lemma_backoff_bounded(attempt: u32, base_ms: u64, max_ms: u64, jitter: u64)
    requires
        jitter <= capped_backoff(attempt, base_ms, max_ms) / 2,
    ensures
        capped_backoff(attempt, base_ms, max_ms) / 2 <= backoff_with_jitter(
            attempt,
            base_ms,
            max_ms,
            jitter,
        ) <= capped_backoff(attempt, base_ms, max_ms),
        capped_backoff(attempt, base_ms, max_ms) <= max_ms,
{
}

} // verus!
