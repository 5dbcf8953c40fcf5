//! Reading the rate-limit headers of a response and turning a response into
//! a result.
use vstd::prelude::*;

use crate::error::{
    AuthError, TERMS_ACCEPTANCE_REF,
    decode, error_for_status, is_success, minutes_to_secs, ratelimit, spec_error, status_error,
    Error, ErrorEnvelope, Kind, Source,
};

verus! {

/// Name of the header that carries how many requests are left.
pub const X_RATELIMIT_REMAINING: &'static str = "x-ratelimit-remaining";

/// Name of the header that carries, in minutes, when requests are allowed again.
pub const X_RATELIMIT_RETRY_AFTER: &'static str = "x-ratelimit-retryafter";

pub open spec fn is_digit(b: u8) -> bool {
    48 <= b <= 57
}

/// The number written by a sequence of decimal digits.
pub open spec fn digits_value(s: Seq<u8>) -> nat
    decreases s.len(),
{
    if s.len() == 0 {
        0
    } else {
        digits_value(s.drop_last()) * 10 + (s.last() - 48) as nat
    }
}

/// The digits of a header value, after an optional leading `+`.
pub open spec fn unsigned_digits(b: Seq<u8>) -> Seq<u8> {
    if b.len() > 0 && b[0] == 43 {
        b.drop_first()
    } else {
        b
    }
}

/// The count a header value holds: one or more decimal digits, with an
/// optional leading `+`, whose value fits in a `u64`.
pub open spec fn header_count(b: Seq<u8>) -> Option<u64> {
    let d = unsigned_digits(b);
    if d.len() > 0 && (forall|i: int| 0 <= i < d.len() ==> is_digit(#[trigger] d[i])) && digits_value(d)
        <= u64::MAX {
        Some(digits_value(d) as u64)
    } else {
        None
    }
}

proof fn lemma_digits_value_grows(s: Seq<u8>, i: int, j: int)
    requires
        0 <= i <= j <= s.len(),
        forall|k: int| 0 <= k < s.len() ==> is_digit(#[trigger] s[k]),
    ensures
        digits_value(s.take(i)) <= digits_value(s.take(j)),
    decreases j - i,
{
    if i < j {
        lemma_digits_value_grows(s, i, j - 1);
        assert(s.take(j).drop_last() =~= s.take(j - 1));
        let v = digits_value(s.take(j - 1));
        assert(v <= v * 10) by (nonlinear_arith);
    }
}

/// Reads a header value as a count, as the rate-limit headers carry it.
pub fn parse_count(b: &[u8]) -> (r: Option<u64>)
    ensures
        r == header_count(b@),
{
    let ghost d = unsigned_digits(b@);
    let start: usize = if b.len() > 0 && b[0] == 43 {
        1
    } else {
        0
    };
    if start == b.len() {
        return None;
    }
    let mut value: u64 = 0;
    let mut i: usize = start;
    while i < b.len()
        invariant
            start <= i <= b.len(),
            start < b.len(),
            d == unsigned_digits(b@),
            d =~= b@.subrange(start as int, b@.len() as int),
            forall|k: int| 0 <= k < i - start ==> is_digit(#[trigger] d[k]),
            value == digits_value(d.take(i - start)),
        decreases b.len() - i,
    {
        let c = b[i];
        assert(d[i - start] == c);
        if c < 48 || c > 57 {
            assert(!is_digit(d[i - start]));
            return None;
        }
        let digit: u64 = (c - 48) as u64;
        assert(d.take(i + 1 - start).drop_last() =~= d.take(i - start));
        if value > (u64::MAX - digit) / 10 {
            proof {
                assert(value * 10 + digit > u64::MAX) by (nonlinear_arith)
                    requires
                        value > (u64::MAX - digit) / 10,
                        digit <= 9,
                ;
                let j = (i + 1 - start) as int;
                assert(d.take(j).last() == c);
                assert(digits_value(d.take(j)) == value * 10 + digit);
                if forall|k: int| 0 <= k < d.len() ==> is_digit(#[trigger] d[k]) {
                    lemma_digits_value_grows(d, j, d.len() as int);
                    assert(d.take(d.len() as int) =~= d);
                }
            }
            return None;
        }
        assert(value * 10 + digit <= u64::MAX) by (nonlinear_arith)
            requires
                value <= (u64::MAX - digit) / 10,
                digit <= 9,
        ;
        value = value * 10 + digit;
        i = i + 1;
    }
    assert(d.take(d.len() as int) =~= d);
    Some(value)
}

/// The rate-limit headers of one response, each of them optional.
#[derive(Debug)]
pub struct RateLimit {
    pub remaining: Option<u64>,
    pub retry_after: Option<u64>,
}

/// Reads both rate-limit headers, given their raw values where present.
pub fn rate_limit(remaining: Option<&[u8]>, retry_after: Option<&[u8]>) -> (r: RateLimit)
    ensures
        r.remaining == (match remaining {
            Some(b) => header_count(b@),
            None => None,
        }),
        r.retry_after == (match retry_after {
            Some(b) => header_count(b@),
            None => None,
        }),
{
    let remaining = match remaining {
        Some(b) => parse_count(b),
        None => None,
    };
    let retry_after = match retry_after {
        Some(b) => parse_count(b),
        None => None,
    };
    RateLimit { remaining, retry_after }
}

/// The rate limit is exhausted and the server says when to come back.
pub open spec fn is_rate_limited(limits: RateLimit) -> bool {
    limits.remaining == Some(0u64) && limits.retry_after is Some
}

/// The error a response with a status outside 2xx stands for. The rate-limit
/// headers come first; then the body, read as the server's error payload.
/// A 401 is an authorization failure even where that body does not decode.
pub open spec fn failure_error(
    status: u16,
    limits: RateLimit,
    envelope: Result<ErrorEnvelope, String>,
) -> Error {
    if is_rate_limited(limits) {
        spec_error(
            Kind::RateLimit { retry_after: minutes_to_secs(limits.retry_after->0) },
            None,
            None,
        )
    } else {
        match envelope {
            Ok(e) => status_error(status, e),
            Err(cause) => if status == 401 {
                spec_error(
                    Kind::Auth(AuthError::Unauthorized),
                    None,
                    Some(Source::Auth(AuthError::Unauthorized)),
                )
            } else {
                spec_error(Kind::Decode, None, Some(Source::Message(cause)))
            },
        }
    }
}

/// What a response means: the decoded payload on a 2xx status, else the
/// error it stands for.
pub open spec fn response_outcome<T>(
    status: u16,
    limits: RateLimit,
    payload: Result<T, String>,
    envelope: Result<ErrorEnvelope, String>,
) -> Result<T, Error> {
    if is_success(status) {
        match payload {
            Ok(t) => Ok(t),
            Err(cause) => Err(spec_error(Kind::Decode, None, Some(Source::Message(cause)))),
        }
    } else {
        Err(failure_error(status, limits, envelope))
    }
}

/// What a response to a deletion means: a body that does not decode counts
/// as success.
pub open spec fn delete_outcome(r: Result<(), Error>) -> Result<(), Error> {
    match r {
        Err(e) => if e.kind is Decode {
            Ok(())
        } else {
            Err(e)
        },
        Ok(u) => Ok(u),
    }
}

/// Classifies a response whose status is outside 2xx.
pub fn classify_failure(status: u16, limits: RateLimit, envelope: Result<ErrorEnvelope, String>) -> (r:
    Error)
    ensures
        r == failure_error(status, limits, envelope),
{
    match (limits.remaining, limits.retry_after) {
        (Some(0), Some(minutes)) => ratelimit(minutes),
        _ => match envelope {
            Ok(e) => error_for_status(status, e),
            Err(cause) => if status == 401 {
                Error::new(Kind::Auth(AuthError::Unauthorized)).with(
                    Source::Auth(AuthError::Unauthorized),
                )
            } else {
                decode(cause)
            },
        },
    }
}

/// Turns a response into a result. `payload` is the body read as the
/// expected value, `envelope` the body read as the server's error payload.
pub fn response_result<T>(
    status: u16,
    limits: RateLimit,
    payload: Result<T, String>,
    envelope: Result<ErrorEnvelope, String>,
) -> (r: Result<T, Error>)
    ensures
        r == response_outcome(status, limits, payload, envelope),
{
    if 200 <= status && status < 300 {
        match payload {
            Ok(t) => Ok(t),
            Err(cause) => Err(decode(cause)),
        }
    } else {
        Err(classify_failure(status, limits, envelope))
    }
}

/// Completes a deletion: a decode failure is success, as some deletions
/// answer with an empty body; any other error stands.
pub fn finish_delete(r: Result<(), Error>) -> (out: Result<(), Error>)
    ensures
        out == delete_outcome(r),
{
    match r {
        Err(e) => if e.is_decode() {
            Ok(())
        } else {
            Err(e)
        },
        Ok(u) => Ok(u),
    }
}

/// The result of a deletion request.
pub fn delete_result(
    status: u16,
    limits: RateLimit,
    payload: Result<(), String>,
    envelope: Result<ErrorEnvelope, String>,
) -> (r: Result<(), Error>)
    ensures
        r == delete_outcome(response_outcome(status, limits, payload, envelope)),
{
    finish_delete(response_result(status, limits, payload, envelope))
}

/// A response with status 401 is an authorization failure whatever its
/// body holds, where the rate limit does not come first; the error
/// reference is the payload's where the body decodes as one.
pub proof fn lemma_unauthorized<T>(
    limits: RateLimit,
    payload: Result<T, String>,
    envelope: Result<ErrorEnvelope, String>,
)
    requires
        !is_rate_limited(limits),
    ensures
        response_outcome(401, limits, payload, envelope) is Err,
        response_outcome(401, limits, payload, envelope)->Err_0.kind == Kind::Auth(
            AuthError::Unauthorized,
        ),
        envelope is Ok ==> response_outcome(401, limits, payload, envelope)->Err_0.error_ref == Some(
            envelope->Ok_0.error_ref,
        ),
{
}

/// Status 403 with the terms-of-use error code asks for the terms to be
/// accepted; with any other code it is a plain status error.
pub proof fn lemma_forbidden<T>(limits: RateLimit, payload: Result<T, String>, envelope: ErrorEnvelope)
    requires
        !is_rate_limited(limits),
    ensures
        response_outcome(403, limits, payload, Ok(envelope)) is Err,
        envelope.error_ref == TERMS_ACCEPTANCE_REF ==> response_outcome(
            403,
            limits,
            payload,
            Ok(envelope),
        )->Err_0.kind == Kind::Auth(AuthError::TermsAcceptanceRequired),
        envelope.error_ref != TERMS_ACCEPTANCE_REF ==> response_outcome(
            403,
            limits,
            payload,
            Ok(envelope),
        )->Err_0.kind == Kind::Status(403) && response_outcome(
            403,
            limits,
            payload,
            Ok(envelope),
        )->Err_0.error_ref == Some(envelope.error_ref),
{
}

/// A failed response with no requests left and a wait of `minutes` is a
/// rate-limit error of `minutes * 60` seconds, whatever its body holds.
pub proof fn lemma_rate_limit_first<T>(
    status: u16,
    minutes: u64,
    payload: Result<T, String>,
    envelope: Result<ErrorEnvelope, String>,
)
    requires
        !is_success(status),
        minutes * 60 <= u64::MAX,
    ensures
        response_outcome(
            status,
            RateLimit { remaining: Some(0), retry_after: Some(minutes) },
            payload,
            envelope,
        ) == Err::<T, Error>(
            spec_error(Kind::RateLimit { retry_after: (minutes * 60) as u64 }, None, None),
        ),
{
}

/// A deletion whose 2xx response body does not decode succeeds; one whose
/// 422 response holds an error payload is still a validation error.
pub proof fn lemma_delete_outcomes(
    status: u16,
    limits: RateLimit,
    cause: String,
    read: Result<ErrorEnvelope, String>,
    envelope: ErrorEnvelope,
)
    ensures
        is_success(status) ==> delete_outcome(
            response_outcome(status, limits, Err(cause), read),
        ) == Ok::<(), Error>(()),
        !is_rate_limited(limits) ==> delete_outcome(
            response_outcome(422, limits, Err(cause), Ok(envelope)),
        ) == Err::<(), Error>(
            spec_error(
                Kind::Validation { message: envelope.message, errors: envelope.errors },
                Some(envelope.error_ref),
                None,
            ),
        ),
{
}

} // verus!
