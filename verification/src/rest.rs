//! The REST core's decisions: request URLs, authorization values, the
//! success and retry policy, and the error a response converts to.
//!
//! The HTTP round-trips themselves happen outside; they feed status codes
//! and header values back into the functions here.

use vstd::prelude::*;

use crate::error::Error;
use crate::json::{json_get, json_string, json_u64};

verus! {

/// The fixed HTTPS origin and versioned prefix every request URL starts
/// with.
pub open spec fn api_base() -> Seq<char> {
    "https://discord.com/api/v6"@
}

/// The full URL of a route: the API base, a separating slash when the
/// route does not bring its own, and the route itself.
pub open spec fn api_url_of(route: Seq<char>) -> Seq<char> {
    if route.len() > 0 && route[0] == '/' {
        api_base() + route
    } else {
        api_base() + "/"@ + route
    }
}

/// Prepend the API base to a route.
pub fn api_url(route: &str) -> (r: String)
    ensures
        r@ == api_url_of(route@),
{
    proof {
        reveal_strlit("https://discord.com/api/v6");
        reveal_strlit("/");
    }
    let mut s = String::from_str("https://discord.com/api/v6");
    let n = route.unicode_len();
    if n == 0 || route.get_char(0) != '/' {
        s.append("/");
    }
    s.append(route);
    s
}

/// Whether an HTTP status code reports success.
pub fn is_success(status: u16) -> (r: bool)
    ensures
        r == (200 <= status < 300),
{
    200 <= status && status < 300
}

/// Whether an HTTP status code is the bodyless success the deletion and
/// acknowledgement endpoints answer with.
pub fn is_no_content(status: u16) -> (r: bool)
    ensures
        r == (status == 204),
{
    status == 204
}

/// The typed error a non-success response converts to: a 429 whose body
/// carried a `retry_after` delay becomes the dedicated rate-limited kind,
/// any other status is carried as it is, together with the decoded body
/// when the response had one.
pub fn error_from_status(status: u16, retry_after: Option<u64>, body: Option<
    serde_json::Value,
>) -> (r: Error)
    ensures
        status == 429 && retry_after is Some ==> r == Error::RateLimited(retry_after->0),
        status != 429 || retry_after is None ==> r == Error::Status(status, body),
{
    if status == 429 {
        match retry_after {
            Some(delay) => Error::RateLimited(delay),
            None => Error::Status(status, body),
        }
    } else {
        Error::Status(status, body)
    }
}

/// Why a request is being considered for another attempt.
#[derive(Debug, Clone, PartialEq, Eq, Structural)]
pub enum RetryReason {
    /// The transport failed to connect, as a stale kept-alive socket does.
    ConnectFailed,
    /// A 429 arrived and the rate limiter slept out its delay.
    RateLimited,
}

/// The REST core's retry policy: one retry, and only for a transport
/// connect failure or a slept-out 429; a second failure of any kind is
/// returned to the caller.
pub fn may_retry(attempt: u8, reason: RetryReason) -> (r: bool)
    ensures
        r == (attempt == 0),
{
    let _ = reason;
    attempt == 0
}

/// The websocket URL for a gateway base: the base with the protocol
/// version appended as a query parameter.
pub open spec fn gateway_url_of(base: Seq<char>) -> Seq<char> {
    base + "?v=6"@
}

/// Append the protocol-version query parameter to a gateway URL.
pub fn build_gateway_url(base: &str) -> (r: String)
    ensures
        r@ == gateway_url_of(base@),
{
    proof {
        reveal_strlit("?v=6");
    }
    let mut s = String::from_str(base);
    s.append("?v=6");
    s
}

// Authorization values

/// Whether a character is blank space a credential is trimmed of.
pub open spec fn is_space(c: char) -> bool {
    c == ' ' || c == '\t' || c == '\r' || c == '\n'
}

/// The first index at or after a position whose character is not space.
pub open spec fn skip_spaces(s: Seq<char>, from: int) -> int
    decreases s.len() - from,
    when 0 <= from <= s.len()
{
    if from >= s.len() {
        s.len() as int
    } else if !is_space(s[from]) {
        from
    } else {
        skip_spaces(s, from + 1)
    }
}

/// The end of the last non-space run at or before a position.
pub open spec fn rskip_spaces(s: Seq<char>, upto: int) -> int
    decreases upto,
    when 0 <= upto <= s.len()
{
    if upto <= 0 {
        0
    } else if !is_space(s[upto - 1]) {
        upto
    } else {
        rskip_spaces(s, upto - 1)
    }
}

/// A string with leading and trailing space removed.
pub open spec fn trimmed(s: Seq<char>) -> Seq<char> {
    let a = skip_spaces(s, 0);
    let b = rskip_spaces(s, s.len() as int);
    if a >= b {
        Seq::empty()
    } else {
        s.subrange(a, b)
    }
}

/// The position of the first dot is bounded by the string.
proof fn lemma_skip_spaces_bounds(s: Seq<char>, from: int)
    requires
        0 <= from <= s.len(),
    ensures
        from <= skip_spaces(s, from) <= s.len(),
        skip_spaces(s, from) < s.len() ==> !is_space(s[skip_spaces(s, from)]),
    decreases s.len() - from,
{
    if from < s.len() && is_space(s[from]) {
        lemma_skip_spaces_bounds(s, from + 1);
    }
}

/// The end of trimming is bounded by the string.
proof fn lemma_rskip_spaces_bounds(s: Seq<char>, upto: int)
    requires
        0 <= upto <= s.len(),
    ensures
        0 <= rskip_spaces(s, upto) <= upto,
        rskip_spaces(s, upto) > 0 ==> !is_space(s[rskip_spaces(s, upto) - 1]),
    decreases upto,
{
    if upto > 0 && is_space(s[upto - 1]) {
        lemma_rskip_spaces_bounds(s, upto - 1);
    }
}

/// Whether a character is blank space.
fn space_char(c: char) -> (r: bool)
    ensures
        r == is_space(c),
{
    c == ' ' || c == '\t' || c == '\r' || c == '\n'
}

/// Remove leading and trailing blank space from a credential.
pub fn trim_spaces(s: &str) -> (r: &str)
    ensures
        r@ == trimmed(s@),
{
    let n = s.unicode_len();
    let mut a: usize = 0;
    while a < n && space_char(s.get_char(a))
        invariant
            n == s@.len(),
            0 <= a <= n,
            skip_spaces(s@, 0) == skip_spaces(s@, a as int),
        decreases n - a,
    {
        a = a + 1;
        proof {
            assert(skip_spaces(s@, a as int - 1) == skip_spaces(s@, a as int));
        }
    }
    proof {
        if a < n {
            assert(skip_spaces(s@, a as int) == a as int);
        }
        assert(skip_spaces(s@, 0) == a as int);
    }
    let mut b: usize = n;
    while b > a && space_char(s.get_char(b - 1))
        invariant
            n == s@.len(),
            a <= b <= n,
            a as int == skip_spaces(s@, 0),
            rskip_spaces(s@, n as int) == rskip_spaces(s@, b as int),
        decreases b,
    {
        b = b - 1;
        proof {
            assert(rskip_spaces(s@, b as int + 1) == rskip_spaces(s@, b as int));
        }
    }
    proof {
        lemma_skip_spaces_bounds(s@, 0);
        if b > a {
            assert(rskip_spaces(s@, b as int) == b as int);
            assert(rskip_spaces(s@, n as int) == b as int);
        } else {
            // Everything from `a` on is space, so trimming from the right
            // passes `a` as well.
            lemma_rskip_spaces_bounds(s@, b as int);
            assert(rskip_spaces(s@, n as int) <= a as int);
        }
    }
    let r = s.substring_char(a, b);
    proof {
        if b <= a {
            assert(r@ =~= trimmed(s@));
        } else {
            assert(r@ =~= trimmed(s@));
        }
    }
    r
}

/// The authorization value for a bot credential: the token, trimmed, with
/// the platform's bot prefix.
pub fn bot_authorization(token: &str) -> (r: String)
    ensures
        r@ == "Bot "@ + trimmed(token@),
{
    proof {
        reveal_strlit("Bot ");
    }
    let mut s = String::from_str("Bot ");
    s.append(trim_spaces(token));
    s
}

/// The authorization value for a user credential: the token, trimmed.
pub fn user_authorization(token: &str) -> (r: String)
    ensures
        r@ == trimmed(token@),
{
    let mut s = String::new();
    s.append(trim_spaces(token));
    s
}

/// Which backlog messages a retrieval asks for.
#[derive(Debug, Clone, PartialEq, Eq, Structural)]
pub enum GetMessages {
    /// Get the most recent messages.
    MostRecent,
    /// Get the messages before the specified message.
    Before(crate::ids::MessageId),
    /// Get the messages after the specified message.
    After(crate::ids::MessageId),
    /// Get the messages around the specified message.
    Around(crate::ids::MessageId),
}

/// The filename attached to an uploaded file: the given one, with the
/// absent and the empty name replaced by a plain default.
pub fn attachment_filename(name: Option<&str>) -> (r: &str)
    ensures
        (match name {
            Some(n) => if n@.len() == 0 {
                r@ == "file"@
            } else {
                r@ == n@
            },
            None => r@ == "file"@,
        }),
{
    match name {
        Some(n) => if n.unicode_len() == 0 {
            "file"
        } else {
            n
        },
        None => "file",
    }
}

// Control-plane responses

/// Read the gateway URL out of the control-plane's discovery response:
/// its `url` field.
pub fn read_gateway_url(v: &serde_json::Value) -> (r: Result<String, Error>) {
    match json_get(v, "url") {
        Some(x) => match json_string(x) {
            Some(url) => Ok(url),
            None => Err(
                Error::Protocol(String::from_str("the gateway discovery response has no url")),
            ),
        },
        None => Err(
            Error::Protocol(String::from_str("the gateway discovery response has no url")),
        ),
    }
}

/// Read the suggested shard count out of the control-plane's response:
/// its `shards` field, reduced to the byte the caller keeps.
pub fn read_shard_count(v: &serde_json::Value) -> (r: Result<u8, Error>) {
    match json_get(v, "shards") {
        Some(x) => match json_u64(x) {
            Some(n) => Ok((n % 256) as u8),
            None => Err(Error::Decode(String::from_str("the shards field is not a number"))),
        },
        None => Err(Error::Decode(String::from_str("the response has no shards field"))),
    }
}

} // verus!
