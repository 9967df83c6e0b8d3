//! The outbound shape of one page fetch, and the synthetic cursor that seeds
//! the first request.
use vstd::prelude::*;

use crate::digits::dec_int;
use crate::digits::i64_string;

verus! {

/// The payload of one page request: which account, where to resume, and how
/// many items to return.
#[derive(Debug, Clone)]
pub struct QueryRequestData {
    pub fan_id: u32,
    pub token: String,
    pub count: u32,
}

impl QueryRequestData {
    /// A request always carries the fixed page size.
    pub fn new(fan_id: u32, token: String) -> (r: Self)
        ensures
            r.fan_id == fan_id,
            r.token == token,
            r.count == crate::DEFAULT_COUNT,
    {
        Self { fan_id, token, count: crate::DEFAULT_COUNT }
    }
}

/// The cursor a first request carries: the remote service insists on a
/// non-empty cursor even before any page was seen, and its own client seeds
/// it with the wall-clock time in exactly this shape.
pub open spec fn initial_token(t: int) -> Seq<char> {
    dec_int(t) + ":0:a::"@
}

/// Renders the synthetic first-page cursor for the given Unix time.
pub fn utc_token(t: i64) -> (r: String)
    ensures
        r@ == initial_token(t as int),
{
    let mut out = i64_string(t);
    out.append(":0:a::");
    assert(out@ =~= initial_token(t as int));
    out
}

/// Relies on chrono's `Utc::now` and `DateTime::timestamp`: the current
/// wall-clock time as non-leap seconds since the Unix epoch. `Utc::now`
/// panics rather than report a time before the epoch, so a returned value is
/// never negative.
#[verifier::external_body]
pub(crate) fn now_unix() -> (r: i64)
    ensures
        r >= 0,
{
    chrono::Utc::now().timestamp()
}

/// The synthetic first-page cursor for the present moment.
pub fn utc_now_token() -> (r: String)
    ensures
        exists|t: i64| 0 <= t && r@ == initial_token(t as int),
{
    let t = now_unix();
    let out = utc_token(t);
    assert(out@ == initial_token(t as int));
    out
}

/// Assembles one page request a field at a time before building it.
#[derive(Debug, Clone)]
pub struct QueryBuilder {
    pub url: String,
    pub fan_id: u32,
    pub token: Option<String>,
}

impl QueryBuilder {
    /// A builder for a request against `url`, with no account and no cursor
    /// chosen yet.
    pub fn new(url: &str) -> (r: Self)
        ensures
            r.url@ == url@,
            r.fan_id == 0,
            r.token is None,
    {
        Self { url: url.to_owned(), fan_id: 0, token: None }
    }

    /// Chooses the account whose items are listed.
    pub fn fan_id(self, fan_id: u32) -> (r: Self)
        ensures
            r.fan_id == fan_id,
            r.url == self.url,
            r.token == self.token,
    {
        Self { fan_id, ..self }
    }

    /// Chooses the continuation cursor for this page.
    pub fn token(self, token: &str) -> (r: Self)
        ensures
            r.token is Some && r.token->0@ == token@,
            r.url == self.url,
            r.fan_id == self.fan_id,
    {
        Self { token: Some(token.to_owned()), ..self }
    }

    /// The request payload this builder stands for: the chosen cursor, or
    /// the synthetic wall-clock cursor when none was set, always with the
    /// fixed page size.
    pub fn build(self) -> (r: QueryRequestData)
        ensures
            r.fan_id == self.fan_id,
            r.count == crate::DEFAULT_COUNT,
            self.token is Some ==> r.token == self.token->0,
            self.token is None ==> exists|t: i64| 0 <= t && r.token@ == initial_token(t as int),
    {
        let token = match self.token {
            Some(token) => token,
            None => utc_now_token(),
        };
        QueryRequestData::new(self.fan_id, token)
    }
}

} // verus!
