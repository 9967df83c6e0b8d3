//! The wire-to-memory model: one catalog item, and one page of server
//! results.
use vstd::prelude::*;

verus! {

/// What the remote service answers for an RFC-2822 date-time string: the
/// instant as non-leap seconds since the Unix epoch, already normalized to
/// UTC, or nothing when the string does not parse.
pub uninterp spec fn rfc2822_utc_seconds(s: Seq<char>) -> Option<i64>;

/// Relies on chrono's `DateTime::parse_from_rfc2822` and
/// `DateTime::timestamp`: parsing depends on the characters alone, and
/// `timestamp` returns the non-leap seconds since the Unix epoch of the
/// parsed instant, whatever zone offset the string carried — that is, the
/// value is the instant normalized to UTC.
#[verifier::external_body]
fn parse_rfc2822_utc(s: &str) -> (r: Option<i64>)
    ensures
        r == rfc2822_utc_seconds(s@),
{
    match chrono::DateTime::parse_from_rfc2822(s) {
        Ok(parsed) => Some(parsed.timestamp()),
        Err(_) => None,
    }
}

/// Why a page could not be decoded into items.
#[derive(Debug, Clone, Copy, PartialEq, Eq, Structural)]
pub enum DecodeError {
    /// The `added` field was not a valid RFC-2822 date-time. This is fatal
    /// for the whole page fetch: no default timestamp is substituted.
    InvalidTimestamp,
}

/// A singular item contained within the collection or wishlist; usually an
/// album, but sometimes a track. `added` is the instant the item entered the
/// collection, in non-leap seconds since the Unix epoch (UTC).
#[derive(Debug, Clone, PartialEq)]
pub struct QueryItem {
    pub added: i64,
    pub band_name: String,
    pub album_id: u32,
    pub album_title: String,
}

impl QueryItem {
    /// Builds one item from its wire fields. The `added` field arrives as an
    /// RFC-2822 date-time string; a malformed one is a hard decode failure,
    /// never a recovered default.
    pub fn from_raw(added: &str, band_name: String, album_id: u32, album_title: String) -> (r:
        Result<QueryItem, DecodeError>)
        ensures
            match r {
                Ok(item) => {
                    &&& rfc2822_utc_seconds(added@) == Some(item.added)
                    &&& item.band_name == band_name
                    &&& item.album_id == album_id
                    &&& item.album_title == album_title
                },
                Err(e) => {
                    &&& rfc2822_utc_seconds(added@) is None
                    &&& e == DecodeError::InvalidTimestamp
                },
            },
    {
        match parse_rfc2822_utc(added) {
            Some(added) => Ok(QueryItem { added, band_name, album_id, album_title }),
            None => Err(DecodeError::InvalidTimestamp),
        }
    }
}

/// One page of server results: a batch of items in server order, the cursor
/// for the next page, and whether a next page exists at all.
#[derive(Debug)]
pub struct QueryResponseData {
    pub items: Vec<QueryItem>,
    pub last_token: String,
    pub more_available: bool,
}

/// The mathematical shape of one page.
#[verifier::ext_equal]
pub struct PageModel {
    pub items: Seq<QueryItem>,
    pub last_token: Seq<char>,
    pub more_available: bool,
}

impl View for QueryResponseData {
    type V = PageModel;

    open spec fn view(&self) -> PageModel {
        PageModel {
            items: self.items@,
            last_token: self.last_token@,
            more_available: self.more_available,
        }
    }
}

} // verus!
