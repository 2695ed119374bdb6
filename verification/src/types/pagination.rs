//! Pagination of a listing, read from the parameters of a query.
//!
//! A listing is paged by a limit and an offset, which is what the store
//! takes: a page that reaches past the end is shorter or empty, never a
//! failure. A listing that was fetched whole can instead be cut by a range of
//! places, `start` to `end`; there a range that reaches past the end is a
//! failure. The two ways have different keys, and each has its own extractor.

use crate::error::Error;
use crate::number::{
    lemma_parse_int_ok, parse_count, parse_count_spec, parse_i32, parse_i32_spec, parse_usize,
    parse_usize_spec, IntErrorKind,
};
use crate::params::QueryParams;
use vstd::prelude::*;

verus! {

/// A page of a listing: where it starts and how many items it holds at most.
#[derive(Clone, Copy, Debug, PartialEq, Eq, Structural)]
pub struct Pagination {
    /// The number of items that are returned at most; `None` for no limit.
    /// A limit that was read from a query is not negative.
    pub limit: Option<i32>,
    /// The number of items that are skipped. A negative offset is read as it
    /// stands; the store turns it down.
    pub offset: i32,
}

impl Pagination {
    /// The whole listing: no limit, from the first item on.
    pub open spec fn all() -> Pagination {
        Pagination { limit: None, offset: 0 }
    }
}

impl Default for Pagination {
    fn default() -> (p: Pagination)
        ensures
            p == Pagination::all(),
    {
        Pagination { limit: None, offset: 0 }
    }
}

/// What the parameters of a query ask for. Without `limit` and without
/// `offset` it is the whole listing. With only one of the two a parameter is
/// missing. With both, `limit` must read as an `i32` and be zero or more,
/// and then `offset` must read as an `i32`.
pub open spec fn extract_pagination_spec(params: Map<Seq<char>, Seq<char>>) -> Result<
    Pagination,
    Error,
> {
    let has_limit = params.contains_key("limit"@);
    let has_offset = params.contains_key("offset"@);
    if !has_limit && !has_offset {
        Ok(Pagination::all())
    } else if !has_limit || !has_offset {
        Err(Error::MissingParameters)
    } else {
        match parse_count_spec(params["limit"@]) {
            Err(kind) => Err(Error::ParseError(kind)),
            Ok(limit) => match parse_i32_spec(params["offset"@]) {
                Err(kind) => Err(Error::ParseError(kind)),
                Ok(offset) => Ok(Pagination { limit: Some(limit as i32), offset: offset as i32 }),
            },
        }
    }
}

/// The limit that the parameters of a query ask for is never negative.
pub proof fn lemma_extracted_limit_not_negative(params: Map<Seq<char>, Seq<char>>)
    ensures
        extract_pagination_spec(params) matches Ok(page) ==> (page.limit matches Some(l) ==> l
            >= 0),
{
    if params.contains_key("limit"@) {
        lemma_parse_int_ok(params["limit"@], true, i32::MIN as int, i32::MAX as int);
    }
}

/// Where both parameters are there, every limit that reads as an `i32` of
/// zero or more, whatever its sign, and every offset that reads as an `i32`
/// are taken as they read.
pub proof fn lemma_extracted_as_read(params: Map<Seq<char>, Seq<char>>, limit: int, offset: int)
    requires
        params.contains_key("limit"@),
        params.contains_key("offset"@),
        parse_i32_spec(params["limit"@]) == Ok::<int, IntErrorKind>(limit),
        parse_i32_spec(params["offset"@]) == Ok::<int, IntErrorKind>(offset),
        limit >= 0,
    ensures
        i32::MIN <= limit <= i32::MAX,
        i32::MIN <= offset <= i32::MAX,
        extract_pagination_spec(params) == Ok::<Pagination, Error>(
            Pagination { limit: Some(limit as i32), offset: offset as i32 },
        ),
{
    lemma_parse_int_ok(params["limit"@], true, i32::MIN as int, i32::MAX as int);
    lemma_parse_int_ok(params["offset"@], true, i32::MIN as int, i32::MAX as int);
}

/// Reads the pagination of a listing from the parameters `limit` and
/// `offset` of a query. Other parameters are not looked at.
pub fn extract_pagination(params: QueryParams) -> (r: Result<Pagination, Error>)
    ensures
        r == extract_pagination_spec(params@),
        r matches Ok(page) ==> (page.limit matches Some(l) ==> l >= 0),
{
    proof {
        lemma_extracted_limit_not_negative(params@);
    }
    let limit_text = params.get("limit");
    let offset_text = params.get("offset");
    match (limit_text, offset_text) {
        (None, None) => Ok(Pagination::default()),
        (Some(limit_text), Some(offset_text)) => {
            let limit = match parse_count(limit_text.as_str()) {
                Ok(limit) => limit,
                Err(kind) => {
                    return Err(Error::ParseError(kind));
                },
            };
            let offset = match parse_i32(offset_text.as_str()) {
                Ok(offset) => offset,
                Err(kind) => {
                    return Err(Error::ParseError(kind));
                },
            };
            Ok(Pagination { limit: Some(limit), offset })
        },
        _ => Err(Error::MissingParameters),
    }
}

/// A range of places in a listing, from `start` up to but without `end`.
#[derive(Clone, Copy, Debug, PartialEq, Eq, Structural)]
pub struct IndexRange {
    /// The place of the first item that is returned.
    pub start: usize,
    /// The place behind the last item that is returned.
    pub end: usize,
}

/// What the parameters of a query ask for. Without `start` and without `end`
/// it is the whole listing, `None`. With only one of the two a parameter is
/// missing. With both, each must read as a `usize`, `start` first, and the
/// range must not start behind its end.
pub open spec fn extract_index_range_spec(params: Map<Seq<char>, Seq<char>>) -> Result<
    Option<IndexRange>,
    Error,
> {
    let has_start = params.contains_key("start"@);
    let has_end = params.contains_key("end"@);
    if !has_start && !has_end {
        Ok(None)
    } else if !has_start || !has_end {
        Err(Error::MissingParameters)
    } else {
        match parse_usize_spec(params["start"@]) {
            Err(kind) => Err(Error::ParseError(kind)),
            Ok(start) => match parse_usize_spec(params["end"@]) {
                Err(kind) => Err(Error::ParseError(kind)),
                Ok(end) => if start > end {
                    Err(Error::StartLargerThanEnd)
                } else {
                    Ok(Some(IndexRange { start: start as usize, end: end as usize }))
                },
            },
        }
    }
}

/// Reads a range of places from the parameters `start` and `end` of a query.
/// Other parameters are not looked at. The range is checked as far as it can
/// be without the listing: that it fits the listing is for `slice` to say.
pub fn extract_index_range(params: QueryParams) -> (r: Result<Option<IndexRange>, Error>)
    ensures
        r == extract_index_range_spec(params@),
        r matches Ok(Some(range)) ==> range.start <= range.end,
{
    let start_text = params.get("start");
    let end_text = params.get("end");
    match (start_text, end_text) {
        (None, None) => Ok(None),
        (Some(start_text), Some(end_text)) => {
            let start = match parse_usize(start_text.as_str()) {
                Ok(start) => start,
                Err(kind) => {
                    return Err(Error::ParseError(kind));
                },
            };
            let end = match parse_usize(end_text.as_str()) {
                Ok(end) => end,
                Err(kind) => {
                    return Err(Error::ParseError(kind));
                },
            };
            if start > end {
                return Err(Error::StartLargerThanEnd);
            }
            Ok(Some(IndexRange { start, end }))
        },
        _ => Err(Error::MissingParameters),
    }
}

impl IndexRange {
    /// The items of `list` at the places of the range. A range that starts
    /// behind its end fails first; one that ends behind the last item of the
    /// list is out of bounds.
    pub fn slice<T>(&self, list: Vec<T>) -> (r: Result<Vec<T>, Error>)
        ensures
            self.start > self.end ==> r == Err::<Vec<T>, Error>(Error::StartLargerThanEnd),
            self.start <= self.end && self.end > list.len() ==> r == Err::<Vec<T>, Error>(
                Error::OutOfBounds,
            ),
            self.start <= self.end <= list.len() ==> r is Ok && r->Ok_0@ == list@.subrange(
                self.start as int,
                self.end as int,
            ),
    {
        if self.start > self.end {
            return Err(Error::StartLargerThanEnd);
        }
        if self.end > list.len() {
            return Err(Error::OutOfBounds);
        }
        let mut list = list;
        list.truncate(self.end);
        let page = list.split_off(self.start);
        Ok(page)
    }
}

} // verus!
