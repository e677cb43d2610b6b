//! The execution adapter: what a server's reply means for the request that
//! was sent.
//!
//! Sending is the caller's business. The caller takes the [`Request`] for
//! its query, sends it over its transport, and reports the outcome as a
//! [`Reply`]. The functions here turn
//! the reply into the JSON envelope, the count or the replication page that
//! the request was made for, or into the error that the reply amounts to.

use vstd::prelude::*;
use vstd::string::*;
use crate::error::ResoError;
use crate::json::{documents, is_json, json_array, json_string, json_u64, member, Document};
use crate::query::{Query, QueryView};
use crate::replication::{PageView, ReplicationQuery, ReplicationResponse};
use crate::text::opt_text;

verus! {

/// The HTTP method of a request. The library only ever reads.
#[derive(Clone, Copy, Debug, PartialEq, Eq, Structural)]
pub enum Method {
    /// `GET`.
    Get,
}

/// A request, ready for a transport to send.
#[derive(Clone, Debug, PartialEq, Eq)]
pub struct Request {
    /// The HTTP method.
    pub method: Method,
    /// The address to send to.
    pub url: String,
}

/// The request that asks the server at `base` for the answer to `query`.
/// `base` is the address of the service without a slash at its end.
pub fn query_request(query: &Query, base: &str) -> (r: Request)
    ensures
        r.method == Method::Get,
        r.url@ == query@.url(base@),
{
    Request { method: Method::Get, url: query.render_url(base) }
}

/// The request that asks the server at `base` for the first page of a
/// replication stream.
pub fn replication_request(query: &ReplicationQuery, base: &str) -> (r: Request)
    ensures
        r.method == Method::Get,
        r.url@ == query@.url(base@),
{
    Request { method: Method::Get, url: query.render_url(base) }
}

/// The request that follows a continuation link: the link is sent as the
/// server issued it.
pub fn next_page_request(link: &str) -> (r: Request)
    ensures
        r.method == Method::Get,
        r.url@ == link@,
{
    Request { method: Method::Get, url: String::from_str(link) }
}

/// The outcome of sending one request.
#[derive(Clone, Debug, PartialEq, Eq)]
pub enum Reply {
    /// The transport could not complete the request.
    Failed,
    /// The transport gave up waiting for the server.
    TimedOut,
    /// The server answered.
    Response {
        /// The HTTP status of the answer.
        status: u16,
        /// The body of the answer.
        body: String,
    },
}

/// Whether `status` reports success: a status from 200 to 299.
pub open spec fn is_success(status: u16) -> bool {
    200 <= status <= 299
}

/// The error that an unsuccessful status amounts to: `NotFound` for a 404
/// that answers a keyed lookup, the status itself otherwise.
pub open spec fn status_error(status: u16, keyed: bool) -> ResoError {
    if keyed && status == 404 {
        ResoError::NotFound
    } else {
        ResoError::HttpStatus(status)
    }
}

/// The body of a successful answer, or the error that the reply amounts to.
pub open spec fn reply_body(reply: Reply, keyed: bool) -> Result<Seq<char>, ResoError> {
    match reply {
        Reply::Failed => Err(ResoError::TransportError),
        Reply::TimedOut => Err(ResoError::Timeout),
        Reply::Response { status, body } => if is_success(status) {
            Ok(body@)
        } else {
            Err(status_error(status, keyed))
        },
    }
}

/// The records of an envelope: the elements of its `value` member; `None`
/// if the envelope is no object, has no such member, or the member is no
/// array.
pub open spec fn records_in(envelope: Seq<char>) -> Option<Seq<Seq<char>>> {
    match member(envelope, "value"@) {
        Some(value) => json_array(value),
        None => None,
    }
}

/// The count of an envelope: the number in its `@odata.count` member;
/// `None` if the envelope is no object, has no such member, or the member
/// is no whole number that fits 64 bits.
pub open spec fn count_in(envelope: Seq<char>) -> Option<u64> {
    match member(envelope, "@odata.count"@) {
        Some(count) => json_u64(count),
        None => None,
    }
}

/// The continuation link of an envelope: the string in its
/// `@odata.nextLink` member; `None` if the envelope is no object, has no
/// such member, or the member is no string.
pub open spec fn next_link_in(envelope: Seq<char>) -> Option<Seq<char>> {
    match member(envelope, "@odata.nextLink"@) {
        Some(link) => json_string(link),
        None => None,
    }
}

/// What a reply to a standard query yields: the body as it came, provided
/// that the answer was successful and its body is JSON, of whatever kind.
pub open spec fn response_of(query: QueryView, reply: Reply) -> Result<Seq<char>, ResoError> {
    match reply_body(reply, query.key is Some) {
        Ok(body) => if is_json(body) {
            Ok(body)
        } else {
            Err(ResoError::MalformedResponse)
        },
        Err(e) => Err(e),
    }
}

/// What a reply to a count query yields: the count in the body, provided
/// that the answer was successful and carries one.
pub open spec fn count_of(reply: Reply) -> Result<u64, ResoError> {
    match reply_body(reply, false) {
        Ok(body) => match count_in(body) {
            Some(n) => Ok(n),
            None => Err(ResoError::MalformedResponse),
        },
        Err(e) => Err(e),
    }
}

/// The page that a body holds: its records, or none if it carries no
/// array of them, and its continuation link if it carries one. A body that
/// is no object holds the empty page.
pub open spec fn page_in(envelope: Seq<char>) -> PageView {
    PageView {
        records: match records_in(envelope) {
            Some(records) => records,
            None => seq![],
        },
        next_link: next_link_in(envelope),
    }
}

/// What a reply to a replication request yields: the page in the body,
/// provided that the answer was successful and its body is JSON.
pub open spec fn page_of(reply: Reply) -> Result<PageView, ResoError> {
    match reply_body(reply, false) {
        Ok(body) => if is_json(body) {
            Ok(page_in(body))
        } else {
            Err(ResoError::MalformedResponse)
        },
        Err(e) => Err(e),
    }
}

/// The view of a body that was borrowed from a reply, or the error.
pub open spec fn borrowed(r: Result<&str, ResoError>) -> Result<Seq<char>, ResoError> {
    match r {
        Ok(body) => Ok(body@),
        Err(e) => Err(e),
    }
}

/// The view of an envelope that was read, or the error.
pub open spec fn envelope(r: Result<Document, ResoError>) -> Result<Seq<char>, ResoError> {
    match r {
        Ok(document) => Ok(document@),
        Err(e) => Err(e),
    }
}

/// The view of a page that was read, or the error.
pub open spec fn page(r: Result<ReplicationResponse, ResoError>) -> Result<PageView, ResoError> {
    match r {
        Ok(response) => Ok(response@),
        Err(e) => Err(e),
    }
}

/// Whether `status` reports success: a status from 200 to 299.
pub fn status_is_success(status: u16) -> (r: bool)
    ensures
        r == is_success(status),
{
    200 <= status && status <= 299
}

/// The error that an unsuccessful status amounts to: `NotFound` for a 404
/// that answers a keyed lookup, the status itself otherwise.
pub fn error_for_status(status: u16, keyed: bool) -> (r: ResoError)
    ensures
        r == status_error(status, keyed),
{
    if keyed && status == 404 {
        ResoError::NotFound
    } else {
        ResoError::HttpStatus(status)
    }
}

/// The body of a successful answer, or the error that the reply amounts to.
pub fn successful_body(reply: &Reply, keyed: bool) -> (r: Result<&str, ResoError>)
    ensures
        borrowed(r) == reply_body(*reply, keyed),
{
    match reply {
        Reply::Failed => Err(ResoError::TransportError),
        Reply::TimedOut => Err(ResoError::Timeout),
        Reply::Response { status, body } => {
            if status_is_success(*status) {
                Ok(body.as_str())
            } else {
                Err(error_for_status(*status, keyed))
            }
        },
    }
}

/// The value that a reply was expected to carry, or `MalformedResponse` if
/// it carries none.
pub fn expected<T>(item: Option<T>) -> (r: Result<T, ResoError>)
    ensures
        match item {
            Some(value) => r == Ok::<T, ResoError>(value),
            None => r == Err::<T, ResoError>(ResoError::MalformedResponse),
        },
{
    match item {
        Some(value) => Ok(value),
        None => Err(ResoError::MalformedResponse),
    }
}

/// The records of an envelope: the elements of its `value` member; `None`
/// if the envelope is no object, has no such member, or the member is no
/// array.
pub fn records_of(envelope: &Document) -> (r: Option<Vec<Document>>)
    ensures
        match r {
            Some(records) => records_in(envelope@) == Some(documents(records@)),
            None => records_in(envelope@) is None,
        },
{
    match envelope.get_field("value") {
        Some(value) => value.elements(),
        None => None,
    }
}

/// The count of an envelope: the number in its `@odata.count` member.
pub fn count_in_envelope(envelope: &Document) -> (r: Option<u64>)
    ensures
        r == count_in(envelope@),
{
    match envelope.get_field("@odata.count") {
        Some(count) => count.as_u64(),
        None => None,
    }
}

/// The continuation link of an envelope: the string in its
/// `@odata.nextLink` member.
pub fn next_link_of(envelope: &Document) -> (r: Option<String>)
    ensures
        opt_text(r) == next_link_in(envelope@),
{
    match envelope.get_field("@odata.nextLink") {
        Some(link) => link.as_text(),
        None => None,
    }
}

/// The page made of the records that an envelope carried, or of none if it
/// carried no array of them, and of the continuation link if it carried one.
pub fn page_from(records: Option<Vec<Document>>, next_link: Option<String>) -> (r:
    ReplicationResponse)
    ensures
        r@.records == match records {
            Some(list) => documents(list@),
            None => seq![],
        },
        r@.next_link == opt_text(next_link),
{
    match records {
        Some(list) => ReplicationResponse::new(list, next_link),
        None => {
            let r = ReplicationResponse::new(Vec::new(), next_link);
            assert(documents(r.records@) =~= Seq::<Seq<char>>::empty());
            r
        },
    }
}

/// Reads the reply to a standard query.
///
/// A reply that is no successful answer is the error that it amounts to: a
/// transport failure, a timeout, `NotFound` for a 404 that answers a keyed
/// lookup, the HTTP status otherwise. The body of a successful answer is
/// returned as it came, whether or not it carries records and whatever kind
/// of JSON value it is; only a body that is no JSON at all is
/// `MalformedResponse`.
pub fn read_response(query: &Query, reply: &Reply) -> (r: Result<Document, ResoError>)
    ensures
        envelope(r) == response_of(query@, *reply),
{
    let body = match successful_body(reply, query.is_keyed()) {
        Ok(body) => body,
        Err(e) => {
            return Err(e);
        },
    };
    let document = Document::new(body);
    if document.is_valid() {
        Ok(document)
    } else {
        Err(ResoError::MalformedResponse)
    }
}

/// Reads the reply to a count query.
///
/// A reply that is no successful answer is the error that it amounts to. A
/// successful answer yields the number in the `@odata.count` member of its
/// body; a body without such a number is `MalformedResponse`.
pub fn read_count(reply: &Reply) -> (r: Result<u64, ResoError>)
    ensures
        r == count_of(*reply),
{
    let body = match successful_body(reply, false) {
        Ok(body) => body,
        Err(e) => {
            return Err(e);
        },
    };
    expected(count_in_envelope(&Document::new(body)))
}

/// Reads the reply to a replication request, be it the first request or one
/// that follows a continuation link.
///
/// A reply that is no successful answer is the error that it amounts to. A
/// successful answer yields the records of its body and the continuation
/// link if there is one, and the empty page if its body is JSON but holds
/// neither; a body that is no JSON at all is `MalformedResponse`. No link is
/// followed here.
pub fn read_replication(reply: &Reply) -> (r: Result<ReplicationResponse, ResoError>)
    ensures
        page(r) == page_of(*reply),
{
    let body = match successful_body(reply, false) {
        Ok(body) => body,
        Err(e) => {
            return Err(e);
        },
    };
    let document = Document::new(body);
    if !document.is_valid() {
        return Err(ResoError::MalformedResponse);
    }
    Ok(page_from(records_of(&document), next_link_of(&document)))
}

} // verus!
