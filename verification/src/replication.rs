//! Replication: bulk retrieval of a resource, page by page.
//!
//! A replication query names a resource and, if wanted, a filter. It has no
//! selection, ordering or offset: the server decides the order, and each page
//! it sends carries the link to the next one.

use vstd::prelude::*;
use vstd::string::*;
use crate::error::ResoError;
use crate::json::{documents, Document};
use crate::text::{blank, is_blank, opt_slice, opt_text};

verus! {

/// What a [`ReplicationQuery`] holds, as mathematical values.
pub struct ReplicationQueryView {
    /// The name of the collection to replicate.
    pub resource: Seq<char>,
    /// The filter predicate.
    pub filter: Option<Seq<char>>,
}

impl ReplicationQueryView {
    /// A named resource.
    pub open spec fn wf(self) -> bool {
        !is_blank(self.resource)
    }

    /// The query string: the `$filter` parameter, or nothing.
    pub open spec fn params(self) -> Seq<char> {
        match self.filter {
            Some(f) => "$filter="@ + f,
            None => Seq::empty(),
        }
    }

    /// The path of the request: the replication endpoint of the resource.
    pub open spec fn path(self) -> Seq<char> {
        self.resource + "/replication"@
    }

    /// The request relative to the server's base: the path, and after a `?`
    /// the query string if there is a filter.
    pub open spec fn request(self) -> Seq<char> {
        match self.filter {
            Some(f) => self.path() + "?"@ + self.params(),
            None => self.path(),
        }
    }

    /// The address of the request on the server at `base`.
    pub open spec fn url(self, base: Seq<char>) -> Seq<char> {
        base + "/"@ + self.request()
    }
}

/// A request for the first page of a replication stream. Its clauses cannot
/// be changed, and the resource is always named.
#[derive(Debug)]
pub struct ReplicationQuery {
    resource: String,
    filter: Option<String>,
}

impl View for ReplicationQuery {
    type V = ReplicationQueryView;

    closed spec fn view(&self) -> ReplicationQueryView {
        ReplicationQueryView { resource: self.resource@, filter: opt_text(self.filter) }
    }
}

impl ReplicationQuery {
    #[verifier::type_invariant]
    spec fn inv(self) -> bool {
        self@.wf()
    }

    /// The name of the collection to replicate; never blank.
    pub fn resource(&self) -> (r: &str)
        ensures
            r@ == self@.resource,
            self@.wf(),
    {
        proof {
            use_type_invariant(self);
        }
        self.resource.as_str()
    }

    /// The filter predicate, if one is set, as it was given.
    pub fn filter(&self) -> (r: Option<&str>)
        ensures
            opt_slice(r) == self@.filter,
            self@.wf(),
    {
        proof {
            use_type_invariant(self);
        }
        match &self.filter {
            Some(f) => Some(f.as_str()),
            None => None,
        }
    }

    /// The query string: the `$filter` parameter, or nothing.
    pub fn render_params(&self) -> (r: String)
        ensures
            r@ == self@.params(),
    {
        match &self.filter {
            Some(f) => String::from_str("$filter=").concat(f.as_str()),
            None => String::new(),
        }
    }

    /// The request relative to the server's base: the replication endpoint
    /// of the resource, and after a `?` the query string if there is a
    /// filter.
    pub fn render_request(&self) -> (r: String)
        ensures
            r@ == self@.request(),
    {
        let path = String::from_str(self.resource.as_str()).concat("/replication");
        match &self.filter {
            Some(_) => {
                let params = self.render_params();
                path.concat("?").concat(params.as_str())
            },
            None => path,
        }
    }

    /// The address of the request on the server at `base`.
    pub fn render_url(&self, base: &str) -> (r: String)
        ensures
            r@ == self@.url(base@),
    {
        let request = self.render_request();
        String::from_str(base).concat("/").concat(request.as_str())
    }
}

/// What a [`ReplicationQueryBuilder`] has accumulated, as mathematical
/// values.
pub struct ReplicationBuilderView {
    /// The name of the collection to replicate.
    pub resource: Seq<char>,
    /// The filter predicate as it was set, empty or not.
    pub filter: Option<Seq<char>>,
}

impl ReplicationBuilderView {
    /// A builder for `resource` with no filter.
    pub open spec fn new(resource: Seq<char>) -> ReplicationBuilderView {
        ReplicationBuilderView { resource, filter: None }
    }

    /// The builder after the filter was set.
    pub open spec fn with_filter(self, expression: Seq<char>) -> ReplicationBuilderView {
        ReplicationBuilderView { filter: Some(expression), ..self }
    }

    /// The builder after the filter was set, if there is one to set.
    pub open spec fn maybe_filter(self, expression: Option<Seq<char>>) -> ReplicationBuilderView {
        match expression {
            Some(e) => self.with_filter(e),
            None => self,
        }
    }

    /// The query that the clauses make.
    pub open spec fn query(self) -> ReplicationQueryView {
        ReplicationQueryView { resource: self.resource, filter: self.filter }
    }

    /// What building yields: the query, unless the resource name is blank.
    pub open spec fn validate(self) -> Result<ReplicationQueryView, ResoError> {
        if is_blank(self.resource) {
            Err(ResoError::MissingResource)
        } else {
            Ok(self.query())
        }
    }
}

/// The view of what building returned.
pub open spec fn built_replication(r: Result<ReplicationQuery, ResoError>) -> Result<
    ReplicationQueryView,
    ResoError,
> {
    match r {
        Ok(q) => Ok(q@),
        Err(e) => Err(e),
    }
}

/// The builder of replication queries. It has a setter for the filter and
/// for nothing else.
pub struct ReplicationQueryBuilder {
    resource: String,
    filter: Option<String>,
}

impl View for ReplicationQueryBuilder {
    type V = ReplicationBuilderView;

    closed spec fn view(&self) -> ReplicationBuilderView {
        ReplicationBuilderView { resource: self.resource@, filter: opt_text(self.filter) }
    }
}

impl ReplicationQueryBuilder {
    /// Starts a replication query on `resource`, with no filter.
    pub fn new(resource: &str) -> (r: ReplicationQueryBuilder)
        ensures
            r@ == ReplicationBuilderView::new(resource@),
    {
        ReplicationQueryBuilder { resource: String::from_str(resource), filter: None }
    }

    /// Sets the filter predicate. The expression is kept as it is given,
    /// empty or not.
    pub fn filter(self, expression: &str) -> (r: ReplicationQueryBuilder)
        ensures
            r@ == self@.with_filter(expression@),
    {
        let mut b = self;
        b.filter = Some(String::from_str(expression));
        b
    }

    /// Validates the clauses and yields the query; the one rule is that the
    /// resource is named.
    pub fn build(self) -> (r: Result<ReplicationQuery, ResoError>)
        ensures
            built_replication(r) == self@.validate(),
            r matches Ok(q) ==> q@.wf(),
    {
        if blank(self.resource.as_str()) {
            return Err(ResoError::MissingResource);
        }
        Ok(ReplicationQuery { resource: self.resource, filter: self.filter })
    }
}

/// A replication query on `resource`, filtered if asked.
pub fn build_replication_query(resource: &str, filter: Option<&str>) -> (r: Result<
    ReplicationQuery,
    ResoError,
>)
    ensures
        built_replication(r) == ReplicationBuilderView::new(resource@).maybe_filter(
            opt_slice(filter),
        ).validate(),
{
    let mut builder = ReplicationQueryBuilder::new(resource);
    if let Some(expression) = filter {
        builder = builder.filter(expression);
    }
    builder.build()
}

/// What a [`ReplicationResponse`] holds, as mathematical values.
pub struct PageView {
    /// The texts of the records, in the order in which the server sent them.
    pub records: Seq<Seq<char>>,
    /// The link to the next page; `None` on the last page.
    pub next_link: Option<Seq<char>>,
}

/// One page of a replication stream.
#[derive(Clone, Debug, PartialEq, Eq)]
pub struct ReplicationResponse {
    /// The records of the page, in the order in which the server sent them.
    pub records: Vec<Document>,
    /// The link that the server issued for the next page; `None` when the
    /// stream is exhausted.
    pub next_link: Option<String>,
}

impl View for ReplicationResponse {
    type V = PageView;

    open spec fn view(&self) -> PageView {
        PageView { records: documents(self.records@), next_link: opt_text(self.next_link) }
    }
}

impl ReplicationResponse {
    /// A page that holds `records` and leads to `next_link`.
    pub fn new(records: Vec<Document>, next_link: Option<String>) -> (r: ReplicationResponse)
        ensures
            r.records == records,
            r.next_link == next_link,
    {
        ReplicationResponse { records, next_link }
    }

    /// The number of records in the page.
    pub fn record_count(&self) -> (r: usize)
        ensures
            r == self@.records.len(),
    {
        self.records.len()
    }

    /// Whether the server has more pages to send.
    pub fn has_more(&self) -> (r: bool)
        ensures
            r == self@.next_link is Some,
    {
        self.next_link.is_some()
    }

    /// The link to the next page, if there is one.
    pub fn next_link(&self) -> (r: Option<&str>)
        ensures
            opt_slice(r) == self@.next_link,
    {
        match &self.next_link {
            Some(link) => Some(link.as_str()),
            None => None,
        }
    }
}

} // verus!
