//! The fluent builder of standard queries, the rules it validates, and the
//! ready-made constructors for the usual shapes of a query.
//!
//! A builder accepts any sequence of setter calls. Nothing is checked until
//! [`QueryBuilder::build`], which either yields a [`Query`] or names the
//! first rule that the clauses break. The rules are tried in this order:
//!
//! 1. a limit of zero is [`ResoError::InvalidLimit`];
//! 2. a key together with a filter, an offset, a limit or a count, and a
//!    count together with a selection, an ordering, an expansion, a limit or
//!    an offset, are [`ResoError::ConflictingClause`];
//! 3. a direction other than `asc` and `desc` is
//!    [`ResoError::InvalidDirection`];
//! 4. a blank resource name is [`ResoError::MissingResource`].
//!
//! The filter is opaque to the builder. Whether one is set is all that the
//! rules ask; what it says, be it nothing at all, is the server's to judge.

use vstd::prelude::*;
use vstd::string::*;
use crate::error::ResoError;
use crate::query::{Direction, OrderBy, Query, QueryView};
use crate::text::{
    blank,
    is_blank,
    lemma_same_ignoring_case_is_an_equivalence,
    opt_slices,
    opt_slice,
    opt_text,
    same_ignoring_case,
    slices,
    texts,
    to_strings,
};

verus! {

/// An ordering as it was asked for: the direction is still the caller's
/// word.
struct RawOrder {
    field: String,
    direction: String,
}

spec fn opt_raw_order(item: Option<RawOrder>) -> Option<(Seq<char>, Seq<char>)> {
    match item {
        Some(order) => Some((order.field@, order.direction@)),
        None => None,
    }
}

/// What a [`QueryBuilder`] has accumulated, as mathematical values.
pub struct BuilderView {
    /// The name of the collection to query.
    pub resource: Seq<char>,
    /// The primary key, if a keyed lookup was asked for.
    pub key: Option<Seq<char>>,
    /// The filter predicate as it was set. The builder does not look into
    /// it: an empty expression is a filter like any other.
    pub filter: Option<Seq<char>>,
    /// The fields to return; empty if none were named.
    pub select: Seq<Seq<char>>,
    /// The field to order by and the direction as the caller wrote it.
    pub order_by: Option<(Seq<char>, Seq<char>)>,
    /// The navigation properties to expand; empty if none were named.
    pub expand: Seq<Seq<char>>,
    /// The most records to return.
    pub top: Option<u32>,
    /// How many records to pass over.
    pub skip: Option<u32>,
    /// Whether only the number of matching records is asked for.
    pub count_only: bool,
}

impl BuilderView {
    /// A builder for `resource` with no clause set.
    pub open spec fn new(resource: Seq<char>) -> BuilderView {
        BuilderView {
            resource,
            key: None,
            filter: None,
            select: seq![],
            order_by: None,
            expand: seq![],
            top: None,
            skip: None,
            count_only: false,
        }
    }

    /// A builder for the record of `resource` whose primary key is `key`.
    pub open spec fn by_key(resource: Seq<char>, key: Seq<char>) -> BuilderView {
        Self::new(resource).with_key(key)
    }

    /// The builder after the key was set.
    pub open spec fn with_key(self, key: Seq<char>) -> BuilderView {
        BuilderView { key: Some(key), ..self }
    }

    /// The builder after the filter was set.
    pub open spec fn with_filter(self, expression: Seq<char>) -> BuilderView {
        BuilderView { filter: Some(expression), ..self }
    }

    /// The builder after the filter was set, if there is one to set.
    pub open spec fn maybe_filter(self, expression: Option<Seq<char>>) -> BuilderView {
        match expression {
            Some(e) => self.with_filter(e),
            None => self,
        }
    }

    /// The builder after the selected fields were set.
    pub open spec fn with_select(self, fields: Seq<Seq<char>>) -> BuilderView {
        BuilderView { select: fields, ..self }
    }

    /// The builder after the selected fields were set, if there are any to
    /// set.
    pub open spec fn maybe_select(self, fields: Option<Seq<Seq<char>>>) -> BuilderView {
        match fields {
            Some(f) => self.with_select(f),
            None => self,
        }
    }

    /// The builder after the ordering was set.
    pub open spec fn with_order_by(self, field: Seq<char>, direction: Seq<char>) -> BuilderView {
        BuilderView { order_by: Some((field, direction)), ..self }
    }

    /// The builder after the navigation properties to expand were set.
    pub open spec fn with_expand(self, fields: Seq<Seq<char>>) -> BuilderView {
        BuilderView { expand: fields, ..self }
    }

    /// The builder after the limit was set.
    pub open spec fn with_top(self, n: u32) -> BuilderView {
        BuilderView { top: Some(n), ..self }
    }

    /// The builder after the limit was set, if there is one to set.
    pub open spec fn maybe_top(self, n: Option<u32>) -> BuilderView {
        match n {
            Some(limit) => self.with_top(limit),
            None => self,
        }
    }

    /// The builder after the offset was set.
    pub open spec fn with_skip(self, n: u32) -> BuilderView {
        BuilderView { skip: Some(n), ..self }
    }

    /// The builder after a bare count was asked for.
    pub open spec fn with_count(self) -> BuilderView {
        BuilderView { count_only: true, ..self }
    }

    /// Whether a keyed lookup is combined with a clause that filters, pages
    /// or counts.
    pub open spec fn key_conflicts(self) -> bool {
        self.key is Some && (self.filter is Some || self.skip is Some || self.top is Some
            || self.count_only)
    }

    /// Whether a bare count is combined with a clause that shapes or pages
    /// the records.
    pub open spec fn count_conflicts(self) -> bool {
        self.count_only && (self.select.len() > 0 || self.order_by is Some || self.expand.len() > 0
            || self.top is Some || self.skip is Some)
    }

    /// Whether the direction of the ordering, if there is one, is a word
    /// other than `asc` and `desc`.
    pub open spec fn direction_unknown(self) -> bool {
        self.order_by matches Some((_, direction)) && Direction::parse_spec(direction) is None
    }

    /// The ordering with its direction read.
    pub open spec fn order(self) -> Option<(Seq<char>, Direction)> {
        match self.order_by {
            Some((field, direction)) => match Direction::parse_spec(direction) {
                Some(d) => Some((field, d)),
                None => None,
            },
            None => None,
        }
    }

    /// The query that the clauses make.
    pub open spec fn query(self) -> QueryView {
        QueryView {
            resource: self.resource,
            key: self.key,
            filter: self.filter,
            select: self.select,
            order_by: self.order(),
            expand: self.expand,
            top: self.top,
            skip: self.skip,
            count_only: self.count_only,
        }
    }

    /// What building yields: the query, or the first rule broken.
    pub open spec fn validate(self) -> Result<QueryView, ResoError> {
        if self.top == Some(0u32) {
            Err(ResoError::InvalidLimit)
        } else if self.key_conflicts() || self.count_conflicts() {
            Err(ResoError::ConflictingClause)
        } else if self.direction_unknown() {
            Err(ResoError::InvalidDirection)
        } else if is_blank(self.resource) {
            Err(ResoError::MissingResource)
        } else {
            Ok(self.query())
        }
    }
}

/// The view of what building returned.
pub open spec fn built(r: Result<Query, ResoError>) -> Result<QueryView, ResoError> {
    match r {
        Ok(q) => Ok(q@),
        Err(e) => Err(e),
    }
}

/// A fluent accumulator of clauses. Each setter returns the builder, so that
/// calls can be chained; [`build`](QueryBuilder::build) validates the clauses
/// and yields the query.
pub struct QueryBuilder {
    resource: String,
    key: Option<String>,
    filter: Option<String>,
    select: Vec<String>,
    order_by: Option<RawOrder>,
    expand: Vec<String>,
    top: Option<u32>,
    skip: Option<u32>,
    count_only: bool,
}

impl View for QueryBuilder {
    type V = BuilderView;

    closed spec fn view(&self) -> BuilderView {
        BuilderView {
            resource: self.resource@,
            key: opt_text(self.key),
            filter: opt_text(self.filter),
            select: texts(self.select@),
            order_by: opt_raw_order(self.order_by),
            expand: texts(self.expand@),
            top: self.top,
            skip: self.skip,
            count_only: self.count_only,
        }
    }
}

impl QueryBuilder {
    /// Starts a query on `resource`, with no clause set.
    pub fn new(resource: &str) -> (r: QueryBuilder)
        ensures
            r@ == BuilderView::new(resource@),
    {
        let r = QueryBuilder {
            resource: String::from_str(resource),
            key: None,
            filter: None,
            select: Vec::new(),
            order_by: None,
            expand: Vec::new(),
            top: None,
            skip: None,
            count_only: false,
        };
        assert(texts(r.select@) =~= Seq::<Seq<char>>::empty());
        assert(texts(r.expand@) =~= Seq::<Seq<char>>::empty());
        r
    }

    /// Starts a lookup of the record of `resource` whose primary key is
    /// `key`.
    pub fn by_key(resource: &str, key: &str) -> (r: QueryBuilder)
        ensures
            r@ == BuilderView::by_key(resource@, key@),
    {
        Self::new(resource).key(key)
    }

    /// Asks for the one record whose primary key is `key`.
    pub fn key(self, key: &str) -> (r: QueryBuilder)
        ensures
            r@ == self@.with_key(key@),
    {
        let mut b = self;
        b.key = Some(String::from_str(key));
        b
    }

    /// Sets the filter predicate. The expression is kept as it is given,
    /// empty or not.
    pub fn filter(self, expression: &str) -> (r: QueryBuilder)
        ensures
            r@ == self@.with_filter(expression@),
    {
        let mut b = self;
        b.filter = Some(String::from_str(expression));
        b
    }

    /// Sets the fields to return. Naming no field leaves the choice to the
    /// server.
    pub fn select(self, fields: &[&str]) -> (r: QueryBuilder)
        ensures
            r@ == self@.with_select(slices(fields@)),
    {
        let mut b = self;
        b.select = to_strings(fields);
        b
    }

    /// Sets the field to order by and the direction, `asc` or `desc` in any
    /// letter case.
    pub fn order_by(self, field: &str, direction: &str) -> (r: QueryBuilder)
        ensures
            r@ == self@.with_order_by(field@, direction@),
    {
        let mut b = self;
        b.order_by = Some(
            RawOrder { field: String::from_str(field), direction: String::from_str(direction) },
        );
        b
    }

    /// Sets the navigation properties to expand.
    pub fn expand(self, fields: &[&str]) -> (r: QueryBuilder)
        ensures
            r@ == self@.with_expand(slices(fields@)),
    {
        let mut b = self;
        b.expand = to_strings(fields);
        b
    }

    /// Sets the most records to return.
    pub fn top(self, n: u32) -> (r: QueryBuilder)
        ensures
            r@ == self@.with_top(n),
    {
        let mut b = self;
        b.top = Some(n);
        b
    }

    /// Sets how many records to pass over.
    pub fn skip(self, n: u32) -> (r: QueryBuilder)
        ensures
            r@ == self@.with_skip(n),
    {
        let mut b = self;
        b.skip = Some(n);
        b
    }

    /// Asks for the number of matching records only.
    pub fn count(self) -> (r: QueryBuilder)
        ensures
            r@ == self@.with_count(),
    {
        let mut b = self;
        b.count_only = true;
        b
    }

    /// Validates the clauses and yields the query, or the first rule that
    /// they break.
    pub fn build(self) -> (r: Result<Query, ResoError>)
        ensures
            built(r) == self@.validate(),
            r matches Ok(q) ==> q@.wf(),
    {
        if let Some(n) = self.top {
            if n == 0 {
                return Err(ResoError::InvalidLimit);
            }
        }
        let pages: bool = self.skip.is_some() || self.top.is_some();
        if self.key.is_some() && (self.filter.is_some() || pages || self.count_only) {
            return Err(ResoError::ConflictingClause);
        }
        if self.count_only && (self.select.len() > 0 || self.order_by.is_some()
            || self.expand.len() > 0 || pages) {
            return Err(ResoError::ConflictingClause);
        }
        let order = match self.order_by {
            Some(raw) => match Direction::parse(raw.direction.as_str()) {
                Some(direction) => Some(OrderBy { field: raw.field, direction }),
                None => {
                    return Err(ResoError::InvalidDirection);
                },
            },
            None => None,
        };
        if blank(self.resource.as_str()) {
            return Err(ResoError::MissingResource);
        }
        Ok(
            Query::assemble(
                self.resource,
                self.key,
                self.filter,
                self.select,
                order,
                self.expand,
                self.top,
                self.skip,
                self.count_only,
            ),
        )
    }
}

/// A query on `resource`, filtered and limited if asked.
pub fn build_query(resource: &str, filter: Option<&str>, top: Option<u32>) -> (r: Result<
    Query,
    ResoError,
>)
    ensures
        built(r) == BuilderView::new(resource@).maybe_filter(opt_slice(filter)).maybe_top(
            top,
        ).validate(),
{
    let mut builder = QueryBuilder::new(resource);
    if let Some(expression) = filter {
        builder = builder.filter(expression);
    }
    if let Some(limit) = top {
        builder = builder.top(limit);
    }
    builder.build()
}

/// A query on `resource` that returns the named fields only, filtered and
/// limited if asked.
pub fn build_query_with_select(
    resource: &str,
    filter: Option<&str>,
    fields: &[&str],
    top: Option<u32>,
) -> (r: Result<Query, ResoError>)
    ensures
        built(r) == BuilderView::new(resource@).maybe_filter(opt_slice(filter)).with_select(
            slices(fields@),
        ).maybe_top(top).validate(),
{
    let mut builder = QueryBuilder::new(resource);
    if let Some(expression) = filter {
        builder = builder.filter(expression);
    }
    builder = builder.select(fields);
    if let Some(limit) = top {
        builder = builder.top(limit);
    }
    builder.build()
}

/// A lookup of the one record of `resource` whose primary key is `key`,
/// returning the named fields only if any are named.
pub fn build_query_by_key(resource: &str, key: &str, fields: Option<&[&str]>) -> (r: Result<
    Query,
    ResoError,
>)
    ensures
        built(r) == BuilderView::by_key(resource@, key@).maybe_select(
            opt_slices(fields),
        ).validate(),
{
    let mut builder = QueryBuilder::by_key(resource, key);
    if let Some(list) = fields {
        builder = builder.select(list);
    }
    builder.build()
}

/// A query on `resource` ordered by `order_field` in `direction`, filtered
/// and limited if asked.
pub fn build_query_with_order(
    resource: &str,
    filter: Option<&str>,
    order_field: &str,
    direction: &str,
    top: Option<u32>,
) -> (r: Result<Query, ResoError>)
    ensures
        built(r) == BuilderView::new(resource@).maybe_filter(opt_slice(filter)).with_order_by(
            order_field@,
            direction@,
        ).maybe_top(top).validate(),
{
    let mut builder = QueryBuilder::new(resource);
    if let Some(expression) = filter {
        builder = builder.filter(expression);
    }
    builder = builder.order_by(order_field, direction);
    if let Some(limit) = top {
        builder = builder.top(limit);
    }
    builder.build()
}

/// One page of a query on `resource`: `top` records after the first `skip`,
/// with the named fields only, filtered if asked.
pub fn build_query_with_pagination(
    resource: &str,
    filter: Option<&str>,
    fields: &[&str],
    skip: u32,
    top: u32,
) -> (r: Result<Query, ResoError>)
    ensures
        built(r) == BuilderView::new(resource@).maybe_filter(opt_slice(filter)).with_select(
            slices(fields@),
        ).with_skip(skip).with_top(top).validate(),
{
    let mut builder = QueryBuilder::new(resource);
    if let Some(expression) = filter {
        builder = builder.filter(expression);
    }
    builder = builder.select(fields).skip(skip).top(top);
    builder.build()
}

/// A query on `resource` that returns the named fields and expands the named
/// navigation properties, filtered and limited if asked.
pub fn build_query_with_expand(
    resource: &str,
    filter: Option<&str>,
    fields: &[&str],
    expand: &[&str],
    top: Option<u32>,
) -> (r: Result<Query, ResoError>)
    ensures
        built(r) == BuilderView::new(resource@).maybe_filter(opt_slice(filter)).with_select(
            slices(fields@),
        ).with_expand(slices(expand@)).maybe_top(top).validate(),
{
    let mut builder = QueryBuilder::new(resource);
    if let Some(expression) = filter {
        builder = builder.filter(expression);
    }
    builder = builder.select(fields).expand(expand);
    if let Some(limit) = top {
        builder = builder.top(limit);
    }
    builder.build()
}

/// A query for the number of records of `resource`, of those that match the
/// filter if one is given.
pub fn build_count_query(resource: &str, filter: Option<&str>) -> (r: Result<Query, ResoError>)
    ensures
        built(r) == BuilderView::new(resource@).maybe_filter(
            opt_slice(filter),
        ).with_count().validate(),
{
    let mut builder = QueryBuilder::new(resource);
    if let Some(expression) = filter {
        builder = builder.filter(expression);
    }
    builder.count().build()
}

/// Every query that building yields is an admitted combination of clauses:
/// it is a keyed lookup, a bare count or neither, never both; it never
/// holds a key together with a filter; and it carries the key and the
/// filter exactly as they were set.
pub proof fn lemma_built_query_is_well_formed(b: BuilderView)
    ensures
        b.validate() matches Ok(q) ==> {
            &&& q.wf()
            &&& !(q.key is Some && q.count_only)
            &&& !(q.key is Some && q.filter is Some)
            &&& q.key == b.key
            &&& q.filter == b.filter
        },
{
}

/// Two builders that hold the same clauses build the same query, and the
/// two queries render to the same characters, hence to the same bytes.
pub proof fn lemma_rendering_is_deterministic(a: QueryBuilder, b: QueryBuilder)
    requires
        a@ == b@,
    ensures
        a@.validate() == b@.validate(),
        a@.validate() matches Ok(q) ==> b@.validate() matches Ok(p) && p.clauses() == q.clauses()
            && p.params() == q.params() && p.request() == q.request() && vstd::utf8::encode_utf8(
            p.params(),
        ) == vstd::utf8::encode_utf8(q.params()),
{
}

/// The order in which clauses of different kinds are set makes no
/// difference to what the builder holds.
pub proof fn lemma_setters_of_different_clauses_commute(
    b: BuilderView,
    expression: Seq<char>,
    fields: Seq<Seq<char>>,
    field: Seq<char>,
    direction: Seq<char>,
    n: u32,
    m: u32,
)
    ensures
        b.with_filter(expression).with_select(fields) == b.with_select(fields).with_filter(
            expression,
        ),
        b.with_filter(expression).with_top(n) == b.with_top(n).with_filter(expression),
        b.with_select(fields).with_top(n) == b.with_top(n).with_select(fields),
        b.with_order_by(field, direction).with_top(n) == b.with_top(n).with_order_by(
            field,
            direction,
        ),
        b.with_expand(fields).with_top(n) == b.with_top(n).with_expand(fields),
        b.with_skip(m).with_top(n) == b.with_top(n).with_skip(m),
        b.with_filter(expression).with_count() == b.with_count().with_filter(expression),
{
}

/// A limit of zero is rejected as such, whatever else the builder holds.
pub proof fn lemma_zero_limit_is_rejected(b: BuilderView)
    ensures
        b.with_top(0).validate() == Err::<QueryView, ResoError>(ResoError::InvalidLimit),
        b.top == Some(0u32) ==> b.validate() == Err::<QueryView, ResoError>(
            ResoError::InvalidLimit,
        ),
{
}

/// A key and a filter conflict, whichever of the two is set first and
/// whatever the filter says, unless the limit is zero.
pub proof fn lemma_key_and_filter_conflict(b: BuilderView, key: Seq<char>, expression: Seq<char>)
    requires
        b.top != Some(0u32),
    ensures
        b.with_key(key).with_filter(expression).validate() == Err::<QueryView, ResoError>(
            ResoError::ConflictingClause,
        ),
        b.with_filter(expression).with_key(key).validate() == Err::<QueryView, ResoError>(
            ResoError::ConflictingClause,
        ),
{
}

/// A bare count conflicts with every clause that shapes or pages the
/// records, unless the limit is zero.
pub proof fn lemma_count_and_shaping_conflict(b: BuilderView)
    requires
        b.count_only,
        b.select.len() > 0 || b.order_by is Some || b.expand.len() > 0 || b.top is Some || b.skip
            is Some,
        b.top != Some(0u32),
    ensures
        b.validate() == Err::<QueryView, ResoError>(ResoError::ConflictingClause),
{
}

/// A count that is asked for before or after a shaping clause conflicts with
/// it all the same.
pub proof fn lemma_count_conflicts_in_any_order(
    b: BuilderView,
    fields: Seq<Seq<char>>,
    field: Seq<char>,
    direction: Seq<char>,
    n: u32,
)
    requires
        fields.len() > 0,
        n != 0,
        b.top != Some(0u32),
    ensures
        b.with_count().with_select(fields).validate() == b.with_select(fields).with_count().validate(),
        b.with_count().with_select(fields).validate() == Err::<QueryView, ResoError>(
            ResoError::ConflictingClause,
        ),
        b.with_count().with_order_by(field, direction).validate() == Err::<QueryView, ResoError>(
            ResoError::ConflictingClause,
        ),
        b.with_order_by(field, direction).with_count().validate() == Err::<QueryView, ResoError>(
            ResoError::ConflictingClause,
        ),
        b.with_count().with_expand(fields).validate() == Err::<QueryView, ResoError>(
            ResoError::ConflictingClause,
        ),
        b.with_expand(fields).with_count().validate() == Err::<QueryView, ResoError>(
            ResoError::ConflictingClause,
        ),
        b.with_count().with_top(n).validate() == Err::<QueryView, ResoError>(
            ResoError::ConflictingClause,
        ),
        b.with_top(n).with_count().validate() == Err::<QueryView, ResoError>(
            ResoError::ConflictingClause,
        ),
        b.with_count().with_skip(n).validate() == Err::<QueryView, ResoError>(
            ResoError::ConflictingClause,
        ),
        b.with_skip(n).with_count().validate() == Err::<QueryView, ResoError>(
            ResoError::ConflictingClause,
        ),
{
}

/// Two spellings of a direction that differ in letter case only name the
/// same direction, and build the same query.
pub proof fn lemma_direction_ignores_case(
    b: BuilderView,
    field: Seq<char>,
    first: Seq<char>,
    second: Seq<char>,
)
    requires
        same_ignoring_case(first, second),
    ensures
        Direction::parse_spec(first) == Direction::parse_spec(second),
        b.with_order_by(field, first).validate() == b.with_order_by(field, second).validate(),
{
    lemma_same_ignoring_case_is_an_equivalence(first, second, "asc"@);
    lemma_same_ignoring_case_is_an_equivalence(second, first, "asc"@);
    lemma_same_ignoring_case_is_an_equivalence(first, second, "desc"@);
    lemma_same_ignoring_case_is_an_equivalence(second, first, "desc"@);
}

/// A direction is read as ascending exactly when it spells `asc`, as
/// descending exactly when it spells `desc`, in any letter case; the
/// ordering clause then carries the word in small letters.
pub proof fn lemma_direction_is_normalized(b: BuilderView, field: Seq<char>, direction: Seq<char>)
    ensures
        Direction::parse_spec(direction) == Some(Direction::Asc) <==> same_ignoring_case(
            direction,
            "asc"@,
        ),
        Direction::parse_spec(direction) == Some(Direction::Desc) <==> same_ignoring_case(
            direction,
            "desc"@,
        ),
        b.with_order_by(field, direction).validate() matches Ok(q) ==> (same_ignoring_case(
            direction,
            "asc"@,
        ) ==> q.order_clause() == Some("$orderby="@ + field + " "@ + "asc"@)) && (
        same_ignoring_case(direction, "desc"@) ==> q.order_clause() == Some(
            "$orderby="@ + field + " "@ + "desc"@,
        )),
{
    if same_ignoring_case(direction, "asc"@) && same_ignoring_case(direction, "desc"@) {
        reveal_strlit("asc");
        reveal_strlit("desc");
    }
}

/// A direction that spells neither `asc` nor `desc` is rejected as such,
/// unless the limit is zero or clauses conflict.
pub proof fn lemma_unknown_direction_is_rejected(
    b: BuilderView,
    field: Seq<char>,
    direction: Seq<char>,
)
    requires
        !same_ignoring_case(direction, "asc"@),
        !same_ignoring_case(direction, "desc"@),
        b.top != Some(0u32),
        !b.key_conflicts(),
        !b.count_only,
    ensures
        b.with_order_by(field, direction).validate() == Err::<QueryView, ResoError>(
            ResoError::InvalidDirection,
        ),
{
}

/// A blank resource name is rejected as missing when no other rule is
/// broken, and only then.
pub proof fn lemma_missing_resource(b: BuilderView)
    ensures
        b.validate() == Err::<QueryView, ResoError>(ResoError::MissingResource) <==> is_blank(
            b.resource,
        ) && b.top != Some(0u32) && !b.key_conflicts() && !b.count_conflicts()
            && !b.direction_unknown(),
{
}

} // verus!
