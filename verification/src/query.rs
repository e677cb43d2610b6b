//! The query model: one fully specified request, and how it is rendered.
//!
//! A [`Query`] is immutable. It is made by
//! [`QueryBuilder::build`](crate::builder::QueryBuilder::build), which admits
//! only the clause combinations that [`QueryView::wf`] describes.

use vstd::prelude::*;
use vstd::string::*;
use crate::text::{
    decimal,
    decimal_text,
    distinct,
    distinct_names,
    equals_ignoring_case,
    is_blank,
    join,
    join_with,
    lemma_distinct,
    lemma_distinct_is_idempotent,
    opt_slice,
    opt_text,
    same_ignoring_case,
    texts,
};

verus! {

/// The direction of an ordering.
#[derive(Clone, Copy, Debug, PartialEq, Eq, Structural)]
pub enum Direction {
    /// Smallest first.
    Asc,
    /// Largest first.
    Desc,
}

impl Direction {
    /// The word that stands for the direction in a rendered clause.
    pub open spec fn word(self) -> Seq<char> {
        match self {
            Direction::Asc => "asc"@,
            Direction::Desc => "desc"@,
        }
    }

    /// The direction that `text` names, whatever the case of its letters.
    pub open spec fn parse_spec(text: Seq<char>) -> Option<Direction> {
        if same_ignoring_case(text, "asc"@) {
            Some(Direction::Asc)
        } else if same_ignoring_case(text, "desc"@) {
            Some(Direction::Desc)
        } else {
            None
        }
    }

    /// The word that stands for the direction in a rendered clause.
    pub fn as_str(self) -> (r: &'static str)
        ensures
            r@ == self.word(),
    {
        match self {
            Direction::Asc => "asc",
            Direction::Desc => "desc",
        }
    }

    /// Reads a direction, whatever the case of its letters; `None` for any
    /// text other than `asc` and `desc`.
    pub fn parse(text: &str) -> (r: Option<Direction>)
        ensures
            r == Self::parse_spec(text@),
    {
        if equals_ignoring_case(text, "asc") {
            Some(Direction::Asc)
        } else if equals_ignoring_case(text, "desc") {
            Some(Direction::Desc)
        } else {
            None
        }
    }
}

/// An ordering clause: the field to order by, and the direction.
#[derive(Debug)]
pub struct OrderBy {
    /// The field whose values order the records.
    pub field: String,
    /// Whether the smallest or the largest value comes first.
    pub direction: Direction,
}

impl View for OrderBy {
    type V = (Seq<char>, Direction);

    open spec fn view(&self) -> (Seq<char>, Direction) {
        (self.field@, self.direction)
    }
}

/// The view of an optional ordering clause.
pub open spec fn opt_order(item: Option<OrderBy>) -> Option<(Seq<char>, Direction)> {
    match item {
        Some(order) => Some(order@),
        None => None,
    }
}

/// The clauses that an optional clause contributes: itself, or none.
pub open spec fn present(clause: Option<Seq<char>>) -> Seq<Seq<char>> {
    match clause {
        Some(text) => seq![text],
        None => seq![],
    }
}

/// What a [`Query`] holds, as mathematical values.
pub struct QueryView {
    /// The name of the collection queried.
    pub resource: Seq<char>,
    /// The primary key of the one record asked for, in a keyed lookup.
    pub key: Option<Seq<char>>,
    /// The filter predicate.
    pub filter: Option<Seq<char>>,
    /// The fields to return; empty for the server's default.
    pub select: Seq<Seq<char>>,
    /// The ordering clause.
    pub order_by: Option<(Seq<char>, Direction)>,
    /// The navigation properties to expand; empty for none.
    pub expand: Seq<Seq<char>>,
    /// The most records to return.
    pub top: Option<u32>,
    /// How many records to pass over.
    pub skip: Option<u32>,
    /// Whether only the number of matching records is asked for.
    pub count_only: bool,
}

impl QueryView {
    /// The clause combinations that make a request: a named resource, a
    /// positive limit if any, a keyed lookup that neither filters, pages nor
    /// counts, and a count that carries no clause but a filter.
    pub open spec fn wf(self) -> bool {
        &&& !is_blank(self.resource)
        &&& self.top != Some(0u32)
        &&& self.key is Some ==> self.filter is None && self.skip is None && self.top is None
            && !self.count_only
        &&& self.count_only ==> self.select.len() == 0 && self.order_by is None
            && self.expand.len() == 0 && self.top is None && self.skip is None
    }

    /// The `$filter` parameter, if a filter is set.
    pub open spec fn filter_clause(self) -> Option<Seq<char>> {
        match self.filter {
            Some(f) => Some("$filter="@ + f),
            None => None,
        }
    }

    /// The `$select` parameter, if fields are selected: each field once, in
    /// the order of its first mention.
    pub open spec fn select_clause(self) -> Option<Seq<char>> {
        if self.select.len() > 0 {
            Some("$select="@ + join(distinct(self.select), ","@))
        } else {
            None
        }
    }

    /// The `$orderby` parameter, if an ordering is set.
    pub open spec fn order_clause(self) -> Option<Seq<char>> {
        match self.order_by {
            Some((field, direction)) => Some("$orderby="@ + field + " "@ + direction.word()),
            None => None,
        }
    }

    /// The `$expand` parameter, if navigation properties are expanded.
    pub open spec fn expand_clause(self) -> Option<Seq<char>> {
        if self.expand.len() > 0 {
            Some("$expand="@ + join(self.expand, ","@))
        } else {
            None
        }
    }

    /// The `$skip` parameter, if an offset is set.
    pub open spec fn skip_clause(self) -> Option<Seq<char>> {
        match self.skip {
            Some(n) => Some("$skip="@ + decimal(n as nat)),
            None => None,
        }
    }

    /// The `$top` parameter, if a limit is set.
    pub open spec fn top_clause(self) -> Option<Seq<char>> {
        match self.top {
            Some(n) => Some("$top="@ + decimal(n as nat)),
            None => None,
        }
    }

    /// The `$count` parameter, if only the count is asked for.
    pub open spec fn count_clause(self) -> Option<Seq<char>> {
        if self.count_only {
            Some("$count=true"@)
        } else {
            None
        }
    }

    /// The parameters of the request, in the order in which they are always
    /// sent: filter, select, orderby, expand, skip, top, count.
    pub open spec fn clauses(self) -> Seq<Seq<char>> {
        present(self.filter_clause()) + present(self.select_clause()) + present(
            self.order_clause(),
        ) + present(self.expand_clause()) + present(self.skip_clause()) + present(
            self.top_clause(),
        ) + present(self.count_clause())
    }

    /// The query string: the parameters, with `&` between them.
    pub open spec fn params(self) -> Seq<char> {
        join(self.clauses(), "&"@)
    }

    /// The path of the request: the resource, followed in a keyed lookup by
    /// the quoted key in parentheses.
    pub open spec fn path(self) -> Seq<char> {
        match self.key {
            Some(key) => self.resource + "('"@ + key + "')"@,
            None => self.resource,
        }
    }

    /// The request relative to the server's base: the path, and after a `?`
    /// the query string if there is any parameter.
    pub open spec fn request(self) -> Seq<char> {
        if self.clauses().len() == 0 {
            self.path()
        } else {
            self.path() + "?"@ + self.params()
        }
    }

    /// The address of the request on the server at `base`.
    pub open spec fn url(self, base: Seq<char>) -> Seq<char> {
        base + "/"@ + self.request()
    }
}

/// One fully specified request. Its clauses cannot be changed, and they
/// always form a combination that [`QueryView::wf`] admits.
#[derive(Debug)]
pub struct Query {
    resource: String,
    key: Option<String>,
    filter: Option<String>,
    select: Vec<String>,
    order_by: Option<OrderBy>,
    expand: Vec<String>,
    top: Option<u32>,
    skip: Option<u32>,
    count_only: bool,
}

impl View for Query {
    type V = QueryView;

    closed spec fn view(&self) -> QueryView {
        QueryView {
            resource: self.resource@,
            key: opt_text(self.key),
            filter: opt_text(self.filter),
            select: texts(self.select@),
            order_by: opt_order(self.order_by),
            expand: texts(self.expand@),
            top: self.top,
            skip: self.skip,
            count_only: self.count_only,
        }
    }
}

fn add_clause(out: &mut Vec<String>, clause: Option<String>)
    ensures
        texts(final(out)@) == texts(old(out)@) + present(opt_text(clause)),
{
    match clause {
        Some(text) => {
            out.push(text);
            assert(texts(out@) =~= texts(old(out)@) + seq![text@]);
        },
        None => {
            assert(texts(out@) =~= texts(old(out)@) + Seq::<Seq<char>>::empty());
        },
    }
}

fn borrow_text(item: &Option<String>) -> (r: Option<&str>)
    ensures
        opt_slice(r) == opt_text(*item),
{
    match item {
        Some(s) => Some(s.as_str()),
        None => None,
    }
}

impl Query {
    #[verifier::type_invariant]
    spec fn inv(self) -> bool {
        self@.wf()
    }

    /// Puts a query together from clauses that form an admitted combination.
    pub(crate) fn assemble(
        resource: String,
        key: Option<String>,
        filter: Option<String>,
        select: Vec<String>,
        order_by: Option<OrderBy>,
        expand: Vec<String>,
        top: Option<u32>,
        skip: Option<u32>,
        count_only: bool,
    ) -> (r: Query)
        requires
            (QueryView {
                resource: resource@,
                key: opt_text(key),
                filter: opt_text(filter),
                select: texts(select@),
                order_by: opt_order(order_by),
                expand: texts(expand@),
                top,
                skip,
                count_only,
            }).wf(),
        ensures
            r@ == (QueryView {
                resource: resource@,
                key: opt_text(key),
                filter: opt_text(filter),
                select: texts(select@),
                order_by: opt_order(order_by),
                expand: texts(expand@),
                top,
                skip,
                count_only,
            }),
    {
        Query { resource, key, filter, select, order_by, expand, top, skip, count_only }
    }

    /// The `$filter` parameter, if a filter is set.
    pub fn filter_clause(&self) -> (r: Option<String>)
        ensures
            opt_text(r) == self@.filter_clause(),
    {
        match &self.filter {
            Some(f) => Some(String::from_str("$filter=").concat(f.as_str())),
            None => None,
        }
    }

    /// The `$select` parameter, if fields are selected: each field once, in
    /// the order of its first mention.
    pub fn select_clause(&self) -> (r: Option<String>)
        ensures
            opt_text(r) == self@.select_clause(),
    {
        if self.select.len() > 0 {
            let names = distinct_names(&self.select);
            let list = join_with(&names, ",");
            Some(String::from_str("$select=").concat(list.as_str()))
        } else {
            None
        }
    }

    /// The `$orderby` parameter, if an ordering is set.
    pub fn order_clause(&self) -> (r: Option<String>)
        ensures
            opt_text(r) == self@.order_clause(),
    {
        match &self.order_by {
            Some(order) => Some(
                String::from_str("$orderby=").concat(order.field.as_str()).concat(" ").concat(
                    order.direction.as_str(),
                ),
            ),
            None => None,
        }
    }

    /// The `$expand` parameter, if navigation properties are expanded.
    pub fn expand_clause(&self) -> (r: Option<String>)
        ensures
            opt_text(r) == self@.expand_clause(),
    {
        if self.expand.len() > 0 {
            let list = join_with(&self.expand, ",");
            Some(String::from_str("$expand=").concat(list.as_str()))
        } else {
            None
        }
    }

    /// The `$skip` parameter, if an offset is set.
    pub fn skip_clause(&self) -> (r: Option<String>)
        ensures
            opt_text(r) == self@.skip_clause(),
    {
        match self.skip {
            Some(n) => {
                let number = decimal_text(n as u64);
                Some(String::from_str("$skip=").concat(number.as_str()))
            },
            None => None,
        }
    }

    /// The `$top` parameter, if a limit is set.
    pub fn top_clause(&self) -> (r: Option<String>)
        ensures
            opt_text(r) == self@.top_clause(),
    {
        match self.top {
            Some(n) => {
                let number = decimal_text(n as u64);
                Some(String::from_str("$top=").concat(number.as_str()))
            },
            None => None,
        }
    }

    /// The `$count` parameter, if only the count is asked for.
    pub fn count_clause(&self) -> (r: Option<String>)
        ensures
            opt_text(r) == self@.count_clause(),
    {
        if self.count_only {
            Some(String::from_str("$count=true"))
        } else {
            None
        }
    }

    /// The parameters of the request, one string each, in the order in which
    /// they are always sent.
    pub fn render_clauses(&self) -> (r: Vec<String>)
        ensures
            texts(r@) == self@.clauses(),
    {
        let mut out: Vec<String> = Vec::new();
        assert(texts(out@) =~= Seq::<Seq<char>>::empty());
        add_clause(&mut out, self.filter_clause());
        add_clause(&mut out, self.select_clause());
        add_clause(&mut out, self.order_clause());
        add_clause(&mut out, self.expand_clause());
        add_clause(&mut out, self.skip_clause());
        add_clause(&mut out, self.top_clause());
        add_clause(&mut out, self.count_clause());
        out
    }

    /// The query string: the parameters, with `&` between them; empty if the
    /// query has no parameter.
    pub fn render_params(&self) -> (r: String)
        ensures
            r@ == self@.params(),
    {
        let clauses = self.render_clauses();
        join_with(&clauses, "&")
    }

    /// The path of the request: the resource, followed in a keyed lookup by
    /// the quoted key in parentheses.
    pub fn render_path(&self) -> (r: String)
        ensures
            r@ == self@.path(),
    {
        match &self.key {
            Some(key) => String::from_str(self.resource.as_str()).concat("('").concat(
                key.as_str(),
            ).concat("')"),
            None => String::from_str(self.resource.as_str()),
        }
    }

    /// The request relative to the server's base: the path, and after a `?`
    /// the query string if there is any parameter.
    pub fn render_request(&self) -> (r: String)
        ensures
            r@ == self@.request(),
    {
        let clauses = self.render_clauses();
        let path = self.render_path();
        if clauses.len() == 0 {
            path
        } else {
            let params = join_with(&clauses, "&");
            path.concat("?").concat(params.as_str())
        }
    }

    /// The address of the request on the server at `base`.
    pub fn render_url(&self, base: &str) -> (r: String)
        ensures
            r@ == self@.url(base@),
    {
        let request = self.render_request();
        String::from_str(base).concat("/").concat(request.as_str())
    }

    /// The name of the collection queried; never blank.
    pub fn resource(&self) -> (r: &str)
        ensures
            r@ == self@.resource,
            self@.wf(),
    {
        proof {
            use_type_invariant(self);
        }
        self.resource.as_str()
    }

    /// The primary key of the one record asked for, in a keyed lookup.
    pub fn key(&self) -> (r: Option<&str>)
        ensures
            opt_slice(r) == self@.key,
            self@.wf(),
    {
        proof {
            use_type_invariant(self);
        }
        borrow_text(&self.key)
    }

    /// The filter predicate, if one is set, as it was given.
    pub fn filter(&self) -> (r: Option<&str>)
        ensures
            opt_slice(r) == self@.filter,
            self@.wf(),
    {
        proof {
            use_type_invariant(self);
        }
        borrow_text(&self.filter)
    }

    /// The fields to return, as they were given; empty for the server's
    /// default.
    pub fn select(&self) -> (r: &Vec<String>)
        ensures
            texts(r@) == self@.select,
            self@.wf(),
    {
        proof {
            use_type_invariant(self);
        }
        &self.select
    }

    /// The ordering clause, if one is set.
    pub fn order_by(&self) -> (r: Option<&OrderBy>)
        ensures
            match r {
                Some(order) => self@.order_by == Some(order@),
                None => self@.order_by is None,
            },
            self@.wf(),
    {
        proof {
            use_type_invariant(self);
        }
        match &self.order_by {
            Some(order) => Some(order),
            None => None,
        }
    }

    /// The navigation properties to expand; empty for none.
    pub fn expand(&self) -> (r: &Vec<String>)
        ensures
            texts(r@) == self@.expand,
            self@.wf(),
    {
        proof {
            use_type_invariant(self);
        }
        &self.expand
    }

    /// The most records to return, if a limit is set; never zero.
    pub fn top(&self) -> (r: Option<u32>)
        ensures
            r == self@.top,
            self@.wf(),
    {
        proof {
            use_type_invariant(self);
        }
        self.top
    }

    /// How many records to pass over, if an offset is set.
    pub fn skip(&self) -> (r: Option<u32>)
        ensures
            r == self@.skip,
            self@.wf(),
    {
        proof {
            use_type_invariant(self);
        }
        self.skip
    }

    /// Whether only the number of matching records is asked for.
    pub fn is_count_only(&self) -> (r: bool)
        ensures
            r == self@.count_only,
            self@.wf(),
    {
        proof {
            use_type_invariant(self);
        }
        self.count_only
    }

    /// Whether the query asks for one record by its primary key.
    pub fn is_keyed(&self) -> (r: bool)
        ensures
            r == self@.key is Some,
            self@.wf(),
    {
        proof {
            use_type_invariant(self);
        }
        self.key.is_some()
    }
}

/// Naming a field again changes nothing in what is rendered: a query
/// renders as the query that selects each of its fields once.
pub proof fn lemma_repeated_fields_render_once(q: QueryView)
    ensures
        distinct(q.select).no_duplicates(),
        (QueryView { select: distinct(q.select), ..q }).clauses() == q.clauses(),
        (QueryView { select: distinct(q.select), ..q }).request() == q.request(),
{
    lemma_distinct(q.select);
    lemma_distinct_is_idempotent(q.select);
    if q.select.len() > 0 {
        assert(q.select.contains(q.select[0]));
        assert(distinct(q.select).contains(q.select[0]));
    }
    if distinct(q.select).len() > 0 {
        assert(distinct(q.select).contains(distinct(q.select)[0]));
    }
}

} // verus!
