//! The universal bracket query syntax: filters as `field[operator]=value`,
//! then plain parameters, sorts as `sort=field:direction`, and the page and
//! page size.

use vstd::prelude::*;

use crate::headers::pairs_view;
use crate::json::JsonView;
use crate::operators::{format_value, value_text, FilterOperator};
use crate::request::RequestOptions;
use crate::pieces::split_pieces;
use crate::text::{concat, decimal, owned, str_eq, u64_to_decimal};

verus! {

/// Direction of a `sort` query parameter.
#[derive(Debug, Clone, Copy, PartialEq, Eq)]
pub enum SortDirection {
    Asc,
    Desc,
}

/// The text a sort direction takes in a query string.
pub open spec fn sort_direction_text(direction: SortDirection) -> Seq<char> {
    match direction {
        SortDirection::Asc => "asc"@,
        SortDirection::Desc => "desc"@,
    }
}

impl SortDirection {
    pub fn as_str(self) -> (s: &'static str)
        ensures
            s@ == sort_direction_text(self),
    {
        match self {
            SortDirection::Asc => "asc",
            SortDirection::Desc => "desc",
        }
    }
}

/// The content of a query being built.
pub struct QueryView {
    pub endpoint: Seq<char>,
    /// field, operator, value
    pub filters: Seq<(Seq<char>, Seq<char>, JsonView)>,
    pub params: Seq<(Seq<char>, Seq<char>)>,
    pub sorts: Seq<(Seq<char>, SortDirection)>,
    pub page: Option<u64>,
    pub limit: Option<u64>,
}

/// The query key of a filter: the bare field for `eq` or an empty
/// operator, `field[operator]` otherwise.
pub open spec fn filter_key(field: Seq<char>, operator: Seq<char>) -> Seq<char> {
    if operator.len() == 0 || operator == "eq"@ {
        field
    } else {
        field + "["@ + operator + "]"@
    }
}

/// The query pairs of the filters, in order.
pub open spec fn filter_pairs(filters: Seq<(Seq<char>, Seq<char>, JsonView)>) -> Seq<(Seq<char>, Seq<char>)> {
    Seq::new(filters.len(), |i: int| (filter_key(filters[i].0, filters[i].1), value_text(filters[i].2)))
}

/// The query pairs of the sorts, in order: `sort=field:direction`.
pub open spec fn sort_pairs(sorts: Seq<(Seq<char>, SortDirection)>) -> Seq<(Seq<char>, Seq<char>)> {
    Seq::new(sorts.len(), |i: int| ("sort"@, sorts[i].0 + ":"@ + sort_direction_text(sorts[i].1)))
}

/// The pair `name=n` when a number is set, nothing otherwise.
pub open spec fn number_pair(name: Seq<char>, n: Option<u64>) -> Seq<(Seq<char>, Seq<char>)> {
    match n {
        Some(v) => seq![(name, decimal(v as nat))],
        None => Seq::empty(),
    }
}

/// Every query pair a query adds to a request, in order: filters, plain
/// parameters, sorts, page, limit.
pub open spec fn query_pairs(q: QueryView) -> Seq<(Seq<char>, Seq<char>)> {
    filter_pairs(q.filters) + q.params + sort_pairs(q.sorts) + number_pair("page"@, q.page)
        + number_pair("limit"@, q.limit)
}

/// `parts` joined by commas.
pub open spec fn comma_joined(parts: Seq<Seq<char>>) -> Seq<char>
    decreases parts.len(),
{
    if parts.len() == 0 {
        Seq::empty()
    } else if parts.len() == 1 {
        parts[0]
    } else {
        comma_joined(parts.drop_last()) + ","@ + parts.last()
    }
}

/// A query against one endpoint, built a filter, parameter or sort at a
/// time.
#[derive(Debug, Clone)]
pub struct QueryBuilder {
    endpoint: String,
    filters: Vec<(String, FilterOperator)>,
    params: Vec<(String, String)>,
    sorts: Vec<(String, SortDirection)>,
    page: Option<u64>,
    limit: Option<u64>,
}

impl View for QueryBuilder {
    type V = QueryView;

    closed spec fn view(&self) -> QueryView {
        QueryView {
            endpoint: self.endpoint@,
            filters: Seq::new(
                self.filters@.len(),
                |i: int| (self.filters@[i].0@, self.filters@[i].1.operator@, self.filters@[i].1.value@),
            ),
            params: pairs_view(self.params@),
            sorts: Seq::new(self.sorts@.len(), |i: int| (self.sorts@[i].0@, self.sorts@[i].1)),
            page: self.page,
            limit: self.limit,
        }
    }
}

impl QueryBuilder {
    /// An empty query against `endpoint`.
    pub fn new(endpoint: &str) -> (q: QueryBuilder)
        ensures
            q@ == (QueryView {
                endpoint: endpoint@,
                filters: Seq::empty(),
                params: Seq::empty(),
                sorts: Seq::empty(),
                page: None,
                limit: None,
            }),
    {
        let q = QueryBuilder {
            endpoint: owned(endpoint),
            filters: Vec::new(),
            params: Vec::new(),
            sorts: Vec::new(),
            page: None,
            limit: None,
        };
        assert(q@.filters =~= Seq::empty());
        assert(q@.params =~= Seq::empty());
        assert(q@.sorts =~= Seq::empty());
        q
    }

    /// The endpoint the query goes to.
    pub fn endpoint(&self) -> (e: &String)
        ensures
            e@ == self@.endpoint,
    {
        &self.endpoint
    }

    /// Adds a filter on `field`.
    pub fn where_(self, field: &str, operator: FilterOperator) -> (q: QueryBuilder)
        ensures
            q@ == (QueryView {
                filters: self@.filters.push((field@, operator.operator@, operator.value@)),
                ..self@
            }),
    {
        let ghost old_filters = self@.filters;
        let ghost entry = (field@, operator.operator@, operator.value@);
        let mut q = self;
        q.filters.push((owned(field), operator));
        assert(q@.filters =~= old_filters.push(entry));
        q
    }

    /// Adds a plain query parameter.
    pub fn param(self, key: &str, value: &str) -> (q: QueryBuilder)
        ensures
            q@ == (QueryView { params: self@.params.push((key@, value@)), ..self@ }),
    {
        let ghost old_params = self@.params;
        let mut q = self;
        q.params.push((owned(key), owned(value)));
        assert(q@.params =~= old_params.push((key@, value@)));
        q
    }

    /// Adds a sort on `field`.
    pub fn sort(self, field: &str, direction: SortDirection) -> (q: QueryBuilder)
        ensures
            q@ == (QueryView { sorts: self@.sorts.push((field@, direction)), ..self@ }),
    {
        let ghost old_sorts = self@.sorts;
        let mut q = self;
        q.sorts.push((owned(field), direction));
        assert(q@.sorts =~= old_sorts.push((field@, direction)));
        q
    }

    /// Sets the page number.
    pub fn page(self, page: u64) -> (q: QueryBuilder)
        ensures
            q@ == (QueryView { page: Some(page), ..self@ }),
    {
        let mut q = self;
        q.page = Some(page);
        q
    }

    /// Sets the page size.
    pub fn limit(self, limit: u64) -> (q: QueryBuilder)
        ensures
            q@ == (QueryView { limit: Some(limit), ..self@ }),
    {
        let mut q = self;
        q.limit = Some(limit);
        q
    }

    /// Restricts the response to `fields`: the parameter `fields` with the
    /// names joined by commas.
    pub fn select(self, fields: &Vec<String>) -> (q: QueryBuilder)
        ensures
            q@ == (QueryView {
                params: self@.params.push(("fields"@, comma_joined(Seq::new(fields@.len(), |i: int| fields@[i]@)))),
                ..self@
            }),
    {
        let ghost parts = Seq::new(fields@.len(), |i: int| fields@[i]@);
        let mut joined = String::new();
        let mut i: usize = 0;
        while i < fields.len()
            invariant
                i <= fields.len(),
                parts == Seq::new(fields@.len(), |i: int| fields@[i]@),
                joined@ == comma_joined(parts.take(i as int)),
            decreases fields.len() - i,
        {
            proof {
                assert(parts.take(i + 1).drop_last() == parts.take(i as int));
                assert(parts.take(i + 1).last() == fields@[i as int]@);
            }
            if i > 0 {
                joined.append(",");
            }
            joined.append(fields[i].as_str());
            i = i + 1;
        }
        assert(parts.take(fields.len() as int) == parts);
        let ghost old_params = self@.params;
        let mut q = self;
        q.params.push((owned("fields"), joined));
        assert(q@.params =~= old_params.push(("fields"@, comma_joined(parts))));
        q
    }

    /// The query key and value of filter `i`.
    fn filter_pair(&self, i: usize) -> (r: (String, String))
        requires
            i < self@.filters.len(),
        ensures
            (r.0@, r.1@) == filter_pairs(self@.filters)[i as int],
    {
        let (field, operator) = &self.filters[i];
        let key = if operator.operator.as_str().is_empty() || str_eq(operator.operator.as_str(), "eq") {
            field.clone()
        } else {
            let with_open = concat(field.as_str(), "[");
            let with_op = concat(with_open.as_str(), operator.operator.as_str());
            concat(with_op.as_str(), "]")
        };
        proof {
            if operator.operator@.len() != 0 && operator.operator@ != "eq"@ {
                assert(key@ == field@ + "["@ + operator.operator@ + "]"@);
            }
        }
        (key, format_value(&operator.value))
    }

    /// Adds the query's pairs to `options`, after the pairs it already has:
    /// filters, parameters, sorts, page, limit.
    pub fn apply_query(&self, options: &mut RequestOptions)
        ensures
            pairs_view(final(options).query@) == pairs_view(old(options).query@) + query_pairs(self@),
            final(options).headers@ == old(options).headers@,
            final(options).include_session == old(options).include_session,
            final(options).session_id == old(options).session_id,
            final(options).timeout == old(options).timeout,
    {
        let ghost start = pairs_view(options.query@);
        let ghost fp = filter_pairs(self@.filters);
        let mut i: usize = 0;
        while i < self.filters.len()
            invariant
                i <= self.filters.len(),
                self@.filters.len() == self.filters.len(),
                fp == filter_pairs(self@.filters),
                pairs_view(options.query@) == start + fp.take(i as int),
                options.headers@ == old(options).headers@,
                options.include_session == old(options).include_session,
                options.session_id == old(options).session_id,
                options.timeout == old(options).timeout,
            decreases self.filters.len() - i,
        {
            let pair = self.filter_pair(i);
            let ghost before = pairs_view(options.query@);
            options.query.push(pair);
            assert(pairs_view(options.query@) =~= before.push(fp[i as int]));
            assert(fp.take(i + 1) =~= fp.take(i as int).push(fp[i as int]));
            i = i + 1;
        }
        assert(fp.take(self.filters.len() as int) =~= fp);
        let ghost pp = self@.params;
        let mut j: usize = 0;
        while j < self.params.len()
            invariant
                j <= self.params.len(),
                pp == pairs_view(self.params@),
                pairs_view(options.query@) == start + fp + pp.take(j as int),
                options.headers@ == old(options).headers@,
                options.include_session == old(options).include_session,
                options.session_id == old(options).session_id,
                options.timeout == old(options).timeout,
            decreases self.params.len() - j,
        {
            let ghost before = pairs_view(options.query@);
            let pair = (self.params[j].0.clone(), self.params[j].1.clone());
            options.query.push(pair);
            assert(pairs_view(options.query@) =~= before.push(pp[j as int]));
            assert(pp.take(j + 1) =~= pp.take(j as int).push(pp[j as int]));
            j = j + 1;
        }
        assert(pp.take(self.params.len() as int) =~= pp);
        let ghost sp = sort_pairs(self@.sorts);
        let mut k: usize = 0;
        while k < self.sorts.len()
            invariant
                k <= self.sorts.len(),
                self@.sorts.len() == self.sorts.len(),
                sp == sort_pairs(self@.sorts),
                pairs_view(options.query@) == start + fp + pp + sp.take(k as int),
                options.headers@ == old(options).headers@,
                options.include_session == old(options).include_session,
                options.session_id == old(options).session_id,
                options.timeout == old(options).timeout,
            decreases self.sorts.len() - k,
        {
            let ghost before = pairs_view(options.query@);
            let (field, direction) = &self.sorts[k];
            let with_colon = concat(field.as_str(), ":");
            let value = concat(with_colon.as_str(), direction.as_str());
            options.query.push((owned("sort"), value));
            assert(pairs_view(options.query@) =~= before.push(sp[k as int]));
            assert(sp.take(k + 1) =~= sp.take(k as int).push(sp[k as int]));
            k = k + 1;
        }
        assert(sp.take(self.sorts.len() as int) =~= sp);
        if let Some(page) = self.page {
            let ghost before = pairs_view(options.query@);
            options.query.push((owned("page"), u64_to_decimal(page)));
            assert(pairs_view(options.query@) =~= before + number_pair("page"@, self.page));
        } else {
            assert(pairs_view(options.query@) =~= pairs_view(options.query@) + number_pair("page"@, self.page));
        }
        if let Some(limit) = self.limit {
            let ghost before = pairs_view(options.query@);
            options.query.push((owned("limit"), u64_to_decimal(limit)));
            assert(pairs_view(options.query@) =~= before + number_pair("limit"@, self.limit));
        } else {
            assert(pairs_view(options.query@) =~= pairs_view(options.query@) + number_pair("limit"@, self.limit));
        }
        assert(start + query_pairs(self@) =~= start + fp + pp + sp + number_pair("page"@, self.page)
            + number_pair("limit"@, self.limit));
    }
}

/// The pair a filter adds to the query names its operator in brackets,
/// `field[operator]`, for every operator but `eq` and the empty one, which
/// give the bare field; its value is the filter value's text. The pairs of
/// the filters come first, in the order the filters were added.
pub proof fn lemma_filter_pair_names_its_operator(q: QueryView, i: int)
    requires
        0 <= i < q.filters.len(),
    ensures
        query_pairs(q)[i].1 == value_text(q.filters[i].2),
        q.filters[i].1.len() > 0 && q.filters[i].1 != "eq"@ ==> query_pairs(q)[i].0
            == q.filters[i].0 + seq!['['] + q.filters[i].1 + seq![']'],
        q.filters[i].1.len() == 0 || q.filters[i].1 == "eq"@ ==> query_pairs(q)[i].0 == q.filters[i].0,
{
    reveal_strlit("[");
    reveal_strlit("]");
    let fp = filter_pairs(q.filters);
    assert(query_pairs(q)[i] == fp[i]);
}

/// Text without commas is one piece when split at commas.
proof fn lemma_split_without_sep(p: Seq<char>, sep: char)
    requires
        !p.contains(sep),
    ensures
        split_pieces(p, sep) == seq![p],
    decreases p.len(),
{
    if p.len() > 0 {
        assert(!p.drop_last().contains(sep)) by {
            if p.drop_last().contains(sep) {
                let k = choose|k: int| 0 <= k < p.drop_last().len() && p.drop_last()[k] == sep;
                assert(p[k] == sep);
            }
        }
        lemma_split_without_sep(p.drop_last(), sep);
        assert(p.last() != sep) by {
            assert(p[p.len() - 1] == p.last());
        }
        assert(p.drop_last().push(p.last()) =~= p);
        assert(seq![p.drop_last()].update(0, p.drop_last().push(p.last())) =~= seq![p]);
    } else {
        assert(p =~= Seq::<char>::empty());
    }
}

/// Splitting `a`, a separator and a piece without separators gives the
/// pieces of `a` and then that piece.
proof fn lemma_split_after_sep(a: Seq<char>, b: Seq<char>, sep: char)
    requires
        !b.contains(sep),
    ensures
        split_pieces(a + seq![sep] + b, sep) == split_pieces(a, sep).push(b),
    decreases b.len(),
{
    let s = a + seq![sep] + b;
    if b.len() == 0 {
        assert(s.drop_last() =~= a);
        assert(s.last() == sep);
        assert(b =~= Seq::<char>::empty());
    } else {
        assert(!b.drop_last().contains(sep)) by {
            if b.drop_last().contains(sep) {
                let k = choose|k: int| 0 <= k < b.drop_last().len() && b.drop_last()[k] == sep;
                assert(b[k] == sep);
            }
        }
        lemma_split_after_sep(a, b.drop_last(), sep);
        assert(s.drop_last() =~= a + seq![sep] + b.drop_last());
        assert(s.last() == b.last());
        assert(b.last() != sep) by {
            assert(b[b.len() - 1] == b.last());
        }
        let rest = split_pieces(a, sep).push(b.drop_last());
        assert(b.drop_last().push(b.last()) =~= b);
        assert(rest.last() == b.drop_last());
        assert(rest.update(rest.len() - 1, rest.last().push(b.last())) =~= split_pieces(a, sep).push(b));
    }
}

/// The `fields` parameter of a selection gives back the selected names when
/// split at its commas: the names are joined with exactly one comma between
/// every two adjacent ones, and nothing else is added. (A name that itself
/// holds a comma is not given back, so names are taken without commas.)
pub proof fn lemma_selected_fields_split_back(names: Seq<Seq<char>>)
    requires
        names.len() >= 1,
        forall|i: int| 0 <= i < names.len() ==> !(#[trigger] names[i]).contains(','),
    ensures
        split_pieces(comma_joined(names), ',') == names,
    decreases names.len(),
{
    reveal_strlit(",");
    if names.len() == 1 {
        lemma_split_without_sep(names[0], ',');
        assert(seq![names[0]] =~= names);
    } else {
        let init = names.drop_last();
        assert forall|i: int| 0 <= i < init.len() implies !(#[trigger] init[i]).contains(',') by {
            assert(init[i] == names[i]);
        }
        lemma_selected_fields_split_back(init);
        assert(!names.last().contains(',')) by {
            assert(names[names.len() - 1] == names.last());
        }
        assert(","@ =~= seq![',']);
        lemma_split_after_sep(comma_joined(init), names.last(), ',');
        assert(init.push(names.last()) =~= names);
    }
}

} // verus!
