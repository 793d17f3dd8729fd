//! Search and filter requests: their defaults, the filter conditions they become, and
//! the cache keys under which their results are kept.
use vstd::prelude::*;
use crate::events::{decimal, decimal_string};
use crate::node::clone_strings;

verus! {

#[derive(Debug)]
pub struct SearchRequest {
    pub query: String,
    pub fields: Vec<String>,
    pub from: i64,
    pub size: i64,
}

#[derive(Debug)]
pub struct FilterRequest {
    pub status: Option<String>,
    pub min_duration: Option<i64>,
    pub max_duration: Option<i64>,
    pub prerequisites: Option<Vec<String>>,
    pub title_match: Option<String>,
    pub from: i64,
    pub size: i64,
    pub sort_by: Option<String>,
    pub sort_order: Option<String>,
}

/// One page of search hits.
#[derive(Debug)]
pub struct SearchResponse<T> {
    pub total: i64,
    pub results: Vec<T>,
}

/// A page of search hits as it is returned and cached, with the page asked for and the
/// source that answered.
#[derive(Debug)]
pub struct SearchResultResponse<T> {
    pub total: i64,
    pub results: Vec<T>,
    pub from: i64,
    pub size: i64,
    pub source: String,
}

#[derive(Debug)]
pub struct CourseSearchResult {
    pub id: String,
    pub title: String,
    pub description: String,
    pub status: String,
    pub cover: Option<String>,
    pub prerequisites: Option<Vec<String>>,
    pub documents: Option<Vec<String>>,
    pub total_duration_minutes: i32,
}

/// One condition of a filtered search.
#[derive(Debug)]
pub enum FilterCondition {
    Term { field: String, value: String },
    Range { field: String, gte: Option<i64>, lte: Option<i64>, gt: Option<i64>, lt: Option<i64> },
    Match { field: String, value: String },
    Terms { field: String, values: Vec<String> },
}

pub enum FilterSpec {
    Term(Seq<char>, Seq<char>),
    Range(Seq<char>, Option<i64>, Option<i64>, Option<i64>, Option<i64>),
    Match(Seq<char>, Seq<char>),
    Terms(Seq<char>, Seq<Seq<char>>),
}

impl View for FilterCondition {
    type V = FilterSpec;

    open spec fn view(&self) -> FilterSpec {
        match self {
            FilterCondition::Term { field, value } => FilterSpec::Term(field@, value@),
            FilterCondition::Range { field, gte, lte, gt, lt } => FilterSpec::Range(field@, *gte, *lte, *gt, *lt),
            FilterCondition::Match { field, value } => FilterSpec::Match(field@, value@),
            FilterCondition::Terms { field, values } => FilterSpec::Terms(field@, values.deep_view()),
        }
    }
}

/// The fields searched where a request names none.
pub fn default_fields() -> (r: Vec<String>)
    ensures
        r.deep_view() == seq!["title"@, "description"@, "prerequisites"@],
{
    let mut r: Vec<String> = Vec::new();
    r.push(String::from_str("title"));
    r.push(String::from_str("description"));
    r.push(String::from_str("prerequisites"));
    assert(r.deep_view() =~= seq!["title"@, "description"@, "prerequisites"@]);
    r
}

/// The page size where a request names none.
pub fn default_size() -> (r: i64)
    ensures
        r == 10,
{
    10
}

pub open spec fn cond_if(s: Seq<FilterSpec>, present: bool, c: FilterSpec) -> Seq<FilterSpec> {
    if present {
        s.push(c)
    } else {
        s
    }
}

/// The duration range of a filter, where it bounds the duration at all.
pub open spec fn duration_range(min: Option<i64>, max: Option<i64>) -> FilterSpec {
    FilterSpec::Range("total_duration_minutes"@, min, max, None, None)
}

/// The conditions of a filter request, in order: the status, the duration range, the
/// prerequisites (where some are named), and the title.
pub open spec fn filter_conditions_of(r: FilterRequest) -> Seq<FilterSpec> {
    let s = cond_if(Seq::empty(), r.status is Some, FilterSpec::Term("status"@, r.status->Some_0@));
    let s = cond_if(
        s,
        r.min_duration is Some || r.max_duration is Some,
        duration_range(r.min_duration, r.max_duration),
    );
    let s = cond_if(
        s,
        r.prerequisites is Some && r.prerequisites->Some_0@.len() > 0,
        FilterSpec::Terms("prerequisites"@, r.prerequisites->Some_0.deep_view()),
    );
    cond_if(s, r.title_match is Some, FilterSpec::Match("title"@, r.title_match->Some_0@))
}

/// The conditions of an advanced search, in order: the query as a title match (where it
/// is not empty), the status, and the duration range.
pub open spec fn advanced_conditions_of(query: Seq<char>, r: FilterRequest) -> Seq<FilterSpec> {
    let s = cond_if(Seq::empty(), query.len() > 0, FilterSpec::Match("title"@, query));
    let s = cond_if(s, r.status is Some, FilterSpec::Term("status"@, r.status->Some_0@));
    cond_if(s, r.min_duration is Some || r.max_duration is Some, duration_range(r.min_duration, r.max_duration))
}

pub open spec fn conditions_view(v: Seq<FilterCondition>) -> Seq<FilterSpec> {
    v.map_values(|c: FilterCondition| c@)
}

fn push_cond(v: &mut Vec<FilterCondition>, c: FilterCondition)
    ensures
        conditions_view(final(v)@) == conditions_view(old(v)@).push(c@),
{
    v.push(c);
    assert(conditions_view(v@) =~= conditions_view(old(v)@).push(c@));
}

/// The conditions that a filter request asks for.
pub fn filter_conditions(req: &FilterRequest) -> (r: Vec<FilterCondition>)
    ensures
        conditions_view(r@) == filter_conditions_of(*req),
{
    let mut v: Vec<FilterCondition> = Vec::new();
    assert(conditions_view(v@) =~= Seq::<FilterSpec>::empty());
    if let Some(status) = &req.status {
        push_cond(&mut v, FilterCondition::Term { field: String::from_str("status"), value: status.clone() });
    }
    if req.min_duration.is_some() || req.max_duration.is_some() {
        push_cond(
            &mut v,
            FilterCondition::Range {
                field: String::from_str("total_duration_minutes"),
                gte: req.min_duration,
                lte: req.max_duration,
                gt: None,
                lt: None,
            },
        );
    }
    if let Some(prereqs) = &req.prerequisites {
        if prereqs.len() > 0 {
            push_cond(
                &mut v,
                FilterCondition::Terms { field: String::from_str("prerequisites"), values: clone_strings(prereqs) },
            );
        }
    }
    if let Some(title) = &req.title_match {
        push_cond(&mut v, FilterCondition::Match { field: String::from_str("title"), value: title.clone() });
    }
    v
}

/// The conditions of an advanced search: the query text and a filter request.
pub fn advanced_conditions(query: &str, req: &FilterRequest) -> (r: Vec<FilterCondition>)
    ensures
        conditions_view(r@) == advanced_conditions_of(query@, *req),
{
    let mut v: Vec<FilterCondition> = Vec::new();
    assert(conditions_view(v@) =~= Seq::<FilterSpec>::empty());
    if query.unicode_len() > 0 {
        push_cond(&mut v, FilterCondition::Match { field: String::from_str("title"), value: String::from_str(query) });
    }
    if let Some(status) = &req.status {
        push_cond(&mut v, FilterCondition::Term { field: String::from_str("status"), value: status.clone() });
    }
    if req.min_duration.is_some() || req.max_duration.is_some() {
        push_cond(
            &mut v,
            FilterCondition::Range {
                field: String::from_str("total_duration_minutes"),
                gte: req.min_duration,
                lte: req.max_duration,
                gt: None,
                lt: None,
            },
        );
    }
    v
}

/// `search:programs:<query>:<from>:<size>`
pub open spec fn search_key_of(r: SearchRequest) -> Seq<char> {
    "search:programs:"@ + r.query@ + ":"@ + decimal(r.from as int) + ":"@ + decimal(r.size as int)
}

/// `filter:programs:<status or none>:<min or 0>:<max or 0>:<from>:<size>`
pub open spec fn filter_key_of(r: FilterRequest) -> Seq<char> {
    "filter:programs:"@ + (if r.status is Some { r.status->Some_0@ } else { "none"@ }) + ":"@ + decimal(
        if r.min_duration is Some { r.min_duration->Some_0 as int } else { 0 },
    ) + ":"@ + decimal(if r.max_duration is Some { r.max_duration->Some_0 as int } else { 0 }) + ":"@
        + decimal(r.from as int) + ":"@ + decimal(r.size as int)
}

/// `advanced:programs:<query>:<status or none>:<from>`
pub open spec fn advanced_key_of(query: Seq<char>, r: FilterRequest) -> Seq<char> {
    "advanced:programs:"@ + query + ":"@ + (if r.status is Some { r.status->Some_0@ } else { "none"@ }) + ":"@
        + decimal(r.from as int)
}

fn append_decimal(s: &mut String, i: i64)
    ensures
        final(s)@ == old(s)@ + decimal(i as int),
{
    let d = decimal_string(i);
    s.append(d.as_str());
}

/// The cache key of a search request's results.
pub fn search_cache_key(req: &SearchRequest) -> (r: String)
    ensures
        r@ == search_key_of(*req),
{
    let mut k = String::from_str("search:programs:");
    k.append(req.query.as_str());
    k.append(":");
    append_decimal(&mut k, req.from);
    k.append(":");
    append_decimal(&mut k, req.size);
    k
}

/// The cache key of a filter request's results.
pub fn filter_cache_key(req: &FilterRequest) -> (r: String)
    ensures
        r@ == filter_key_of(*req),
{
    let mut k = String::from_str("filter:programs:");
    match &req.status {
        Some(s) => k.append(s.as_str()),
        None => k.append("none"),
    }
    k.append(":");
    append_decimal(&mut k, match req.min_duration { Some(v) => v, None => 0 });
    k.append(":");
    append_decimal(&mut k, match req.max_duration { Some(v) => v, None => 0 });
    k.append(":");
    append_decimal(&mut k, req.from);
    k.append(":");
    append_decimal(&mut k, req.size);
    k
}

/// The cache key of an advanced search's results.
pub fn advanced_cache_key(query: &str, req: &FilterRequest) -> (r: String)
    ensures
        r@ == advanced_key_of(query@, *req),
{
    let mut k = String::from_str("advanced:programs:");
    k.append(query);
    k.append(":");
    match &req.status {
        Some(s) => k.append(s.as_str()),
        None => k.append("none"),
    }
    k.append(":");
    append_decimal(&mut k, req.from);
    k
}

impl<T> SearchResultResponse<T> {
    /// The page to return and cache: the hits as the index gave them, the page asked
    /// for, and `opensearch` as the source.
    pub fn from_search(resp: SearchResponse<T>, from: i64, size: i64) -> (r: SearchResultResponse<T>)
        ensures
            r.total == resp.total,
            r.results@ == resp.results@,
            r.from == from,
            r.size == size,
            r.source@ == "opensearch"@,
    {
        SearchResultResponse {
            total: resp.total,
            results: resp.results,
            from,
            size,
            source: String::from_str("opensearch"),
        }
    }
}

} // verus!
