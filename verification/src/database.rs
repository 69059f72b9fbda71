//! The vector store client's data model and verified request building: the
//! filter sent to the scroll endpoint, rendered as its exact JSON body, the
//! endpoint URLs, and the extraction of retrieved text from a query
//! response. The HTTP POST itself is done by the application shell, which
//! hands the response back as plain values.

use vstd::prelude::*;
use crate::json::{dec_string, json_string, spec_dec, spec_json_string, JsonNumber};

verus! {

/// An exact key/value match constraint on document metadata.
pub struct KeyWordMatch {
    pub key: String,
    pub match_: String,
}

/// A vector-similarity constraint: a named vector field, a value vector and
/// a similarity threshold.
pub struct VectorMatch {
    pub vector: String,
    pub value: Vec<JsonNumber>,
    pub threshold: JsonNumber,
}

/// The query parameters for the vector store: a result limit, an optional
/// pagination offset, optional exact match constraints and optional
/// similarity constraints.
pub struct Filter {
    pub limit: u32,
    pub offset: Option<usize>,
    pub must: Option<Vec<KeyWordMatch>>,
    pub should: Option<Vec<VectorMatch>>,
}

/// Optional descriptive fields carried with a retrieved document.
pub struct Metadata {
    pub material: Option<String>,
    pub page: u32,
    pub pattern: Option<String>,
    pub rug_name: Option<String>,
    pub source: String,
    pub style: Option<String>,
}

/// A retrieved document's payload: its text content and metadata.
pub struct Payload {
    pub metadata: Option<Metadata>,
    pub page_content: String,
}

/// One retrieved document point.
pub struct Point {
    pub id: String,
    pub payload: Payload,
}

/// The scroll endpoint's result: the points and a pagination offset.
pub struct ApiResponse {
    pub next_page_offset: Option<String>,
    pub points: Vec<Point>,
}

/// The vector store's full reply to a scroll query.
pub struct QueryResponse {
    pub result: ApiResponse,
    pub status: String,
    pub time: JsonNumber,
}

/// The JSON object for one exact match constraint.
pub open spec fn spec_keyword_json(k: KeyWordMatch) -> Seq<char> {
    "{\"key\":"@ + spec_json_string(k.key@) + ",\"match_\":"@ + spec_json_string(k.match_@)
        + "}"@
}

/// The comma-separated JSON objects of a list of exact match constraints.
pub open spec fn spec_keywords_json(ks: Seq<KeyWordMatch>) -> Seq<char>
    decreases ks.len(),
{
    if ks.len() == 0 {
        Seq::empty()
    } else if ks.len() == 1 {
        spec_keyword_json(ks[0])
    } else {
        spec_keywords_json(ks.drop_last()) + ","@ + spec_keyword_json(ks.last())
    }
}

/// The comma-separated texts of a list of numbers.
pub open spec fn spec_numbers_json(v: Seq<JsonNumber>) -> Seq<char>
    decreases v.len(),
{
    if v.len() == 0 {
        Seq::empty()
    } else if v.len() == 1 {
        v[0]@
    } else {
        spec_numbers_json(v.drop_last()) + ","@ + v.last()@
    }
}

/// The JSON object for one similarity constraint.
pub open spec fn spec_vector_match_json(v: VectorMatch) -> Seq<char> {
    "{\"vector\":"@ + spec_json_string(v.vector@) + ",\"value\":["@ + spec_numbers_json(v.value@)
        + "],\"threshold\":"@ + v.threshold@ + "}"@
}

/// The comma-separated JSON objects of a list of similarity constraints.
pub open spec fn spec_vector_matches_json(vs: Seq<VectorMatch>) -> Seq<char>
    decreases vs.len(),
{
    if vs.len() == 0 {
        Seq::empty()
    } else if vs.len() == 1 {
        spec_vector_match_json(vs[0])
    } else {
        spec_vector_matches_json(vs.drop_last()) + ","@ + spec_vector_match_json(vs.last())
    }
}

/// The JSON value of the optional offset: a number or `null`.
pub open spec fn spec_offset_json(o: Option<usize>) -> Seq<char> {
    match o {
        Option::None => "null"@,
        Option::Some(x) => spec_dec(x as nat),
    }
}

/// The JSON value of the optional `must` list: an array or `null`.
pub open spec fn spec_must_json(m: Option<Vec<KeyWordMatch>>) -> Seq<char> {
    match m {
        Option::None => "null"@,
        Option::Some(ks) => "["@ + spec_keywords_json(ks@) + "]"@,
    }
}

/// The JSON value of the optional `should` list: an array or `null`.
pub open spec fn spec_should_json(s: Option<Vec<VectorMatch>>) -> Seq<char> {
    match s {
        Option::None => "null"@,
        Option::Some(vs) => "["@ + spec_vector_matches_json(vs@) + "]"@,
    }
}

/// The exact JSON body sent to the scroll endpoint for a filter.
pub open spec fn spec_filter_json(f: Filter) -> Seq<char> {
    "{\"limit\":"@ + spec_dec(f.limit as nat) + ",\"offset\":"@ + spec_offset_json(f.offset)
        + ",\"must\":"@ + spec_must_json(f.must) + ",\"should\":"@ + spec_should_json(f.should)
        + "}"@
}

fn keyword_json(k: &KeyWordMatch) -> (r: String)
    ensures
        r@ == spec_keyword_json(*k),
{
    let mut out = String::from_str("{\"key\":");
    let s = json_string(k.key.as_str());
    out.append(s.as_str());
    out.append(",\"match_\":");
    let s = json_string(k.match_.as_str());
    out.append(s.as_str());
    out.append("}");
    out
}

fn keywords_json(ks: &Vec<KeyWordMatch>) -> (r: String)
    ensures
        r@ == spec_keywords_json(ks@),
{
    let n = ks.len();
    let mut out = String::new();
    let mut i: usize = 0;
    while i < n
        invariant
            n == ks@.len(),
            i <= n,
            out@ == spec_keywords_json(ks@.take(i as int)),
        decreases n - i,
    {
        proof {
            assert(ks@.take(i + 1).drop_last() =~= ks@.take(i as int));
            assert(ks@.take(i + 1).last() == ks@[i as int]);
        }
        if i > 0 {
            out.append(",");
        }
        let s = keyword_json(&ks[i]);
        out.append(s.as_str());
        i += 1;
    }
    proof {
        assert(ks@.take(n as int) =~= ks@);
    }
    out
}

fn numbers_json(v: &Vec<JsonNumber>) -> (r: String)
    ensures
        r@ == spec_numbers_json(v@),
{
    let n = v.len();
    let mut out = String::new();
    let mut i: usize = 0;
    while i < n
        invariant
            n == v@.len(),
            i <= n,
            out@ == spec_numbers_json(v@.take(i as int)),
        decreases n - i,
    {
        proof {
            assert(v@.take(i + 1).drop_last() =~= v@.take(i as int));
            assert(v@.take(i + 1).last() == v@[i as int]);
        }
        if i > 0 {
            out.append(",");
        }
        out.append(v[i].as_str());
        i += 1;
    }
    proof {
        assert(v@.take(n as int) =~= v@);
    }
    out
}

fn vector_match_json(v: &VectorMatch) -> (r: String)
    ensures
        r@ == spec_vector_match_json(*v),
{
    let mut out = String::from_str("{\"vector\":");
    let s = json_string(v.vector.as_str());
    out.append(s.as_str());
    out.append(",\"value\":[");
    let s = numbers_json(&v.value);
    out.append(s.as_str());
    out.append("],\"threshold\":");
    out.append(v.threshold.as_str());
    out.append("}");
    out
}

fn vector_matches_json(vs: &Vec<VectorMatch>) -> (r: String)
    ensures
        r@ == spec_vector_matches_json(vs@),
{
    let n = vs.len();
    let mut out = String::new();
    let mut i: usize = 0;
    while i < n
        invariant
            n == vs@.len(),
            i <= n,
            out@ == spec_vector_matches_json(vs@.take(i as int)),
        decreases n - i,
    {
        proof {
            assert(vs@.take(i + 1).drop_last() =~= vs@.take(i as int));
            assert(vs@.take(i + 1).last() == vs@[i as int]);
        }
        if i > 0 {
            out.append(",");
        }
        let s = vector_match_json(&vs[i]);
        out.append(s.as_str());
        i += 1;
    }
    proof {
        assert(vs@.take(n as int) =~= vs@);
    }
    out
}

/// Renders a filter as the exact JSON body of a scroll request.
pub fn filter_body(f: &Filter) -> (r: String)
    ensures
        r@ == spec_filter_json(*f),
{
    let mut out = String::from_str("{\"limit\":");
    let s = dec_string(f.limit as u64);
    out.append(s.as_str());
    out.append(",\"offset\":");
    match &f.offset {
        Option::None => out.append("null"),
        Option::Some(o) => {
            let s = dec_string(*o as u64);
            out.append(s.as_str());
        },
    }
    out.append(",\"must\":");
    match &f.must {
        Option::None => out.append("null"),
        Option::Some(ks) => {
            out.append("[");
            let s = keywords_json(ks);
            out.append(s.as_str());
            out.append("]");
        },
    }
    out.append(",\"should\":");
    match &f.should {
        Option::None => out.append("null"),
        Option::Some(vs) => {
            out.append("[");
            let s = vector_matches_json(vs);
            out.append(s.as_str());
            out.append("]");
        },
    }
    out.append("}");
    out
}

/// The URL of one collection's metadata endpoint.
pub fn collection_info_url(base_url: &str, collection_name: &str) -> (r: String)
    ensures
        r@ == base_url@ + "/"@ + collection_name@,
{
    let mut out = String::from_str(base_url);
    out.append("/");
    out.append(collection_name);
    out
}

/// The URL of a collection's scroll endpoint.
pub fn scroll_url(base_url: &str, collection_name: &str) -> (r: String)
    ensures
        r@ == base_url@ + "/"@ + collection_name@ + "/points/scroll"@,
{
    let mut out = String::from_str(base_url);
    out.append("/");
    out.append(collection_name);
    out.append("/points/scroll");
    out
}

/// The retrieved context: the points' text contents joined by newlines.
pub open spec fn spec_context(ps: Seq<Point>) -> Seq<char>
    decreases ps.len(),
{
    if ps.len() == 0 {
        Seq::empty()
    } else if ps.len() == 1 {
        ps[0].payload.page_content@
    } else {
        spec_context(ps.drop_last()) + "\n"@ + ps.last().payload.page_content@
    }
}

/// Joins the text contents of the retrieved points with newlines: the
/// context string handed to the prompt assembler.
pub fn context_of(resp: &QueryResponse) -> (r: String)
    ensures
        r@ == spec_context(resp.result.points@),
{
    let ps = &resp.result.points;
    let n = ps.len();
    let mut out = String::new();
    let mut i: usize = 0;
    while i < n
        invariant
            n == ps@.len(),
            i <= n,
            out@ == spec_context(ps@.take(i as int)),
        decreases n - i,
    {
        proof {
            assert(ps@.take(i + 1).drop_last() =~= ps@.take(i as int));
            assert(ps@.take(i + 1).last() == ps@[i as int]);
        }
        if i > 0 {
            out.append("\n");
        }
        out.append(ps[i].payload.page_content.as_str());
        i += 1;
    }
    proof {
        assert(ps@.take(n as int) =~= ps@);
    }
    out
}

} // verus!
