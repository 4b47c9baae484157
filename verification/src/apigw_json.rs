//! The JSON bodies of API Gateway v2 management requests, and how path and
//! query parameters are merged into them before the input is read.

use vstd::prelude::*;
use crate::apigw::{pairs_view, parse_query_params, query_pairs};
use crate::routing::{json_string, json_string_literal};
use crate::seqs::{first_index, is_first, lemma_first_index_is, lemma_first_index_props};
use crate::text::{own, str_eq};

verus! {

/// A member value of a JSON object, as the merging of parameters sees it: a
/// string, an array (each element kept as its JSON text), or any other value
/// (kept as its JSON text).
#[derive(Debug)]
pub enum JsonValue {
    Str(String),
    Array(Vec<String>),
    Other(String),
}

/// The text of a member value.
pub enum JsonView {
    Str(Seq<char>),
    Array(Seq<Seq<char>>),
    Other(Seq<char>),
}

/// The text of a member value.
pub open spec fn json_view(v: JsonValue) -> JsonView {
    match v {
        JsonValue::Str(s) => JsonView::Str(s@),
        JsonValue::Array(a) => JsonView::Array(a@.map_values(|t: String| t@)),
        JsonValue::Other(t) => JsonView::Other(t@),
    }
}

/// The text of an object's members, in order.
pub open spec fn object_view(o: Seq<(String, JsonValue)>) -> Seq<(Seq<char>, JsonView)> {
    o.map_values(|e: (String, JsonValue)| (e.0@, json_view(e.1)))
}

/// The members of the JSON object that `body` holds, in serde_json's map
/// order; `None` when `body` is not a JSON object.
pub uninterp spec fn json_object_of(body: Seq<u8>) -> Option<Seq<(Seq<char>, JsonView)>>;

/// The bytes serde_json writes for an object with the given members.
pub uninterp spec fn json_object_text(obj: Seq<(Seq<char>, JsonView)>) -> Seq<u8>;

/// The members of the JSON object in a body.
///
/// Trusted: `serde_json::from_slice` into a `serde_json::Map`; a string
/// member becomes `Str`, an array `Array` of its elements' JSON texts, any
/// other value `Other` of its JSON text.  What it returns is a function of
/// the bytes alone, named `json_object_of`.
#[verifier::external_body]
fn parse_json_object(body: &[u8]) -> (r: Option<Vec<(String, JsonValue)>>)
    ensures
        match r {
            Some(o) => json_object_of(body@) == Some(object_view(o@)),
            None => json_object_of(body@) is None,
        },
{
    let m: serde_json::Map<String, serde_json::Value> = serde_json::from_slice(body).ok()?;
    Some(m.into_iter().map(|(k, v)| (k, match v {
        serde_json::Value::String(s) => JsonValue::Str(s),
        serde_json::Value::Array(a) => JsonValue::Array(a.iter().map(|x| x.to_string()).collect()),
        other => JsonValue::Other(other.to_string()),
    })).collect())
}

/// The bytes of a JSON object with the given members.
///
/// Trusted: the members are put back into a `serde_json::Map` (each JSON
/// text read with `serde_json::from_str`; a text that is not JSON, which
/// `merge_params` never makes, is read as `null`), which `serde_json::to_vec`
/// writes.  The result is a function of the members alone, named
/// `json_object_text`.
#[verifier::external_body]
fn json_object_bytes(obj: &Vec<(String, JsonValue)>) -> (r: Vec<u8>)
    ensures
        r@ == json_object_text(object_view(obj@)),
{
    let m: serde_json::Map<String, serde_json::Value> = obj.iter().map(|(k, v)| (k.clone(), match v {
        JsonValue::Str(s) => serde_json::Value::String(s.clone()),
        JsonValue::Array(a) => serde_json::Value::Array(
            a.iter().map(|t| serde_json::from_str(t).unwrap_or(serde_json::Value::Null)).collect(),
        ),
        JsonValue::Other(t) => serde_json::from_str(t).unwrap_or(serde_json::Value::Null),
    })).collect();
    serde_json::to_vec(&m).unwrap_or_default()
}

/// Selects the members named `k`.
pub open spec fn member_named(k: Seq<char>) -> spec_fn((Seq<char>, JsonView)) -> bool {
    |e: (Seq<char>, JsonView)| e.0 == k
}

/// Position of the first member named `k` (or the count of members).
pub open spec fn member_index(o: Seq<(Seq<char>, JsonView)>, k: Seq<char>) -> int {
    first_index(o, member_named(k)) as int
}

/// The member name a path parameter goes under: `resource-arn` becomes
/// `resourceArn`, every other name stays.
pub open spec fn path_member(k: Seq<char>) -> Seq<char> {
    if k == "resource-arn"@ {
        "resourceArn"@
    } else {
        k
    }
}

/// The object after one path parameter: added as a string unless a member of
/// that name is already there.
pub open spec fn with_path_param(o: Seq<(Seq<char>, JsonView)>, k: Seq<char>, v: Seq<char>) -> Seq<
    (Seq<char>, JsonView),
> {
    if member_index(o, path_member(k)) < o.len() {
        o
    } else {
        o.push((path_member(k), JsonView::Str(v)))
    }
}

/// The object after the path parameters, in order.
pub open spec fn with_path_params(
    o: Seq<(Seq<char>, JsonView)>,
    ps: Seq<(Seq<char>, Seq<char>)>,
) -> Seq<(Seq<char>, JsonView)>
    decreases ps.len(),
{
    if ps.len() == 0 {
        o
    } else {
        with_path_param(with_path_params(o, ps.drop_last()), ps.last().0, ps.last().1)
    }
}

/// The object after one query parameter: a new name is added as a string
/// (as a one-element array for `tagKeys`); a value for an array member is
/// appended to it; a value for any other present member is dropped.
pub open spec fn with_query_param(o: Seq<(Seq<char>, JsonView)>, k: Seq<char>, v: Seq<char>) -> Seq<
    (Seq<char>, JsonView),
> {
    let i = member_index(o, k);
    if i < o.len() {
        match o[i].1 {
            JsonView::Array(items) => o.update(i, (k, JsonView::Array(items.push(json_string(v))))),
            _ => o,
        }
    } else if k == "tagKeys"@ {
        o.push((k, JsonView::Array(seq![json_string(v)])))
    } else {
        o.push((k, JsonView::Str(v)))
    }
}

/// The object after the query parameters, in order.
pub open spec fn with_query_params(
    o: Seq<(Seq<char>, JsonView)>,
    qs: Seq<(Seq<char>, Seq<char>)>,
) -> Seq<(Seq<char>, JsonView)>
    decreases qs.len(),
{
    if qs.len() == 0 {
        o
    } else {
        with_query_param(with_query_params(o, qs.drop_last()), qs.last().0, qs.last().1)
    }
}

/// The request body with the path and query parameters merged in: an empty
/// body counts as an empty object; a body that is not a JSON object is left
/// as it is.
pub open spec fn merged_body(
    body: Seq<u8>,
    path: Seq<(Seq<char>, Seq<char>)>,
    query: Seq<char>,
) -> Seq<u8> {
    let start = if body.len() == 0 {
        Some(Seq::<(Seq<char>, JsonView)>::empty())
    } else {
        json_object_of(body)
    };
    match start {
        None => body,
        Some(o) => json_object_text(with_query_params(with_path_params(o, path), query_pairs(query))),
    }
}

/// Position of the first member named `k`.
fn find_member(o: &Vec<(String, JsonValue)>, k: &str) -> (r: usize)
    ensures
        r == member_index(object_view(o@), k@),
        r <= o@.len(),
{
    let ghost ov = object_view(o@);
    let ghost pred = member_named(k@);
    let mut i: usize = 0;
    while i < o.len()
        invariant
            i <= o.len(),
            ov == object_view(o@),
            pred == member_named(k@),
            ov.len() == o@.len(),
            forall|j: int| 0 <= j < i ==> !pred(#[trigger] ov[j]),
        decreases o.len() - i,
    {
        assert(ov[i as int].0 == o@[i as int].0@);
        if str_eq(o[i].0.as_str(), k) {
            proof {
                assert(is_first(ov, pred, i as int));
                lemma_first_index_is(ov, pred, i as int);
            }
            return i;
        }
        i = i + 1;
    }
    proof {
        assert(is_first(ov, pred, i as int));
        lemma_first_index_is(ov, pred, i as int);
    }
    i
}

/// Adds a member at the end.
fn push_member(o: &mut Vec<(String, JsonValue)>, k: String, v: JsonValue)
    ensures
        object_view(final(o)@) == object_view(old(o)@).push((k@, json_view(v))),
{
    let ghost before = object_view(o@);
    o.push((k, v));
    assert(object_view(o@) =~= before.push((k@, json_view(v))));
}

/// A copy of a byte slice.
fn copy_bytes(b: &[u8]) -> (r: Vec<u8>)
    ensures
        r@ == b@,
{
    let mut out: Vec<u8> = Vec::new();
    let mut i: usize = 0;
    while i < b.len()
        invariant
            i <= b.len(),
            out@ == b@.take(i as int),
        decreases b.len() - i,
    {
        out.push(b[i]);
        assert(b@.take(i + 1) =~= b@.take(i as int).push(b@[i as int]));
        i = i + 1;
    }
    assert(b@.take(b.len() as int) =~= b@);
    out
}

/// Merge path parameters and query parameters into the JSON body so that
/// required fields like `apiId` are present when the input is read.
pub fn merge_params(body: &[u8], path_params: &Vec<(String, String)>, query: &str) -> (r: Vec<u8>)
    ensures
        r@ == merged_body(body@, pairs_view(path_params@), query@),
{
    let parsed = if body.len() == 0 {
        Some(Vec::new())
    } else {
        parse_json_object(body)
    };
    let mut obj = match parsed {
        None => {
            return copy_bytes(body);
        },
        Some(o) => o,
    };
    proof {
        if body@.len() == 0 {
            assert(object_view(obj@) =~= Seq::<(Seq<char>, JsonView)>::empty());
        }
    }
    let ghost start = object_view(obj@);
    let ghost pv = pairs_view(path_params@);
    let mut i: usize = 0;
    while i < path_params.len()
        invariant
            i <= path_params.len(),
            pv == pairs_view(path_params@),
            object_view(obj@) == with_path_params(start, pv.take(i as int)),
        decreases path_params.len() - i,
    {
        proof {
            assert(pv.take(i + 1).drop_last() =~= pv.take(i as int));
            assert(pv.take(i + 1).last() == pv[i as int]);
        }
        let k = path_params[i].0.as_str();
        let member = if str_eq(k, "resource-arn") {
            own("resourceArn")
        } else {
            own(k)
        };
        assert(member@ == path_member(pv[i as int].0));
        if find_member(&obj, member.as_str()) == obj.len() {
            push_member(&mut obj, member, JsonValue::Str(path_params[i].1.clone()));
        }
        i = i + 1;
    }
    assert(pv.take(path_params.len() as int) =~= pv);
    let ghost mid = object_view(obj@);
    let qp = parse_query_params(query);
    let ghost qv = pairs_view(qp@);
    let mut j: usize = 0;
    while j < qp.len()
        invariant
            j <= qp.len(),
            qv == pairs_view(qp@),
            qv == query_pairs(query@),
            object_view(obj@) == with_query_params(mid, qv.take(j as int)),
        decreases qp.len() - j,
    {
        proof {
            assert(qv.take(j + 1).drop_last() =~= qv.take(j as int));
            assert(qv.take(j + 1).last() == qv[j as int]);
        }
        let k = qp[j].0.as_str();
        let v = qp[j].1.as_str();
        let ghost before = object_view(obj@);
        let at = find_member(&obj, k);
        if at < obj.len() {
            let is_array = match &obj[at].1 {
                JsonValue::Array(_) => true,
                _ => false,
            };
            if is_array {
                let ghost old_obj = obj@;
                let (name, value) = obj.remove(at);
                let ghost gv = value;
                let item = json_string_literal(v);
                let nv = match value {
                    JsonValue::Array(items) => {
                        let ghost i0 = items@;
                        let mut items = items;
                        items.push(item);
                        let r = JsonValue::Array(items);
                        assert(items@.map_values(|t: String| t@) =~= i0.map_values(|t: String| t@).push(
                            item@,
                        ));
                        assert(json_view(r) == JsonView::Array(
                            i0.map_values(|t: String| t@).push(json_string(v@)),
                        ));
                        r
                    },
                    other => other,
                };
                obj.insert(at, (name, nv));
                proof {
                    lemma_first_index_props(before, member_named(k@));
                    assert(gv == old_obj[at as int].1);
                    assert(name@ == before[at as int].0);
                    assert(before[at as int].0 == k@);
                    assert(before[at as int].1 == json_view(gv));
                    let target = before.update(at as int, (k@, json_view(nv)));
                    assert(object_view(obj@) =~= target);
                }
            }
        } else {
            let name = own(k);
            if str_eq(k, "tagKeys") {
                let mut items: Vec<String> = Vec::new();
                items.push(json_string_literal(v));
                proof {
                    assert(items@.map_values(|t: String| t@) =~= seq![json_string(v@)]);
                }
                push_member(&mut obj, name, JsonValue::Array(items));
            } else {
                push_member(&mut obj, name, JsonValue::Str(own(v)));
            }
        }
        j = j + 1;
    }
    assert(qv.take(qp.len() as int) =~= qv);
    json_object_bytes(&obj)
}

} // verus!
