//! Time-series metric storage: series identified by namespace, metric name and
//! name-ordered dimensions, each holding timestamped data points with a cap on
//! how many it keeps.

use vstd::prelude::*;
use vstd::multiset::Multiset;
use crate::cloudwatch_model::{Dimension, StandardUnit};
use crate::seqs::{first_index, lemma_first_index_is, lemma_first_index_props};
use crate::text::{
    lemma_lex_asymmetric, lemma_lex_irreflexive, lemma_lex_total, lemma_lex_transitive, lex_le, lex_less, lex_lt,
    str_chars, str_eq,
};

verus! {

// ---------------------------------------------------------------------------
// Metric keys
// ---------------------------------------------------------------------------

/// Unique identifier for a metric series.
///
/// Dimensions are sorted by name for consistent lookup regardless of insertion order.
#[derive(Debug, Clone, Hash, Eq, PartialEq)]
pub struct MetricKey {
    /// CloudWatch namespace (e.g., `"AWS/EC2"`, `"MyApp"`).
    pub namespace: String,
    /// Metric name (e.g., `"CPUUtilization"`, `"RequestCount"`).
    pub metric_name: String,
    /// Sorted dimensions.
    pub dimensions: Vec<Dimension>,
}

/// The dimensions are in lexicographic order of name.
pub open spec fn names_sorted(s: Seq<Dimension>) -> bool {
    forall|i: int, j: int|
        0 <= i < j < s.len() ==> lex_le((#[trigger] s[i]).name@, (#[trigger] s[j]).name@)
}

/// No two dimensions share a name.
pub open spec fn names_distinct(s: Seq<Dimension>) -> bool {
    forall|i: int, j: int|
        0 <= i < j < s.len() ==> (#[trigger] s[i]).name@ != (#[trigger] s[j]).name@
}

/// The text of a dimension.
pub open spec fn dimension_view(d: Dimension) -> (Seq<char>, Seq<char>) {
    (d.name@, d.value@)
}

/// The text of a metric key: namespace, metric name and dimensions in order.
pub open spec fn key_view(k: MetricKey) -> (Seq<char>, Seq<char>, Seq<(Seq<char>, Seq<char>)>) {
    (k.namespace@, k.metric_name@, k.dimensions@.map_values(|d: Dimension| dimension_view(d)))
}

/// Inserting a dimension where nothing before it has a greater name and the
/// one at its place (if any) has a greater name keeps the order.
proof fn lemma_insert_keeps_names_sorted(s: Seq<Dimension>, p: int, x: Dimension)
    requires
        names_sorted(s),
        0 <= p <= s.len(),
        forall|k: int| 0 <= k < p ==> !lex_lt(x.name@, (#[trigger] s[k]).name@),
        p < s.len() ==> lex_lt(x.name@, s[p].name@),
    ensures
        names_sorted(s.insert(p, x)),
{
    let t = s.insert(p, x);
    assert forall|i: int, j: int| 0 <= i < j < t.len() implies lex_le(
        (#[trigger] t[i]).name@,
        (#[trigger] t[j]).name@,
    ) by {
        if i == p {
            assert(t[j] == s[j - 1]);
            if j - 1 > p {
                assert(lex_le(s[p].name@, s[j - 1].name@));
                if s[p].name@ != s[j - 1].name@ {
                    lemma_lex_transitive(x.name@, s[p].name@, s[j - 1].name@);
                }
            }
        } else if j == p {
            assert(t[i] == s[i]);
            lemma_lex_total(x.name@, s[i].name@);
        } else {
            let si = if i < p {
                i
            } else {
                i - 1
            };
            let sj = if j < p {
                j
            } else {
                j - 1
            };
            assert(t[i] == s[si]);
            assert(t[j] == s[sj]);
        }
    }
}

/// Selects the dimensions with the given name.
pub open spec fn dim_named(n: Seq<char>) -> spec_fn(Dimension) -> bool {
    |d: Dimension| d.name@ == n
}

/// Filtering a sequence none of whose elements qualifies gives nothing.
proof fn lemma_filter_none(s: Seq<Dimension>, pred: spec_fn(Dimension) -> bool)
    requires
        forall|k: int| 0 <= k < s.len() ==> !pred(#[trigger] s[k]),
    ensures
        s.filter(pred) =~= Seq::<Dimension>::empty(),
    decreases s.len(),
{
    reveal_with_fuel(Seq::filter, 1);
    if s.len() > 0 {
        lemma_filter_none(s.drop_last(), pred);
        assert(!pred(s[s.len() - 1]));
    }
}

/// Inserting a dimension at its insertion point puts it after every
/// dimension with its name: the dimensions with its name gain it at the
/// end, and those with any other name stay as they were.
proof fn lemma_insert_filter(s: Seq<Dimension>, p: int, x: Dimension, n: Seq<char>)
    requires
        names_sorted(s),
        0 <= p <= s.len(),
        forall|k: int| 0 <= k < p ==> !lex_lt(x.name@, (#[trigger] s[k]).name@),
        p < s.len() ==> lex_lt(x.name@, s[p].name@),
    ensures
        s.insert(p, x).filter(dim_named(n)) == if x.name@ == n {
            s.filter(dim_named(n)).push(x)
        } else {
            s.filter(dim_named(n))
        },
{
    broadcast use Seq::filter_distributes_over_add;

    let pred = dim_named(n);
    let a = s.take(p);
    let b = s.skip(p);
    assert(s.insert(p, x) =~= a + seq![x] + b);
    assert(s =~= a + b);
    reveal_with_fuel(Seq::filter, 2);
    assert(seq![x].drop_last() =~= Seq::<Dimension>::empty());
    if x.name@ == n {
        assert forall|k: int| 0 <= k < b.len() implies !pred(#[trigger] b[k]) by {
            assert(b[k] == s[p + k]);
            if k > 0 {
                assert(lex_le(s[p].name@, s[p + k].name@));
            }
            if s[p + k].name@ == n {
                if s[p].name@ != s[p + k].name@ {
                    lemma_lex_transitive(x.name@, s[p].name@, s[p + k].name@);
                }
                lemma_lex_irreflexive(x.name@);
            }
        }
        lemma_filter_none(b, pred);
        assert(seq![x].filter(pred) =~= seq![x]);
        assert((a + seq![x] + b).filter(pred) == (a + seq![x]).filter(pred) + b.filter(pred));
        assert((a + seq![x]).filter(pred) == a.filter(pred) + seq![x].filter(pred));
        assert(s.filter(pred) == a.filter(pred) + b.filter(pred));
        assert(a.filter(pred) + seq![x] =~= a.filter(pred).push(x));
        assert(a.filter(pred) + Seq::<Dimension>::empty() =~= a.filter(pred));
    } else {
        assert(seq![x].filter(pred) =~= Seq::<Dimension>::empty());
        assert((a + seq![x] + b).filter(pred) == (a + seq![x]).filter(pred) + b.filter(pred));
        assert((a + seq![x]).filter(pred) == a.filter(pred) + seq![x].filter(pred));
        assert(s.filter(pred) == a.filter(pred) + b.filter(pred));
        assert(a.filter(pred) + Seq::<Dimension>::empty() =~= a.filter(pred));
    }
}

fn dimension_insertion_point(out: &Vec<Dimension>, name: &Vec<char>) -> (p: usize)
    ensures
        p <= out@.len(),
        forall|k: int| 0 <= k < p ==> !lex_lt(name@, (#[trigger] out@[k]).name@),
        p < out@.len() ==> lex_lt(name@, out@[p as int].name@),
{
    let mut p: usize = 0;
    while p < out.len()
        invariant
            p <= out@.len(),
            forall|k: int| 0 <= k < p ==> !lex_lt(name@, (#[trigger] out@[k]).name@),
        decreases out.len() - p,
    {
        let other = str_chars(out[p].name.as_str());
        if lex_less(name, &other) {
            return p;
        }
        p = p + 1;
    }
    p
}

/// The dimensions ordered by name; dimensions with equal names keep their
/// relative order.
pub fn sort_dimensions(v: Vec<Dimension>) -> (r: Vec<Dimension>)
    ensures
        r@.to_multiset() == v@.to_multiset(),
        names_sorted(r@),
        forall|n: Seq<char>| #[trigger] r@.filter(dim_named(n)) == v@.filter(dim_named(n)),
{
    broadcast use vstd::multiset::group_multiset_axioms, vstd::seq_lib::group_to_multiset_ensures;

    let ghost orig = v@;
    let mut src = v;
    let mut out: Vec<Dimension> = Vec::new();
    let ghost mut c: int = 0;
    assert(out@.to_multiset() =~= Multiset::<Dimension>::empty());
    assert(out@.to_multiset().add(src@.to_multiset()) =~= orig.to_multiset());
    assert(orig.skip(0) =~= orig);
    assert forall|n: Seq<char>| #[trigger] out@.filter(dim_named(n)) == orig.take(0).filter(
        dim_named(n),
    ) by {
        assert(orig.take(0) =~= Seq::<Dimension>::empty());
        assert(out@ =~= Seq::<Dimension>::empty());
    }
    while src.len() > 0
        invariant
            out@.to_multiset().add(src@.to_multiset()) == orig.to_multiset(),
            names_sorted(out@),
            0 <= c <= orig.len(),
            src@ == orig.skip(c),
            forall|n: Seq<char>| #[trigger] out@.filter(dim_named(n)) == orig.take(c).filter(
                dim_named(n),
            ),
        decreases src.len(),
    {
        let ghost before_src = src@;
        let ghost before_out = out@;
        let x = src.remove(0);
        let name = str_chars(x.name.as_str());
        let p = dimension_insertion_point(&out, &name);
        proof {
            lemma_insert_keeps_names_sorted(out@, p as int, x);
            assert(x == orig[c]);
            assert forall|n: Seq<char>| #[trigger] before_out.insert(p as int, x).filter(
                dim_named(n),
            ) == orig.take(c + 1).filter(dim_named(n)) by {
                lemma_insert_filter(before_out, p as int, x, n);
                reveal_with_fuel(Seq::filter, 1);
                assert(orig.take(c + 1).drop_last() =~= orig.take(c));
                assert(orig.take(c + 1).last() == x);
            }
        }
        out.insert(p, x);
        proof {
            c = c + 1;
            assert(src@ =~= orig.skip(c));
            assert(out@ == before_out.insert(p as int, x));
            assert(before_src[0] == x);
            vstd::seq_lib::to_multiset_contains(before_src, x);
            vstd::seq_lib::to_multiset_remove(before_src, 0);
            vstd::seq_lib::to_multiset_insert(before_out, p as int, x);
            assert(out@.to_multiset().add(src@.to_multiset()) =~= before_out.to_multiset().add(
                before_src.to_multiset(),
            ));
        }
    }
    assert(src@.to_multiset() =~= Multiset::<Dimension>::empty());
    assert(out@.to_multiset() =~= orig.to_multiset());
    assert(c == orig.len()) by {
        if c < orig.len() {
            assert(orig.skip(c).len() > 0);
        }
    }
    assert(orig.take(c) =~= orig);
    out
}

impl MetricKey {
    /// Create a new `MetricKey` with dimensions normalized (sorted by name).
    pub fn new(namespace: String, metric_name: String, dimensions: Vec<Dimension>) -> (r: Self)
        ensures
            r.namespace == namespace,
            r.metric_name == metric_name,
            r.dimensions@.to_multiset() == dimensions@.to_multiset(),
            names_sorted(r.dimensions@),
    {
        MetricKey { namespace, metric_name, dimensions: sort_dimensions(dimensions) }
    }
}

/// Two name-sorted orderings of the same dimensions with distinct names are
/// the same sequence.
proof fn lemma_sorted_dimensions_unique(x: Seq<Dimension>, y: Seq<Dimension>)
    requires
        names_sorted(x),
        names_sorted(y),
        names_distinct(x),
        x.to_multiset() == y.to_multiset(),
    ensures
        x == y,
    decreases x.len(),
{
    broadcast use vstd::multiset::group_multiset_axioms;

    vstd::seq_lib::to_multiset_len(x);
    vstd::seq_lib::to_multiset_len(y);
    if x.len() == 0 {
        assert(x =~= y);
    } else {
        vstd::seq_lib::to_multiset_contains(y, x[0]);
        vstd::seq_lib::to_multiset_contains(x, x[0]);
        assert(x.contains(x[0]));
        let j = choose|j: int| 0 <= j < y.len() && y[j] == x[0];
        vstd::seq_lib::to_multiset_contains(x, y[0]);
        vstd::seq_lib::to_multiset_contains(y, y[0]);
        assert(y.contains(y[0]));
        let i = choose|i: int| 0 <= i < x.len() && x[i] == y[0];
        // x[0] <= x[i] = y[0] <= y[j] = x[0], so all these names are equal.
        if i > 0 {
            assert(lex_le(x[0].name@, x[i].name@));
        }
        if j > 0 {
            assert(lex_le(y[0].name@, y[j].name@));
        }
        if x[0].name@ != y[0].name@ {
            lemma_lex_asymmetric(x[0].name@, y[0].name@);
        }
        assert(i == 0);
        assert(x[0] == y[0]);
        vstd::seq_lib::to_multiset_remove(x, 0);
        vstd::seq_lib::to_multiset_remove(y, 0);
        assert(x.remove(0) =~= x.drop_first());
        assert(y.remove(0) =~= y.drop_first());
        let xs = x.drop_first();
        let ys = y.drop_first();
        assert forall|a: int, b: int| 0 <= a < b < xs.len() implies lex_le(
            (#[trigger] xs[a]).name@,
            (#[trigger] xs[b]).name@,
        ) by {
            assert(xs[a] == x[a + 1] && xs[b] == x[b + 1]);
        }
        assert forall|a: int, b: int| 0 <= a < b < ys.len() implies lex_le(
            (#[trigger] ys[a]).name@,
            (#[trigger] ys[b]).name@,
        ) by {
            assert(ys[a] == y[a + 1] && ys[b] == y[b + 1]);
        }
        assert forall|a: int, b: int| 0 <= a < b < xs.len() implies (#[trigger] xs[a]).name@
            != (#[trigger] xs[b]).name@ by {
            assert(xs[a] == x[a + 1] && xs[b] == x[b + 1]);
        }
        lemma_sorted_dimensions_unique(xs, ys);
        assert(x.len() == y.len());
        assert forall|k: int| 0 <= k < x.len() implies x[k] == y[k] by {
            if k > 0 {
                assert(x[k] == xs[k - 1]);
                assert(y[k] == ys[k - 1]);
            }
        }
        assert(x =~= y);
    }
}

/// Keys built from the same namespace, metric name and dimensions, given in
/// any order, are the same key, provided no two dimensions share a name:
/// `ka` and `kb` are what `MetricKey::new` gives for the dimensions `a` and
/// `b` (one a permutation of the other), as its `ensures` describe them.
pub proof fn lemma_metric_key_order_independent(
    a: Seq<Dimension>,
    b: Seq<Dimension>,
    ka: MetricKey,
    kb: MetricKey,
)
    requires
        a.to_multiset() == b.to_multiset(),
        names_distinct(a),
        ka.namespace@ == kb.namespace@,
        ka.metric_name@ == kb.metric_name@,
        ka.dimensions@.to_multiset() == a.to_multiset(),
        names_sorted(ka.dimensions@),
        kb.dimensions@.to_multiset() == b.to_multiset(),
        names_sorted(kb.dimensions@),
    ensures
        key_view(ka) == key_view(kb),
        ka.dimensions@ == kb.dimensions@,
{
    let x = ka.dimensions@;
    assert forall|i: int, j: int| 0 <= i < j < x.len() implies (#[trigger] x[i]).name@
        != (#[trigger] x[j]).name@ by {
        lemma_dimension_names_transfer(x, a, i, j);
    }
    lemma_sorted_dimensions_unique(ka.dimensions@, kb.dimensions@);
}

/// A rearrangement of dimensions with distinct names has distinct names.
proof fn lemma_dimension_names_transfer(x: Seq<Dimension>, a: Seq<Dimension>, i: int, j: int)
    requires
        x.to_multiset() == a.to_multiset(),
        names_distinct(a),
        0 <= i < j < x.len(),
    ensures
        x[i].name@ != x[j].name@,
{
    if x[i].name@ == x[j].name@ {
        lemma_dimension_names_clash(x, a, i, j);
    }
}

proof fn lemma_dimension_names_clash(x: Seq<Dimension>, a: Seq<Dimension>, i: int, j: int)
    requires
        x.to_multiset() == a.to_multiset(),
        names_distinct(a),
        0 <= i < j < x.len(),
        x[i].name@ == x[j].name@,
    ensures
        x[i].name@ != x[j].name@,
{
    broadcast use vstd::multiset::group_multiset_axioms;

    vstd::seq_lib::to_multiset_contains(x, x[i]);
    vstd::seq_lib::to_multiset_contains(a, x[i]);
    vstd::seq_lib::to_multiset_contains(x, x[j]);
    vstd::seq_lib::to_multiset_contains(a, x[j]);
    assert(x.contains(x[i]));
    assert(x.contains(x[j]));
    let p = choose|p: int| 0 <= p < a.len() && a[p] == x[i];
    let q = choose|q: int| 0 <= q < a.len() && a[q] == x[j];
    if p != q {
        if p < q {
            assert(a[p].name@ != a[q].name@);
        } else {
            assert(a[q].name@ != a[p].name@);
        }
    } else {
        // x[i] == x[j] occurs at least twice in x, but at most once in a.
        assert(x[i] == x[j]);
        lemma_count_two(x, i, j);
        lemma_count_at_most_one(a, x[i]);
    }
}

/// An element at two positions occurs at least twice.
proof fn lemma_count_two(x: Seq<Dimension>, i: int, j: int)
    requires
        0 <= i < j < x.len(),
        x[i] == x[j],
    ensures
        x.to_multiset().count(x[i]) >= 2,
{
    broadcast use vstd::multiset::group_multiset_axioms;

    let e = x[i];
    vstd::seq_lib::to_multiset_remove(x, j);
    let y = x.remove(j);
    assert(y[i] == e);
    vstd::seq_lib::to_multiset_contains(y, e);
    assert(y.contains(e));
}

/// In a sequence with distinct names, each element occurs at most once.
proof fn lemma_count_at_most_one(a: Seq<Dimension>, e: Dimension)
    requires
        names_distinct(a),
    ensures
        a.to_multiset().count(e) <= 1,
    decreases a.len(),
{
    broadcast use vstd::multiset::group_multiset_axioms;

    if a.len() == 0 {
        vstd::seq_lib::to_multiset_len(a);
        assert(a.to_multiset().len() == 0);
    } else {
        let rest = a.drop_first();
        assert forall|i: int, j: int| 0 <= i < j < rest.len() implies (#[trigger] rest[i]).name@
            != (#[trigger] rest[j]).name@ by {
            assert(rest[i] == a[i + 1] && rest[j] == a[j + 1]);
        }
        lemma_count_at_most_one(rest, e);
        vstd::seq_lib::to_multiset_remove(a, 0);
        assert(a.remove(0) =~= rest);
        assert(rest.to_multiset() == a.to_multiset().remove(a[0]));
        if a[0] == e {
            vstd::seq_lib::to_multiset_contains(rest, e);
            if rest.contains(e) {
                let k = choose|k: int| 0 <= k < rest.len() && rest[k] == e;
                assert(a[k + 1] == e);
                assert(a[0].name@ != a[k + 1].name@);
            }
            assert(rest.to_multiset().count(e) == 0);
        } else {
            assert(rest.to_multiset().count(e) == a.to_multiset().count(e));
        }
    }
}

// ---------------------------------------------------------------------------
// Data points and series
// ---------------------------------------------------------------------------

/// Pre-aggregated statistic set from `PutMetricData` `StatisticValues`; each
/// number is kept as its IEEE-754 bit pattern.
#[derive(Debug, Clone, Copy)]
pub struct StatisticSet {
    /// Number of samples.
    pub sample_count: u64,
    /// Sum of values.
    pub sum: u64,
    /// Minimum value.
    pub minimum: u64,
    /// Maximum value.
    pub maximum: u64,
}

/// A single data point within a metric series; numbers are kept as their
/// IEEE-754 bit patterns.
#[derive(Debug, Clone)]
pub struct DataPoint {
    /// Timestamp in epoch milliseconds.
    pub timestamp_ms: i64,
    /// Simple scalar value.
    pub value: Option<u64>,
    /// Pre-aggregated statistics.
    pub statistic_values: Option<StatisticSet>,
    /// Array of values (high-cardinality data).
    pub values: Vec<u64>,
    /// Array of counts corresponding to values.
    pub counts: Vec<u64>,
    /// Unit for this data point.
    pub unit: Option<StandardUnit>,
}

/// Time-series data for a single metric.
#[derive(Debug, Default)]
pub struct MetricSeries {
    /// Data points grouped by timestamp (epoch ms), in increasing order of
    /// timestamp; each group holds its points in arrival order.
    pub data_points: Vec<(i64, Vec<DataPoint>)>,
    /// Unit for this metric series (set by the first data point that has one).
    pub unit: Option<StandardUnit>,
}

/// All points of the groups, group by group.
pub open spec fn flatten_points(b: Seq<(i64, Vec<DataPoint>)>) -> Seq<DataPoint>
    decreases b.len(),
{
    if b.len() == 0 {
        Seq::<DataPoint>::empty()
    } else {
        flatten_points(b.drop_last()) + b.last().1@
    }
}

/// Groups are in strictly increasing order of timestamp, none is empty, and
/// each holds only points with its timestamp.
pub open spec fn groups_wf(b: Seq<(i64, Vec<DataPoint>)>) -> bool {
    &&& forall|i: int, j: int| 0 <= i < j < b.len() ==> (#[trigger] b[i]).0 < (#[trigger] b[j]).0
    &&& forall|i: int| 0 <= i < b.len() ==> (#[trigger] b[i]).1@.len() > 0
    &&& forall|i: int, k: int|
        0 <= i < b.len() && 0 <= k < b[i].1@.len() ==> (#[trigger] b[i].1@[k]).timestamp_ms
            == b[i].0
}

/// `p` splits the points at timestamp `ts`: those before it are no later
/// than `ts`, those from it on are later.
pub open spec fn split_at_time(points: Seq<DataPoint>, ts: i64, p: int) -> bool {
    &&& 0 <= p <= points.len()
    &&& forall|i: int| 0 <= i < p ==> (#[trigger] points[i]).timestamp_ms <= ts
    &&& forall|i: int| p <= i < points.len() ==> (#[trigger] points[i]).timestamp_ms > ts
}

/// The points after inserting `dp` at `p` and then dropping the oldest points
/// beyond `max`.
pub open spec fn capped_insert(points: Seq<DataPoint>, p: int, dp: DataPoint, max: usize) -> Seq<
    DataPoint,
> {
    let ins = points.insert(p, dp);
    if ins.len() > max {
        ins.skip(ins.len() - max)
    } else {
        ins
    }
}

/// `b` is the series with these points and unit after receiving `dp` with a cap of `max` points: the
/// unit is set if it was unset, `dp` goes after every point no later than it,
/// and then the oldest points beyond the cap are dropped.
pub open spec fn series_inserted(
    points: Seq<DataPoint>,
    unit: Option<StandardUnit>,
    b: MetricSeries,
    dp: DataPoint,
    max: usize,
) -> bool {
    &&& b.wf()
    &&& b.unit == if unit.is_none() {
        dp.unit
    } else {
        unit
    }
    &&& exists|p: int|
        split_at_time(points, dp.timestamp_ms, p) && b.points() == capped_insert(
            points,
            p,
            dp,
            max,
        )
}

proof fn lemma_flatten_append(a: Seq<(i64, Vec<DataPoint>)>, b: Seq<(i64, Vec<DataPoint>)>)
    ensures
        flatten_points(a + b) == flatten_points(a) + flatten_points(b),
    decreases b.len(),
{
    if b.len() == 0 {
        assert(a + b =~= a);
        assert(flatten_points(b) =~= Seq::<DataPoint>::empty());
        assert(flatten_points(a) + flatten_points(b) =~= flatten_points(a));
    } else {
        lemma_flatten_append(a, b.drop_last());
        assert((a + b).drop_last() =~= a + b.drop_last());
        assert((a + b).last() == b.last());
        assert(flatten_points(a) + flatten_points(b) =~= flatten_points(a) + flatten_points(
            b.drop_last(),
        ) + b.last().1@);
    }
}

proof fn lemma_flatten_single(g: (i64, Vec<DataPoint>))
    ensures
        flatten_points(seq![g]) == g.1@,
{
    let e = seq![g].drop_last();
    assert(e =~= Seq::<(i64, Vec<DataPoint>)>::empty());
    assert(flatten_points(e) =~= Seq::<DataPoint>::empty());
    assert(seq![g].last() == g);
    assert(flatten_points(seq![g]) == flatten_points(e) + g.1@);
    assert(flatten_points(e) + g.1@ =~= g.1@);
}

/// The points of the groups before `i`, of group `i`, and of the groups after it.
proof fn lemma_flatten_split(b: Seq<(i64, Vec<DataPoint>)>, i: int)
    requires
        0 <= i < b.len(),
    ensures
        flatten_points(b) == flatten_points(b.take(i)) + b[i].1@ + flatten_points(b.skip(i + 1)),
{
    assert(b =~= b.take(i) + seq![b[i]] + b.skip(i + 1));
    lemma_flatten_append(b.take(i) + seq![b[i]], b.skip(i + 1));
    lemma_flatten_append(b.take(i), seq![b[i]]);
    lemma_flatten_single(b[i]);
}

/// Every point of well-formed groups carries a timestamp of one of the groups,
/// so bounds on the group timestamps bound the point timestamps.
proof fn lemma_flatten_times(b: Seq<(i64, Vec<DataPoint>)>, lo: int, hi: int)
    requires
        groups_wf(b),
        forall|i: int| 0 <= i < b.len() ==> lo <= (#[trigger] b[i]).0 <= hi,
    ensures
        forall|k: int|
            0 <= k < flatten_points(b).len() ==> lo <= (#[trigger] flatten_points(b)[k]).timestamp_ms
                <= hi,
    decreases b.len(),
{
    if b.len() > 0 {
        let c = b.drop_last();
        assert forall|i: int, j: int| 0 <= i < j < c.len() implies (#[trigger] c[i]).0 < (
        #[trigger] c[j]).0 by {
            assert(c[i] == b[i] && c[j] == b[j]);
        }
        assert forall|i: int| 0 <= i < c.len() implies (#[trigger] c[i]).1@.len() > 0 by {
            assert(c[i] == b[i]);
        }
        assert forall|i: int, k: int| 0 <= i < c.len() && 0 <= k < c[i].1@.len() implies (
        #[trigger] c[i].1@[k]).timestamp_ms == c[i].0 by {
            assert(c[i] == b[i]);
        }
        assert forall|i: int| 0 <= i < c.len() implies lo <= (#[trigger] c[i]).0 <= hi by {
            assert(c[i] == b[i]);
        }
        lemma_flatten_times(c, lo, hi);
        let f = flatten_points(b);
        assert forall|k: int| 0 <= k < f.len() implies lo <= (#[trigger] f[k]).timestamp_ms
            <= hi by {
            let fc = flatten_points(c);
            if k < fc.len() {
                assert(f[k] == fc[k]);
            } else {
                assert(f[k] == b.last().1@[k - fc.len()]);
                assert(b[b.len() - 1] == b.last());
            }
        }
    }
}

/// Sub-ranges of well-formed groups are well formed.
proof fn lemma_groups_wf_subrange(b: Seq<(i64, Vec<DataPoint>)>, lo: int, hi: int)
    requires
        groups_wf(b),
        0 <= lo <= hi <= b.len(),
    ensures
        groups_wf(b.subrange(lo, hi)),
{
    let c = b.subrange(lo, hi);
    assert forall|i: int, j: int| 0 <= i < j < c.len() implies (#[trigger] c[i]).0 < (
    #[trigger] c[j]).0 by {
        assert(c[i] == b[lo + i] && c[j] == b[lo + j]);
    }
    assert forall|i: int| 0 <= i < c.len() implies (#[trigger] c[i]).1@.len() > 0 by {
        assert(c[i] == b[lo + i]);
    }
    assert forall|i: int, k: int| 0 <= i < c.len() && 0 <= k < c[i].1@.len() implies (
    #[trigger] c[i].1@[k]).timestamp_ms == c[i].0 by {
        assert(c[i] == b[lo + i]);
    }
}

/// Position of the first group whose timestamp is not before `ts`.
fn find_group(b: &Vec<(i64, Vec<DataPoint>)>, ts: i64) -> (i: usize)
    ensures
        i <= b@.len(),
        forall|k: int| 0 <= k < i ==> (#[trigger] b@[k]).0 < ts,
        i < b@.len() ==> b@[i as int].0 >= ts,
{
    let mut i: usize = 0;
    while i < b.len()
        invariant
            i <= b.len(),
            forall|k: int| 0 <= k < i ==> (#[trigger] b@[k]).0 < ts,
        decreases b.len() - i,
    {
        if b[i].0 >= ts {
            return i;
        }
        i = i + 1;
    }
    i
}

/// Every point of the groups before `i` is earlier than `ts`, and every point
/// of the groups from `j` on is later.
proof fn lemma_groups_around(b: Seq<(i64, Vec<DataPoint>)>, i: int, j: int, ts: i64)
    requires
        groups_wf(b),
        0 <= i <= j <= b.len(),
        forall|k: int| 0 <= k < i ==> (#[trigger] b[k]).0 < ts,
        j < b.len() ==> b[j].0 > ts,
    ensures
        forall|q: int|
            0 <= q < flatten_points(b.take(i)).len() ==> (#[trigger] flatten_points(
                b.take(i),
            )[q]).timestamp_ms < ts,
        forall|q: int|
            0 <= q < flatten_points(b.skip(j)).len() ==> (#[trigger] flatten_points(
                b.skip(j),
            )[q]).timestamp_ms > ts,
{
    lemma_groups_wf_subrange(b, 0, i);
    assert(b.subrange(0, i) =~= b.take(i));
    assert forall|k: int| 0 <= k < b.take(i).len() implies i64::MIN <= (#[trigger] b.take(
        i,
    )[k]).0 <= ts - 1 by {
        assert(b.take(i)[k] == b[k]);
    }
    lemma_flatten_times(b.take(i), i64::MIN as int, ts - 1);
    lemma_groups_wf_subrange(b, j, b.len() as int);
    assert(b.subrange(j, b.len() as int) =~= b.skip(j));
    assert forall|q: int| 0 <= q < b.skip(j).len() implies ts + 1 <= (#[trigger] b.skip(
        j,
    )[q]).0 <= i64::MAX by {
        assert(b.skip(j)[q] == b[j + q]);
        if q > 0 {
            assert(b[j].0 < b[j + q].0);
        }
    }
    lemma_flatten_times(b.skip(j), ts + 1, i64::MAX as int);
}

/// Pushing `dp` onto group `i` (whose timestamp is `dp`'s) inserts it after
/// every point no later than it.
proof fn lemma_push_into_group(
    b: Seq<(i64, Vec<DataPoint>)>,
    i: int,
    dp: DataPoint,
    c: Seq<(i64, Vec<DataPoint>)>,
    grown: Seq<DataPoint>,
)
    requires
        groups_wf(b),
        0 <= i < b.len(),
        b[i].0 == dp.timestamp_ms,
        forall|k: int| 0 <= k < i ==> (#[trigger] b[k]).0 < dp.timestamp_ms,
        grown == b[i].1@.push(dp),
        c.len() == b.len(),
        c[i].0 == b[i].0,
        c[i].1@ == grown,
        forall|k: int| 0 <= k < b.len() && k != i ==> #[trigger] c[k] == b[k],
    ensures
        groups_wf(c),
        exists|p: int|
            split_at_time(flatten_points(b), dp.timestamp_ms, p) && flatten_points(c)
                == flatten_points(b).insert(p, dp),
{
    let ts = dp.timestamp_ms;
    let g = b[i].1@;
    lemma_flatten_split(b, i);
    lemma_flatten_split(c, i);
    assert(c.take(i) =~= b.take(i));
    assert(c.skip(i + 1) =~= b.skip(i + 1));
    lemma_groups_around(b, i, i + 1, ts);
    let f1 = flatten_points(b.take(i));
    let f2 = flatten_points(b.skip(i + 1));
    let p: int = (f1.len() + g.len()) as int;
    let pts = f1 + g + f2;
    assert(flatten_points(c) =~= pts.insert(p, dp));
    assert forall|q: int| 0 <= q < p implies (#[trigger] pts[q]).timestamp_ms <= ts by {
        if q < f1.len() {
            assert(pts[q] == f1[q]);
        } else {
            assert(pts[q] == g[q - f1.len()]);
        }
    }
    assert forall|q: int| p <= q < pts.len() implies (#[trigger] pts[q]).timestamp_ms > ts by {
        assert(pts[q] == f2[q - p]);
    }
    assert(split_at_time(flatten_points(b), ts, p));
    assert forall|x: int, y: int| 0 <= x < y < c.len() implies (#[trigger] c[x]).0 < (
    #[trigger] c[y]).0 by {
        assert(c[x].0 == b[x].0 && c[y].0 == b[y].0);
    }
    assert forall|x: int| 0 <= x < c.len() implies (#[trigger] c[x]).1@.len() > 0 by {
        if x != i {
            assert(c[x] == b[x]);
        }
    }
    assert forall|x: int, q: int| 0 <= x < c.len() && 0 <= q < c[x].1@.len() implies (
    #[trigger] c[x].1@[q]).timestamp_ms == c[x].0 by {
        if x != i {
            assert(c[x] == b[x]);
        } else if q < g.len() {
            assert(c[x].1@[q] == g[q]);
        }
    }
}

/// Inserting a new group `(ts, [dp])` at `i`, where the groups before are
/// earlier and the one at `i` (if any) later, inserts `dp` after every point
/// no later than it.
proof fn lemma_new_group(
    b: Seq<(i64, Vec<DataPoint>)>,
    i: int,
    dp: DataPoint,
    c: Seq<(i64, Vec<DataPoint>)>,
)
    requires
        groups_wf(b),
        0 <= i <= b.len(),
        forall|k: int| 0 <= k < i ==> (#[trigger] b[k]).0 < dp.timestamp_ms,
        i < b.len() ==> b[i].0 > dp.timestamp_ms,
        c.len() == b.len() + 1,
        c[i].0 == dp.timestamp_ms,
        c[i].1@ == seq![dp],
        forall|k: int| 0 <= k < i ==> #[trigger] c[k] == b[k],
        forall|k: int| i < k < c.len() ==> #[trigger] c[k] == b[k - 1],
    ensures
        groups_wf(c),
        exists|p: int|
            split_at_time(flatten_points(b), dp.timestamp_ms, p) && flatten_points(c)
                == flatten_points(b).insert(p, dp),
{
    let ts = dp.timestamp_ms;
    let cg = c[i];
    assert(c =~= b.take(i) + seq![cg] + b.skip(i));
    lemma_flatten_append(b.take(i) + seq![cg], b.skip(i));
    lemma_flatten_append(b.take(i), seq![cg]);
    lemma_flatten_single(cg);
    assert(b =~= b.take(i) + b.skip(i));
    lemma_flatten_append(b.take(i), b.skip(i));
    lemma_groups_around(b, i, i, ts);
    let f1 = flatten_points(b.take(i));
    let f2 = flatten_points(b.skip(i));
    let p: int = f1.len() as int;
    let pts = f1 + f2;
    assert(flatten_points(c) =~= pts.insert(p, dp));
    assert forall|q: int| 0 <= q < p implies (#[trigger] pts[q]).timestamp_ms <= ts by {
        assert(pts[q] == f1[q]);
    }
    assert forall|q: int| p <= q < pts.len() implies (#[trigger] pts[q]).timestamp_ms > ts by {
        assert(pts[q] == f2[q - p]);
    }
    assert(split_at_time(flatten_points(b), ts, p));
    assert forall|x: int, y: int| 0 <= x < y < c.len() implies (#[trigger] c[x]).0 < (
    #[trigger] c[y]).0 by {
        if y > i && x > i {
            assert(c[x] == b[x - 1] && c[y] == b[y - 1]);
        } else if y > i && x == i {
            assert(c[y] == b[y - 1]);
            if y - 1 > i {
                assert(b[i].0 < b[y - 1].0);
            }
        } else if y > i {
            assert(c[x] == b[x] && c[y] == b[y - 1]);
        } else if y == i {
            assert(c[x] == b[x]);
        } else {
            assert(c[x] == b[x] && c[y] == b[y]);
        }
    }
    assert forall|x: int| 0 <= x < c.len() implies (#[trigger] c[x]).1@.len() > 0 by {
        if x < i {
            assert(c[x] == b[x]);
        } else if x > i {
            assert(c[x] == b[x - 1]);
        }
    }
    assert forall|x: int, q: int| 0 <= x < c.len() && 0 <= q < c[x].1@.len() implies (
    #[trigger] c[x].1@[q]).timestamp_ms == c[x].0 by {
        if x < i {
            assert(c[x] == b[x]);
        } else if x > i {
            assert(c[x] == b[x - 1]);
        }
    }
}

impl MetricSeries {
    /// The series' invariant: its groups are well formed.
    pub open spec fn wf(&self) -> bool {
        groups_wf(self.data_points@)
    }

    /// All points of the series, oldest timestamp first.
    pub open spec fn points(&self) -> Seq<DataPoint> {
        flatten_points(self.data_points@)
    }

    /// A new empty series.
    pub fn new() -> (r: Self)
        ensures
            r.wf(),
            r.points().len() == 0,
            r.unit.is_none(),
    {
        MetricSeries { data_points: Vec::new(), unit: None }
    }

    /// Adds a point after every point no later than it.
    fn add_point(&mut self, dp: DataPoint)
        requires
            old(self).wf(),
        ensures
            final(self).wf(),
            final(self).unit == old(self).unit,
            exists|p: int|
                split_at_time(old(self).points(), dp.timestamp_ms, p) && final(self).points()
                    == old(self).points().insert(p, dp),
    {
        let ghost b = self.data_points@;
        let ts = dp.timestamp_ms;
        let i = find_group(&self.data_points, ts);
        if i < self.data_points.len() && self.data_points[i].0 == ts {
            let (k, mut group) = self.data_points.remove(i);
            let ghost g = group@;
            group.push(dp);
            self.data_points.insert(i, (k, group));
            proof {
                assert(self.data_points@ =~= b.update(i as int, (k, group)));
                lemma_push_into_group(b, i as int, dp, self.data_points@, group@);
                let p = choose|p: int|
                    split_at_time(flatten_points(b), dp.timestamp_ms, p) && flatten_points(
                        self.data_points@,
                    ) == flatten_points(b).insert(p, dp);
                assert(split_at_time(old(self).points(), dp.timestamp_ms, p));
                assert(self.points() == old(self).points().insert(p, dp));
            }
        } else {
            let mut group: Vec<DataPoint> = Vec::new();
            group.push(dp);
            self.data_points.insert(i, (ts, group));
            proof {
                assert(group@ =~= seq![dp]);
                lemma_new_group(b, i as int, dp, self.data_points@);
                let p = choose|p: int|
                    split_at_time(flatten_points(b), dp.timestamp_ms, p) && flatten_points(
                        self.data_points@,
                    ) == flatten_points(b).insert(p, dp);
                assert(split_at_time(old(self).points(), dp.timestamp_ms, p));
                assert(self.points() == old(self).points().insert(p, dp));
            }
        }
    }

    /// Drops the oldest point.
    fn drop_oldest(&mut self)
        requires
            old(self).wf(),
            old(self).points().len() > 0,
        ensures
            final(self).wf(),
            final(self).unit == old(self).unit,
            final(self).points() == old(self).points().drop_first(),
    {
        let ghost b = self.data_points@;
        if self.data_points.len() == 0 {
            assert(flatten_points(b) =~= Seq::<DataPoint>::empty());
            return;
        }
        proof {
            lemma_flatten_split(b, 0);
            assert(flatten_points(b.take(0)) =~= Seq::<DataPoint>::empty());
        }
        let (k, mut group) = self.data_points.remove(0);
        if group.len() <= 1 {
            proof {
                assert(self.data_points@ =~= b.skip(1));
                lemma_groups_wf_subrange(b, 1, b.len() as int);
                assert(b.subrange(1, b.len() as int) =~= b.skip(1));
                assert(self.points() =~= old(self).points().drop_first());
            }
        } else {
            let ghost g = group@;
            group.remove(0);
            self.data_points.insert(0, (k, group));
            proof {
                let c = self.data_points@;
                assert(c =~= seq![(k, group)] + b.skip(1));
                lemma_flatten_append(seq![(k, group)], b.skip(1));
                lemma_flatten_single((k, group));
                assert(self.points() =~= old(self).points().drop_first());
                assert forall|x: int, y: int| 0 <= x < y < c.len() implies (#[trigger] c[x]).0 < (
                #[trigger] c[y]).0 by {
                    assert(c[x].0 == b[x].0 && c[y].0 == b[y].0);
                }
                assert forall|x: int| 0 <= x < c.len() implies (#[trigger] c[x]).1@.len() > 0 by {
                    if x > 0 {
                        assert(c[x] == b[x]);
                    }
                }
                assert forall|x: int, q: int| 0 <= x < c.len() && 0 <= q < c[x].1@.len() implies (
                #[trigger] c[x].1@[q]).timestamp_ms == c[x].0 by {
                    if x > 0 {
                        assert(c[x] == b[x]);
                    } else {
                        assert(c[x].1@[q] == g[q + 1]);
                        assert(b[0].1@ == g);
                    }
                }
            }
        }
    }

    /// Whether the series holds more than `max` points.
    fn exceeds(&self, max: usize) -> (r: bool)
        ensures
            r == (self.points().len() > max),
    {
        let mut acc: u128 = 0;
        let mut i: usize = 0;
        while i < self.data_points.len()
            invariant
                i <= self.data_points.len(),
                acc == flatten_points(self.data_points@.take(i as int)).len(),
                acc <= max,
            decreases self.data_points.len() - i,
        {
            let n = self.data_points[i].1.len();
            proof {
                assert(self.data_points@.take(i + 1).drop_last() =~= self.data_points@.take(i as int));
                assert(self.data_points@.take(i + 1).last() == self.data_points@[i as int]);
            }
            assert(flatten_points(self.data_points@.take(i + 1)) == flatten_points(self.data_points@.take(i as int)) + self.data_points@[i as int].1@);
            acc = acc + n as u128;
            if acc > max as u128 {
                proof {
                    assert(self.data_points@ =~= self.data_points@.take(i + 1) + self.data_points@.skip(i + 1));
                    lemma_flatten_append(self.data_points@.take(i + 1), self.data_points@.skip(i + 1));
                    assert(flatten_points(self.data_points@) == flatten_points(self.data_points@.take(i + 1)) + flatten_points(
                        self.data_points@.skip(i + 1),
                    ));
                    assert(self.points() == flatten_points(self.data_points@));
                }
                return true;
            }
            i = i + 1;
        }
        assert(self.data_points@.take(self.data_points.len() as int) =~= self.data_points@);
        false
    }

    /// Receives a data point: sets the unit if it was unset, adds the point
    /// after every point no later than it, and drops the oldest points beyond
    /// `max`.
    pub fn insert_capped(&mut self, data_point: DataPoint, max: usize)
        requires
            old(self).wf(),
        ensures
            series_inserted(old(self).points(), old(self).unit, *final(self), data_point, max),
    {
        let ghost dp = data_point;
        if self.unit.is_none() {
            self.unit = data_point.unit;
        }
        self.add_point(data_point);
        let ghost ins = self.points();
        let ghost p = choose|p: int|
            split_at_time(old(self).points(), dp.timestamp_ms, p) && ins == old(
                self,
            ).points().insert(p, dp);
        let ghost mut dropped: int = 0;
        while self.exceeds(max)
            invariant
                self.wf(),
                self.unit == (if old(self).unit.is_none() {
                    dp.unit
                } else {
                    old(self).unit
                }),
                0 <= dropped <= ins.len(),
                self.points() == ins.skip(dropped),
                ins.len() > max ==> dropped <= ins.len() - max,
                ins.len() <= max ==> dropped == 0,
            decreases self.points().len(),
        {
            self.drop_oldest();
            proof {
                assert(ins.skip(dropped).drop_first() =~= ins.skip(dropped + 1));
                dropped = dropped + 1;
            }
        }
        proof {
            assert(ins.skip(0) =~= ins);
            assert(self.points() == capped_insert(old(self).points(), p, dp, max));
        }
    }
}

// ---------------------------------------------------------------------------
// The metric store
// ---------------------------------------------------------------------------

/// Whether two metric keys have the same text.
pub fn same_key(a: &MetricKey, b: &MetricKey) -> (r: bool)
    ensures
        r == (key_view(*a) == key_view(*b)),
{
    if !str_eq(a.namespace.as_str(), b.namespace.as_str()) {
        return false;
    }
    if !str_eq(a.metric_name.as_str(), b.metric_name.as_str()) {
        return false;
    }
    let ghost da = a.dimensions@.map_values(|d: Dimension| dimension_view(d));
    let ghost db = b.dimensions@.map_values(|d: Dimension| dimension_view(d));
    if a.dimensions.len() != b.dimensions.len() {
        assert(da.len() != db.len());
        return false;
    }
    let mut i: usize = 0;
    while i < a.dimensions.len()
        invariant
            i <= a.dimensions.len(),
            a.dimensions.len() == b.dimensions.len(),
            da == a.dimensions@.map_values(|d: Dimension| dimension_view(d)),
            db == b.dimensions@.map_values(|d: Dimension| dimension_view(d)),
            forall|k: int| 0 <= k < i ==> da[k] == db[k],
        decreases a.dimensions.len() - i,
    {
        let x = &a.dimensions[i];
        let y = &b.dimensions[i];
        if !str_eq(x.name.as_str(), y.name.as_str()) || !str_eq(x.value.as_str(), y.value.as_str()) {
            assert(da[i as int] != db[i as int]);
            return false;
        }
        i = i + 1;
    }
    assert(da =~= db);
    true
}

/// A copy of a dimension.
pub fn copy_dimension(d: &Dimension) -> (r: Dimension)
    ensures
        r == *d,
{
    Dimension { name: d.name.clone(), value: d.value.clone() }
}

/// A copy of a metric key.
pub fn copy_key(k: &MetricKey) -> (r: MetricKey)
    ensures
        r.namespace == k.namespace,
        r.metric_name == k.metric_name,
        r.dimensions@ == k.dimensions@,
        key_view(r) == key_view(*k),
{
    let mut dims: Vec<Dimension> = Vec::new();
    let mut i: usize = 0;
    while i < k.dimensions.len()
        invariant
            i <= k.dimensions.len(),
            dims@ == k.dimensions@.take(i as int),
        decreases k.dimensions.len() - i,
    {
        dims.push(copy_dimension(&k.dimensions[i]));
        assert(k.dimensions@.take(i + 1) =~= k.dimensions@.take(i as int).push(
            k.dimensions@[i as int],
        ));
        i = i + 1;
    }
    assert(k.dimensions@.take(k.dimensions.len() as int) =~= k.dimensions@);
    MetricKey {
        namespace: k.namespace.clone(),
        metric_name: k.metric_name.clone(),
        dimensions: dims,
    }
}

/// Selects the entry whose key has the given text.
pub open spec fn keyed(
    kv: (Seq<char>, Seq<char>, Seq<(Seq<char>, Seq<char>)>),
) -> spec_fn((MetricKey, MetricSeries)) -> bool {
    |e: (MetricKey, MetricSeries)| key_view(e.0) == kv
}

/// Position of the entry whose key has the given text (or the count of entries).
pub open spec fn key_index(
    s: Seq<(MetricKey, MetricSeries)>,
    kv: (Seq<char>, Seq<char>, Seq<(Seq<char>, Seq<char>)>),
) -> int {
    first_index(s, keyed(kv)) as int
}

/// Keys are unique (by text) and every series is well formed.
pub open spec fn entries_wf(s: Seq<(MetricKey, MetricSeries)>) -> bool {
    &&& forall|i: int, j: int|
        0 <= i < j < s.len() ==> key_view((#[trigger] s[i]).0) != key_view((#[trigger] s[j]).0)
    &&& forall|i: int| 0 <= i < s.len() ==> (#[trigger] s[i]).1.wf()
}

/// Top-level metric store: one series per distinct key, in order of first use.
#[derive(Debug)]
pub struct MetricStore {
    series: Vec<(MetricKey, MetricSeries)>,
    max_points_per_series: usize,
}

impl View for MetricStore {
    type V = Seq<(MetricKey, MetricSeries)>;

    closed spec fn view(&self) -> Seq<(MetricKey, MetricSeries)> {
        self.series@
    }
}

impl MetricStore {
    /// The store's invariant.
    pub open spec fn wf(&self) -> bool {
        entries_wf(self@)
    }

    /// The cap on points per series.
    pub closed spec fn max_points(&self) -> usize {
        self.max_points_per_series
    }

    /// Create a new metric store.
    pub fn new(max_points_per_series: usize) -> (r: Self)
        ensures
            r.wf(),
            r@.len() == 0,
            r.max_points() == max_points_per_series,
    {
        MetricStore { series: Vec::new(), max_points_per_series }
    }

    fn find(&self, key: &MetricKey) -> (r: usize)
        ensures
            r == key_index(self@, key_view(*key)),
            r <= self@.len(),
    {
        let ghost pred = keyed(key_view(*key));
        let mut i: usize = 0;
        while i < self.series.len()
            invariant
                i <= self.series.len(),
                pred == keyed(key_view(*key)),
                forall|k: int| 0 <= k < i ==> !pred(#[trigger] self.series@[k]),
            decreases self.series.len() - i,
        {
            if same_key(&self.series[i].0, key) {
                proof {
                    lemma_first_index_is(self.series@, pred, i as int);
                }
                return i;
            }
            i = i + 1;
        }
        proof {
            lemma_first_index_is(self.series@, pred, i as int);
        }
        i
    }

    /// Insert a data point into the series of `key` (created empty if the key
    /// is new); the series keeps at most `max_points_per_series` points,
    /// dropping the oldest.
    pub fn insert(&mut self, key: MetricKey, data_point: DataPoint)
        requires
            old(self).wf(),
        ensures
            final(self).wf(),
            final(self).max_points() == old(self).max_points(),
            ({
                let o = old(self)@;
                let f = final(self)@;
                let k = key_index(o, key_view(key));
                if k < o.len() {
                    &&& f.len() == o.len()
                    &&& forall|i: int| 0 <= i < o.len() && i != k ==> f[i] == o[i]
                    &&& f[k].0 == o[k].0
                    &&& series_inserted(
                        o[k].1.points(),
                        o[k].1.unit,
                        f[k].1,
                        data_point,
                        old(self).max_points(),
                    )
                } else {
                    &&& f.len() == o.len() + 1
                    &&& forall|i: int| 0 <= i < o.len() ==> f[i] == o[i]
                    &&& f[k].0 == key
                    &&& series_inserted(
                        Seq::<DataPoint>::empty(),
                        None,
                        f[k].1,
                        data_point,
                        old(self).max_points(),
                    )
                }
            }),
    {
        let k = self.find(&key);
        let ghost o = self@;
        proof {
            lemma_first_index_props(o, keyed(key_view(key)));
        }
        if k < self.series.len() {
            let (kk, mut series) = self.series.remove(k);
            proof {
                assert(series == o[k as int].1);
                assert(o[k as int].1.wf());
            }
            series.insert_capped(data_point, self.max_points_per_series);
            self.series.insert(k, (kk, series));
            proof {
                let f = self@;
                assert(f =~= o.update(k as int, (kk, series)));
                assert forall|i: int, j: int| 0 <= i < j < f.len() implies key_view(
                    (#[trigger] f[i]).0,
                ) != key_view((#[trigger] f[j]).0) by {
                    assert(f[i].0 == o[i].0 && f[j].0 == o[j].0);
                }
                assert forall|i: int| 0 <= i < f.len() implies (#[trigger] f[i]).1.wf() by {
                    if i != k {
                        assert(f[i] == o[i]);
                    }
                }
            }
        } else {
            let mut series = MetricSeries::new();
            let ghost empty = series;
            series.insert_capped(data_point, self.max_points_per_series);
            self.series.push((key, series));
            proof {
                let f = self@;
                assert(empty.data_points@ =~= Seq::<(i64, Vec<DataPoint>)>::empty());
                assert forall|i: int, j: int| 0 <= i < j < f.len() implies key_view(
                    (#[trigger] f[i]).0,
                ) != key_view((#[trigger] f[j]).0) by {
                    if j == o.len() {
                        assert(!keyed(key_view(key))(o[i]));
                    } else {
                        assert(f[i] == o[i] && f[j] == o[j]);
                    }
                }
                assert forall|i: int| 0 <= i < f.len() implies (#[trigger] f[i]).1.wf() by {
                    if i < o.len() {
                        assert(f[i] == o[i]);
                    }
                }
            }
        }
    }

    /// The series of a key, if any.
    pub fn get(&self, key: &MetricKey) -> (r: Option<&MetricSeries>)
        ensures
            match r {
                Some(s) => key_index(self@, key_view(*key)) < self@.len() && *s == self@[key_index(
                    self@,
                    key_view(*key),
                )].1,
                None => key_index(self@, key_view(*key)) == self@.len(),
            },
    {
        let k = self.find(key);
        if k < self.series.len() {
            Some(&self.series[k].1)
        } else {
            None
        }
    }

    /// All metric keys in the store, in order of first use.
    pub fn keys(&self) -> (r: Vec<MetricKey>)
        ensures
            r@.len() == self@.len(),
            forall|i: int| 0 <= i < r@.len() ==> key_view(#[trigger] r@[i]) == key_view(self@[i].0),
    {
        let mut out: Vec<MetricKey> = Vec::new();
        let mut i: usize = 0;
        while i < self.series.len()
            invariant
                i <= self.series.len(),
                out@.len() == i,
                forall|k: int| 0 <= k < i ==> key_view(#[trigger] out@[k]) == key_view(
                    self.series@[k].0,
                ),
            decreases self.series.len() - i,
        {
            out.push(copy_key(&self.series[i].0));
            i = i + 1;
        }
        out
    }

    /// The number of distinct metric series.
    pub fn len(&self) -> (r: usize)
        ensures
            r == self@.len(),
    {
        self.series.len()
    }

    /// Whether the store holds no series.
    pub fn is_empty(&self) -> (r: bool)
        ensures
            r == (self@.len() == 0),
    {
        self.series.len() == 0
    }
}

/// After receiving a point, a series holds one point more than before, or
/// the cap's worth of points when that would exceed the cap.
pub proof fn lemma_series_capped(
    points: Seq<DataPoint>,
    unit: Option<StandardUnit>,
    b: MetricSeries,
    dp: DataPoint,
    max: usize,
)
    requires
        series_inserted(points, unit, b, dp, max),
    ensures
        b.points().len() == if points.len() + 1 > max {
            max as int
        } else {
            points.len() + 1 as int
        },
{
    let p = choose|p: int|
        split_at_time(points, dp.timestamp_ms, p) && b.points() == capped_insert(
            points,
            p,
            dp,
            max,
        );
}

/// While a series is under its cap, receiving a point keeps every earlier
/// point and adds the new one, placed after every point no later than it and
/// before every later one; the unit is the point's when none was set.
pub proof fn lemma_series_keeps_points(
    points: Seq<DataPoint>,
    unit: Option<StandardUnit>,
    b: MetricSeries,
    dp: DataPoint,
    max: usize,
)
    requires
        series_inserted(points, unit, b, dp, max),
        points.len() < max,
    ensures
        b.points().len() == points.len() + 1,
        b.points().contains(dp),
        forall|i: int| 0 <= i < points.len() ==> b.points().contains(#[trigger] points[i]),
        exists|p: int|
            0 <= p <= points.len() && b.points()[p] == dp && (forall|i: int|
                0 <= i < p ==> (#[trigger] b.points()[i]).timestamp_ms <= dp.timestamp_ms) && (
            forall|i: int| p < i < b.points().len() ==> (#[trigger] b.points()[i]).timestamp_ms
                > dp.timestamp_ms),
        unit is None ==> b.unit == dp.unit,
        unit is Some ==> b.unit == unit,
{
    let p = choose|p: int|
        split_at_time(points, dp.timestamp_ms, p) && b.points() == capped_insert(
            points,
            p,
            dp,
            max,
        );
    let ins = points.insert(p, dp);
    assert(b.points() == ins);
    assert(ins[p] == dp);
    assert forall|i: int| 0 <= i < points.len() implies b.points().contains(#[trigger] points[i]) by {
        if i < p {
            assert(ins[i] == points[i]);
        } else {
            assert(ins[i + 1] == points[i]);
        }
    }
    assert forall|i: int| 0 <= i < p implies (#[trigger] b.points()[i]).timestamp_ms
        <= dp.timestamp_ms by {
        assert(ins[i] == points[i]);
    }
    assert forall|i: int| p < i < b.points().len() implies (#[trigger] b.points()[i]).timestamp_ms
        > dp.timestamp_ms by {
        assert(ins[i] == points[i - 1]);
    }
}

} // verus!
