//! Name-keyed stores of CloudWatch dashboards and insight rules, each held in
//! a concurrent hash map of the `dashmap` crate.

use vstd::prelude::*;
use crate::cloudwatch_model::InsightRule;
use crate::text::{starts_with_chars, str_chars};

verus! {

/// A value stored under a name.
pub trait Named: Sized {
    /// The name the value is stored under.
    spec fn name_view(&self) -> Seq<char>;

    /// The name the value is stored under.
    fn name(&self) -> (r: &str)
        ensures
            r@ == self.name_view(),
    ;

    /// A copy of the value.
    fn duplicate(&self) -> (r: Self)
        ensures
            r == *self,
    ;
}

/// Whether a name is one of the given strings.
pub open spec fn mentioned(names: Seq<String>, name: Seq<char>) -> bool {
    exists|i: int| 0 <= i < names.len() && (#[trigger] names[i])@ == name
}

/// The map after removing the given names, one after another.
pub open spec fn without_names<V>(m: Map<Seq<char>, V>, names: Seq<String>) -> Map<Seq<char>, V>
    decreases names.len(),
{
    if names.len() == 0 {
        m
    } else {
        without_names(m, names.drop_last()).remove(names.last()@)
    }
}

/// The names that still named an entry when their turn came: each name of
/// `m` among `names`, once, in order of first mention.
pub open spec fn deleted_names<V>(m: Map<Seq<char>, V>, names: Seq<String>) -> Seq<Seq<char>>
    decreases names.len(),
{
    if names.len() == 0 {
        Seq::<Seq<char>>::empty()
    } else {
        let p = names.drop_last();
        if without_names(m, p).contains_key(names.last()@) {
            deleted_names(m, p).push(names.last()@)
        } else {
            deleted_names(m, p)
        }
    }
}

/// Every entry is kept under its own name.
pub open spec fn keyed_by_name<V: Named>(m: Map<Seq<char>, V>) -> bool {
    forall|k: Seq<char>| #[trigger] m.contains_key(k) ==> m[k].name_view() == k
}

/// `pairs` holds every entry of `m` once, key with value, in some order.
pub open spec fn entries_of<V>(pairs: Seq<(String, V)>, m: Map<Seq<char>, V>) -> bool {
    &&& forall|i: int|
        0 <= i < pairs.len() ==> m.contains_key((#[trigger] pairs[i]).0@) && m[pairs[i].0@]
            == pairs[i].1
    &&& forall|k: Seq<char>|
        #[trigger] m.contains_key(k) ==> exists|i: int|
            0 <= i < pairs.len() && (#[trigger] pairs[i]).0@ == k
    &&& forall|i: int, j: int|
        0 <= i < j < pairs.len() ==> (#[trigger] pairs[i]).0@ != (#[trigger] pairs[j]).0@
}

/// The prefix's characters, if there is one.
pub open spec fn prefix_view(prefix: Option<&str>) -> Option<Seq<char>> {
    match prefix {
        Some(p) => Some(p@),
        None => None,
    }
}

/// Whether a name begins with the prefix (every name does when there is none).
pub open spec fn name_has_prefix(prefix: Option<Seq<char>>, n: Seq<char>) -> bool {
    match prefix {
        None => true,
        Some(p) => p.len() <= n.len() && n.take(p.len() as int) == p,
    }
}

/// `r` holds, once each and in some order, the entries of `m` whose name
/// begins with the prefix.
pub open spec fn lists_entries<V: Named>(
    r: Seq<V>,
    m: Map<Seq<char>, V>,
    prefix: Option<Seq<char>>,
) -> bool {
    &&& forall|i: int|
        0 <= i < r.len() ==> m.contains_key((#[trigger] r[i]).name_view()) && m[r[i].name_view()]
            == r[i] && name_has_prefix(prefix, r[i].name_view())
    &&& forall|k: Seq<char>|
        #[trigger] m.contains_key(k) && name_has_prefix(prefix, k) ==> exists|i: int|
            0 <= i < r.len() && (#[trigger] r[i]).name_view() == k
    &&& forall|i: int, j: int|
        0 <= i < j < r.len() ==> (#[trigger] r[i]).name_view() != (#[trigger] r[j]).name_view()
}

/// What removing names one after another leaves: exactly the entries whose
/// name was not mentioned, with their values unchanged.
pub proof fn lemma_without_names<V>(m: Map<Seq<char>, V>, names: Seq<String>, k: Seq<char>)
    ensures
        without_names(m, names).contains_key(k) == (m.contains_key(k) && !mentioned(names, k)),
        without_names(m, names).contains_key(k) ==> without_names(m, names)[k] == m[k],
    decreases names.len(),
{
    if names.len() > 0 {
        let p = names.drop_last();
        lemma_without_names(m, p, k);
        if mentioned(names, k) {
            let i = choose|i: int| 0 <= i < names.len() && (#[trigger] names[i])@ == k;
            if i < names.len() - 1 {
                assert(p[i] == names[i]);
            }
        }
        if mentioned(p, k) {
            let i = choose|i: int| 0 <= i < p.len() && (#[trigger] p[i])@ == k;
            assert(names[i] == p[i]);
        }
        if names.last()@ == k {
            assert(names[names.len() - 1]@ == k);
        }
    }
}

/// Storing a value under its name: that name then gives the value back, and
/// every other name gives what it gave before.
pub proof fn lemma_put_then_get<V: Named>(m: Map<Seq<char>, V>, item: V, other: Seq<char>)
    ensures
        m.insert(item.name_view(), item).contains_key(item.name_view()),
        m.insert(item.name_view(), item)[item.name_view()] == item,
        other != item.name_view() ==> (m.insert(item.name_view(), item).contains_key(other)
            == m.contains_key(other) && m.insert(item.name_view(), item)[other] == m[other]),
{
}

/// Picks, from a map's entries, the values whose name begins with the prefix.
fn select_entries<V: Named>(
    pairs: &Vec<(String, V)>,
    m: Ghost<Map<Seq<char>, V>>,
    prefix: Option<&str>,
) -> (r: Vec<V>)
    requires
        entries_of(pairs@, m@),
        keyed_by_name(m@),
    ensures
        lists_entries(r@, m@, prefix_view(prefix)),
{
    let ghost pv = prefix_view(prefix);
    let pchars: Option<Vec<char>> = match prefix {
        Some(p) => Some(str_chars(p)),
        None => None,
    };
    let mut out: Vec<V> = Vec::new();
    let ghost mut idx: Seq<int> = Seq::empty();
    let mut i: usize = 0;
    while i < pairs.len()
        invariant
            i <= pairs.len(),
            pv == prefix_view(prefix),
            entries_of(pairs@, m@),
            keyed_by_name(m@),
            match prefix {
                Some(p) => pchars matches Some(pc) && pc@ == p@,
                None => pchars.is_none(),
            },
            idx.len() == out@.len(),
            forall|q: int|
                0 <= q < idx.len() ==> 0 <= #[trigger] idx[q] < i && out@[q] == pairs@[idx[q]].1
                    && name_has_prefix(pv, pairs@[idx[q]].0@),
            forall|q1: int, q2: int|
                0 <= q1 < q2 < idx.len() ==> #[trigger] idx[q1] < #[trigger] idx[q2],
            forall|j: int|
                0 <= j < i && name_has_prefix(pv, (#[trigger] pairs@[j]).0@) ==> exists|q: int|
                    0 <= q < idx.len() && idx[q] == j,
        decreases pairs.len() - i,
    {
        let keep = match &pchars {
            None => true,
            Some(pc) => {
                let kc = str_chars(pairs[i].0.as_str());
                starts_with_chars(&kc, pc)
            },
        };
        assert(keep == name_has_prefix(pv, pairs@[i as int].0@));
        let ghost old_idx = idx;
        if keep {
            out.push(pairs[i].1.duplicate());
            proof {
                idx = idx.push(i as int);
                assert(idx[old_idx.len() as int] == i);
                assert forall|j: int|
                    0 <= j < i + 1 && name_has_prefix(pv, (#[trigger] pairs@[j]).0@) implies exists|
                    q: int,
                | 0 <= q < idx.len() && idx[q] == j by {
                    if j < i {
                        let q = choose|q: int| 0 <= q < old_idx.len() && old_idx[q] == j;
                        assert(idx[q] == old_idx[q]);
                    } else {
                        assert(idx[old_idx.len() as int] == j);
                    }
                }
            }
        }
        i = i + 1;
    }
    proof {
        assert forall|q: int| 0 <= q < out@.len() implies m@.contains_key(
            (#[trigger] out@[q]).name_view(),
        ) && m@[out@[q].name_view()] == out@[q] && name_has_prefix(pv, out@[q].name_view()) by {
            let j = idx[q];
            assert(m@.contains_key(pairs@[j].0@));
        }
        assert forall|k: Seq<char>| #[trigger]
            m@.contains_key(k) && name_has_prefix(pv, k) implies exists|q: int|
            0 <= q < out@.len() && (#[trigger] out@[q]).name_view() == k by {
            let j = choose|j: int| 0 <= j < pairs@.len() && (#[trigger] pairs@[j]).0@ == k;
            let q = choose|q: int| 0 <= q < idx.len() && idx[q] == j;
            assert(m@.contains_key(pairs@[j].0@));
            assert(out@[q].name_view() == k);
        }
        assert forall|q1: int, q2: int| 0 <= q1 < q2 < out@.len() implies (
        #[trigger] out@[q1]).name_view() != (#[trigger] out@[q2]).name_view() by {
            let j1 = idx[q1];
            let j2 = idx[q2];
            assert(j1 < j2);
            assert(m@.contains_key(pairs@[j1].0@));
            assert(m@.contains_key(pairs@[j2].0@));
        }
    }
    out
}

// ---------------------------------------------------------------------------
// Dashboards
// ---------------------------------------------------------------------------

/// A stored dashboard.
#[derive(Debug, Clone)]
pub struct DashboardRecord {
    /// Dashboard name.
    pub dashboard_name: String,
    /// Dashboard ARN.
    pub dashboard_arn: String,
    /// Dashboard body (JSON string).
    pub dashboard_body: String,
    /// Last modified timestamp (epoch seconds), as the bit pattern of an `f64`.
    pub last_modified: u64,
    /// Size in bytes.
    pub size: i64,
}

impl Named for DashboardRecord {
    open spec fn name_view(&self) -> Seq<char> {
        self.dashboard_name@
    }

    fn name(&self) -> (r: &str) {
        self.dashboard_name.as_str()
    }

    fn duplicate(&self) -> (r: Self) {
        DashboardRecord {
            dashboard_name: self.dashboard_name.clone(),
            dashboard_arn: self.dashboard_arn.clone(),
            dashboard_body: self.dashboard_body.clone(),
            last_modified: self.last_modified,
            size: self.size,
        }
    }
}

/// What a map of dashboards holds: each dashboard by the name it is kept under.
pub uninterp spec fn dashboards_held(m: dashmap::DashMap<String, DashboardRecord>) -> Map<Seq<char>, DashboardRecord>;

/// No dashboards at all.
pub open spec fn no_dashboards() -> Map<Seq<char>, DashboardRecord> {
    Map::empty()
}

/// A new, empty map of dashboards.
///
/// Trusted: `dashmap::DashMap::new`, which makes an empty map.
#[verifier::external_body]
fn dashboards_new() -> (r: dashmap::DashMap<String, DashboardRecord>)
    ensures
        dashboards_held(r) == no_dashboards(),
{
    dashmap::DashMap::new()
}

/// Keeps a dashboard under a key, replacing any earlier one.
///
/// Trusted: `dashmap::DashMap::insert`, which sets the key's value and leaves
/// the other keys' values as they were.
#[verifier::external_body]
fn dashboards_insert(
    m: &mut dashmap::DashMap<String, DashboardRecord>,
    key: String,
    v: DashboardRecord,
)
    ensures
        dashboards_held(*final(m)) == dashboards_held(*old(m)).insert(key@, v),
{
    m.insert(key, v);
}

/// A copy of the dashboard kept under a key, if any.
///
/// Trusted: `dashmap::DashMap::get`, which finds the entry whose key equals
/// the given string; the value is copied out of it.
#[verifier::external_body]
fn dashboards_get(m: &dashmap::DashMap<String, DashboardRecord>, key: &str) -> (r: Option<
    DashboardRecord,
>)
    ensures
        match r {
            Some(v) => dashboards_held(*m).contains_key(key@) && dashboards_held(*m)[key@] == v,
            None => !dashboards_held(*m).contains_key(key@),
        },
{
    m.get(key).map(|e| e.value().duplicate())
}

/// Takes out the dashboard kept under a key, if any.
///
/// Trusted: `dashmap::DashMap::remove`, which removes the key's entry and
/// returns it; the other entries stay as they were.
#[verifier::external_body]
fn dashboards_remove(m: &mut dashmap::DashMap<String, DashboardRecord>, key: &str) -> (r: Option<
    DashboardRecord,
>)
    ensures
        dashboards_held(*final(m)) == dashboards_held(*old(m)).remove(key@),
        match r {
            Some(v) => dashboards_held(*old(m)).contains_key(key@) && dashboards_held(*old(m))[key@]
                == v,
            None => !dashboards_held(*old(m)).contains_key(key@),
        },
{
    m.remove(key).map(|(_, v)| v)
}

/// Copies of all entries, key with dashboard.
///
/// Trusted: `dashmap::DashMap::iter`, which visits every entry once (nothing
/// else can change the map meanwhile: it is only reached through a shared
/// borrow of its store).  The order of the visit depends on the map's
/// hasher, which each process seeds, and is not stated.
#[verifier::external_body]
fn dashboards_entries(m: &dashmap::DashMap<String, DashboardRecord>) -> (r: Vec<
    (String, DashboardRecord),
>)
    ensures
        entries_of(r@, dashboards_held(*m)),
{
    m.iter().map(|e| (e.key().clone(), e.value().duplicate())).collect()
}

/// Dashboard store holding dashboard JSON bodies.
#[derive(Debug)]
pub struct DashboardStore {
    dashboards: dashmap::DashMap<String, DashboardRecord>,
}

impl View for DashboardStore {
    type V = Map<Seq<char>, DashboardRecord>;

    closed spec fn view(&self) -> Map<Seq<char>, DashboardRecord> {
        dashboards_held(self.dashboards)
    }
}

impl DashboardStore {
    /// The store's invariant: each dashboard is kept under its own name.
    pub open spec fn wf(&self) -> bool {
        keyed_by_name(self@)
    }

    /// Create a new dashboard store.
    pub fn new() -> (r: Self)
        ensures
            r.wf(),
            r@ == Map::<Seq<char>, DashboardRecord>::empty(),
    {
        DashboardStore { dashboards: dashboards_new() }
    }

    /// Store a dashboard (insert or update).
    pub fn put(&mut self, record: DashboardRecord)
        requires
            old(self).wf(),
        ensures
            final(self).wf(),
            final(self)@ == old(self)@.insert(record.name_view(), record),
    {
        let key = record.dashboard_name.clone();
        dashboards_insert(&mut self.dashboards, key, record);
    }

    /// Get a dashboard by name.
    pub fn get(&self, name: &str) -> (r: Option<DashboardRecord>)
        ensures
            r == (if self@.contains_key(name@) {
                Some(self@[name@])
            } else {
                None
            }),
    {
        dashboards_get(&self.dashboards, name)
    }

    /// Delete dashboards by name; returns the names that named a dashboard,
    /// each once, in order of first mention.
    pub fn delete(&mut self, names: &[String]) -> (r: Vec<String>)
        requires
            old(self).wf(),
        ensures
            final(self).wf(),
            final(self)@ == without_names(old(self)@, names@),
            r@.map_values(|s: String| s@) == deleted_names(old(self)@, names@),
    {
        let ghost o = self@;
        let mut deleted: Vec<String> = Vec::new();
        let mut i: usize = 0;
        while i < names.len()
            invariant
                i <= names.len(),
                self@ == without_names(o, names@.take(i as int)),
                deleted@.map_values(|s: String| s@) == deleted_names(o, names@.take(i as int)),
            decreases names.len() - i,
        {
            let removed = dashboards_remove(&mut self.dashboards, names[i].as_str());
            proof {
                assert(names@.take(i + 1).drop_last() =~= names@.take(i as int));
                assert(names@.take(i + 1).last() == names@[i as int]);
            }
            if removed.is_some() {
                let ghost before = deleted@.map_values(|s: String| s@);
                deleted.push(names[i].clone());
                proof {
                    assert(deleted@.map_values(|s: String| s@) =~= before.push(names@[i as int]@));
                }
            }
            i = i + 1;
        }
        proof {
            assert(names@.take(names.len() as int) =~= names@);
            assert forall|k: Seq<char>| #[trigger] self@.contains_key(k) implies self@[k].name_view()
                == k by {
                lemma_without_names(o, names@, k);
            }
        }
        deleted
    }

    /// List all dashboards, optionally filtered by name prefix, in the order
    /// the map yields them.
    pub fn list(&self, prefix: Option<&str>) -> (r: Vec<DashboardRecord>)
        requires
            self.wf(),
        ensures
            lists_entries(r@, self@, prefix_view(prefix)),
    {
        let pairs = dashboards_entries(&self.dashboards);
        select_entries(&pairs, Ghost(self@), prefix)
    }
}

// ---------------------------------------------------------------------------
// Insight rules
// ---------------------------------------------------------------------------

impl Named for InsightRule {
    open spec fn name_view(&self) -> Seq<char> {
        self.name@
    }

    fn name(&self) -> (r: &str) {
        self.name.as_str()
    }

    fn duplicate(&self) -> (r: Self) {
        InsightRule {
            apply_on_transformed_logs: self.apply_on_transformed_logs,
            definition: self.definition.clone(),
            managed_rule: self.managed_rule,
            name: self.name.clone(),
            schema: self.schema.clone(),
            state: self.state.clone(),
        }
    }
}

/// What a map of insight rules holds: each rule by the name it is kept under.
pub uninterp spec fn insight_rules_held(m: dashmap::DashMap<String, InsightRule>) -> Map<Seq<char>, InsightRule>;

/// No insight rules at all.
pub open spec fn no_insight_rules() -> Map<Seq<char>, InsightRule> {
    Map::empty()
}

/// A new, empty map of insight rules.
///
/// Trusted: `dashmap::DashMap::new`, which makes an empty map.
#[verifier::external_body]
fn insight_rules_new() -> (r: dashmap::DashMap<String, InsightRule>)
    ensures
        insight_rules_held(r) == no_insight_rules(),
{
    dashmap::DashMap::new()
}

/// Keeps a rule under a key, replacing any earlier one.
///
/// Trusted: `dashmap::DashMap::insert`, which sets the key's value and leaves
/// the other keys' values as they were.
#[verifier::external_body]
fn insight_rules_insert(m: &mut dashmap::DashMap<String, InsightRule>, key: String, v: InsightRule)
    ensures
        insight_rules_held(*final(m)) == insight_rules_held(*old(m)).insert(key@, v),
{
    m.insert(key, v);
}

/// Takes out the rule kept under a key, if any.
///
/// Trusted: `dashmap::DashMap::remove`, which removes the key's entry and
/// returns it; the other entries stay as they were.
#[verifier::external_body]
fn insight_rules_remove(m: &mut dashmap::DashMap<String, InsightRule>, key: &str) -> (r: Option<
    InsightRule,
>)
    ensures
        insight_rules_held(*final(m)) == insight_rules_held(*old(m)).remove(key@),
        match r {
            Some(v) => insight_rules_held(*old(m)).contains_key(key@) && insight_rules_held(
                *old(m),
            )[key@] == v,
            None => !insight_rules_held(*old(m)).contains_key(key@),
        },
{
    m.remove(key).map(|(_, v)| v)
}

/// Copies of all entries, key with rule.
///
/// Trusted: `dashmap::DashMap::iter`, which visits every entry once (nothing
/// else can change the map meanwhile: it is only reached through a shared
/// borrow of its store).  The order of the visit depends on the map's
/// hasher, which each process seeds, and is not stated.
#[verifier::external_body]
fn insight_rules_entries(m: &dashmap::DashMap<String, InsightRule>) -> (r: Vec<
    (String, InsightRule),
>)
    ensures
        entries_of(r@, insight_rules_held(*m)),
{
    m.iter().map(|e| (e.key().clone(), e.value().duplicate())).collect()
}

/// Insight rule store (metadata only; rules are not evaluated).
#[derive(Debug)]
pub struct InsightStore {
    rules: dashmap::DashMap<String, InsightRule>,
}

impl View for InsightStore {
    type V = Map<Seq<char>, InsightRule>;

    closed spec fn view(&self) -> Map<Seq<char>, InsightRule> {
        insight_rules_held(self.rules)
    }
}

impl InsightStore {
    /// The store's invariant: each rule is kept under its own name.
    pub open spec fn wf(&self) -> bool {
        keyed_by_name(self@)
    }

    /// Create a new insight store.
    pub fn new() -> (r: Self)
        ensures
            r.wf(),
            r@ == Map::<Seq<char>, InsightRule>::empty(),
    {
        InsightStore { rules: insight_rules_new() }
    }

    /// Store an insight rule, replacing the rule of the same name.
    pub fn put(&mut self, rule: InsightRule)
        requires
            old(self).wf(),
        ensures
            final(self).wf(),
            final(self)@ == old(self)@.insert(rule.name_view(), rule),
    {
        let key = rule.name.clone();
        insight_rules_insert(&mut self.rules, key, rule);
    }

    /// Delete insight rules by name.
    pub fn delete(&mut self, names: &[String])
        requires
            old(self).wf(),
        ensures
            final(self).wf(),
            final(self)@ == without_names(old(self)@, names@),
    {
        let ghost o = self@;
        let mut i: usize = 0;
        while i < names.len()
            invariant
                i <= names.len(),
                self@ == without_names(o, names@.take(i as int)),
            decreases names.len() - i,
        {
            let _removed = insight_rules_remove(&mut self.rules, names[i].as_str());
            proof {
                assert(names@.take(i + 1).drop_last() =~= names@.take(i as int));
                assert(names@.take(i + 1).last() == names@[i as int]);
            }
            i = i + 1;
        }
        proof {
            assert(names@.take(names.len() as int) =~= names@);
            assert forall|k: Seq<char>| #[trigger] self@.contains_key(k) implies self@[k].name_view()
                == k by {
                lemma_without_names(o, names@, k);
            }
        }
    }

    /// List all insight rules, in the order the map yields them.
    pub fn list(&self) -> (r: Vec<InsightRule>)
        requires
            self.wf(),
        ensures
            lists_entries(r@, self@, None),
    {
        let pairs = insight_rules_entries(&self.rules);
        select_entries(&pairs, Ghost(self@), None)
    }
}

} // verus!
