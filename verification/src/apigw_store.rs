//! Records of the API Gateway v2 control plane, each kept under a key of an
//! owner (the API, or the resource a tag belongs to) and an identifier.

use vstd::prelude::*;
use crate::seqs::{first_index, is_first, lemma_first_index_is, lemma_first_index_props};
use crate::apigw_records::{copy_vpc_link, vpc_view, VpcLinkRecord};
use crate::text::str_eq;

verus! {

/// A record kept under an owner and an identifier.
pub trait Keyed: Sized {
    /// The owner the record belongs to.
    spec fn owner_view(&self) -> Seq<char>;

    /// The record's identifier within its owner.
    spec fn ident_view(&self) -> Seq<char>;

    /// The owner the record belongs to.
    fn owner(&self) -> (r: &str)
        ensures
            r@ == self.owner_view(),
    ;

    /// The record's identifier within its owner.
    fn ident(&self) -> (r: &str)
        ensures
            r@ == self.ident_view(),
    ;

    /// A copy of the record.
    fn duplicate(&self) -> (r: Self)
        ensures
            r == *self,
    ;
}

/// Selects the record with the given owner and identifier.
pub open spec fn has_key<T: Keyed>(owner: Seq<char>, ident: Seq<char>) -> spec_fn(T) -> bool {
    |t: T| t.owner_view() == owner && t.ident_view() == ident
}

/// Selects the records of an owner.
pub open spec fn owned_by<T: Keyed>(owner: Seq<char>) -> spec_fn(T) -> bool {
    |t: T| t.owner_view() == owner
}

/// Selects the records that are not removed when removing the owner's record
/// `ident` (every record of the owner when `ident` is `None`).
pub open spec fn kept_after<T: Keyed>(owner: Seq<char>, ident: Option<Seq<char>>) -> spec_fn(
    T,
) -> bool {
    |t: T|
        !(t.owner_view() == owner && match ident {
            None => true,
            Some(i) => t.ident_view() == i,
        })
}

/// Position of the record with the given key (or the count of records).
pub open spec fn key_index<T: Keyed>(s: Seq<T>, owner: Seq<char>, ident: Seq<char>) -> int {
    first_index(s, has_key::<T>(owner, ident)) as int
}

/// The record kept under a key, if any.
pub open spec fn record_at<T: Keyed>(s: Seq<T>, owner: Seq<char>, ident: Seq<char>) -> Option<T> {
    if key_index(s, owner, ident) < s.len() {
        Some(s[key_index(s, owner, ident)])
    } else {
        None
    }
}

/// No two records share a key.
pub open spec fn keys_unique<T: Keyed>(s: Seq<T>) -> bool {
    forall|i: int, j: int|
        0 <= i < j < s.len() ==> !((#[trigger] s[i]).owner_view() == (#[trigger] s[j]).owner_view()
            && s[i].ident_view() == s[j].ident_view())
}

/// `s` after keeping `item`: it replaces the record with the same key in
/// place, or is added at the end.
pub open spec fn kept<T: Keyed>(s: Seq<T>, item: T) -> Seq<T> {
    let k = key_index(s, item.owner_view(), item.ident_view());
    if k < s.len() {
        s.update(k, item)
    } else {
        s.push(item)
    }
}

/// Records under unique keys, in order of first storage.
#[derive(Debug)]
pub struct KeyedStore<T> {
    items: Vec<T>,
}

impl<T: Keyed> View for KeyedStore<T> {
    type V = Seq<T>;

    closed spec fn view(&self) -> Seq<T> {
        self.items@
    }
}

impl<T: Keyed> KeyedStore<T> {
    /// The store's invariant: keys are unique.
    pub open spec fn wf(&self) -> bool {
        keys_unique(self@)
    }

    /// A new empty store.
    pub fn new() -> (r: Self)
        ensures
            r.wf(),
            r@ == Seq::<T>::empty(),
    {
        KeyedStore { items: Vec::new() }
    }

    /// Position of the record with the given key.
    pub fn find(&self, owner: &str, ident: &str) -> (r: usize)
        ensures
            r == key_index(self@, owner@, ident@),
            r <= self@.len(),
    {
        let ghost pred = has_key::<T>(owner@, ident@);
        let mut i: usize = 0;
        while i < self.items.len()
            invariant
                i <= self.items.len(),
                pred == has_key::<T>(owner@, ident@),
                forall|k: int| 0 <= k < i ==> !pred(#[trigger] self.items@[k]),
            decreases self.items.len() - i,
        {
            let it = &self.items[i];
            if str_eq(it.owner(), owner) && str_eq(it.ident(), ident) {
                proof {
                    lemma_first_index_is(self.items@, pred, i as int);
                }
                return i;
            }
            i = i + 1;
        }
        proof {
            lemma_first_index_is(self.items@, pred, i as int);
        }
        i
    }

    /// Whether a record is kept under the key.
    pub fn contains(&self, owner: &str, ident: &str) -> (r: bool)
        ensures
            r == (record_at(self@, owner@, ident@) is Some),
    {
        self.find(owner, ident) < self.items.len()
    }

    /// Keeps a record, replacing the record with the same key.
    pub fn put(&mut self, item: T)
        requires
            old(self).wf(),
        ensures
            final(self).wf(),
            final(self)@ == kept(old(self)@, item),
    {
        let ghost o = self@;
        let k = self.find(item.owner(), item.ident());
        proof {
            lemma_first_index_props(o, has_key::<T>(item.owner_view(), item.ident_view()));
        }
        if k < self.items.len() {
            let _old = self.items.remove(k);
            self.items.insert(k, item);
            proof {
                let f = self@;
                assert(f =~= o.update(k as int, item));
                assert forall|i: int, j: int| 0 <= i < j < f.len() implies !((#[trigger] f[i]).owner_view()
                    == (#[trigger] f[j]).owner_view() && f[i].ident_view() == f[j].ident_view()) by {
                    if i != k && j != k {
                        assert(f[i] == o[i] && f[j] == o[j]);
                    } else if i == k {
                        assert(f[j] == o[j]);
                    } else {
                        assert(f[i] == o[i]);
                    }
                }
            }
        } else {
            self.items.push(item);
            proof {
                let f = self@;
                assert forall|i: int, j: int| 0 <= i < j < f.len() implies !((#[trigger] f[i]).owner_view()
                    == (#[trigger] f[j]).owner_view() && f[i].ident_view() == f[j].ident_view()) by {
                    if j == o.len() {
                        assert(f[i] == o[i]);
                        assert(!has_key::<T>(item.owner_view(), item.ident_view())(o[i]));
                    } else {
                        assert(f[i] == o[i] && f[j] == o[j]);
                    }
                }
            }
        }
    }

    /// A copy of the record kept under a key, if any.
    pub fn get(&self, owner: &str, ident: &str) -> (r: Option<T>)
        ensures
            r == record_at(self@, owner@, ident@),
    {
        let k = self.find(owner, ident);
        if k < self.items.len() {
            Some(self.items[k].duplicate())
        } else {
            None
        }
    }

    /// Removes the owner's record `ident`, or every record of the owner when
    /// `ident` is `None`.
    pub fn remove_where(&mut self, owner: &str, ident: Option<&str>)
        requires
            old(self).wf(),
        ensures
            final(self).wf(),
            final(self)@ == old(self)@.filter(kept_after::<T>(
                owner@,
                match ident {
                    Some(i) => Some(i@),
                    None => None,
                },
            )),
    {
        let ghost o = self@;
        let ghost pred = kept_after::<T>(
            owner@,
            match ident {
                Some(i) => Some(i@),
                None => None,
            },
        );
        let mut src: Vec<T> = Vec::new();
        std::mem::swap(&mut src, &mut self.items);
        let mut kept_items: Vec<T> = Vec::new();
        let ghost mut j: int = 0;
        while src.len() > 0
            invariant
                0 <= j <= o.len(),
                src@ == o.skip(j),
                pred == kept_after::<T>(
                    owner@,
                    match ident {
                        Some(i) => Some(i@),
                        None => None,
                    },
                ),
                kept_items@ == o.take(j).filter(pred),
                keys_unique(o),
                forall|q: int|
                    0 <= q < kept_items@.len() ==> exists|p: int|
                        0 <= p < j && #[trigger] kept_items@[q] == o[p],
                keys_unique(kept_items@),
            decreases src.len(),
        {
            let item = src.remove(0);
            proof {
                assert(item == o[j]);
                reveal_with_fuel(Seq::filter, 1);
                assert(o.take(j + 1).drop_last() =~= o.take(j));
                assert(o.take(j + 1).last() == o[j]);
                assert(o.skip(j).drop_first() =~= o.skip(j + 1));
            }
            let same_owner = str_eq(item.owner(), owner);
            let drop = same_owner && match ident {
                None => true,
                Some(i) => str_eq(item.ident(), i),
            };
            if !drop {
                proof {
                    assert forall|q: int| 0 <= q < kept_items@.len() implies !((
                    #[trigger] kept_items@[q]).owner_view() == item.owner_view()
                        && kept_items@[q].ident_view() == item.ident_view()) by {
                        let p = choose|p: int| 0 <= p < j && kept_items@[q] == o[p];
                        assert(o[p] == kept_items@[q]);
                        assert(o[j] == item);
                    }
                }
                kept_items.push(item);
                proof {
                    assert forall|q: int| 0 <= q < kept_items@.len() implies exists|p: int|
                        0 <= p < j + 1 && #[trigger] kept_items@[q] == o[p] by {
                        if q == kept_items@.len() - 1 {
                            assert(kept_items@[q] == o[j]);
                        } else {
                            let p = choose|p: int| 0 <= p < j && kept_items@[q] == o[p];
                        }
                    }
                    let f = kept_items@;
                    assert forall|a: int, b: int| 0 <= a < b < f.len() implies !((
                    #[trigger] f[a]).owner_view() == (#[trigger] f[b]).owner_view()
                        && f[a].ident_view() == f[b].ident_view()) by {
                        if b == f.len() - 1 {
                            assert(f[b] == item);
                        }
                    }
                }
            }
            proof {
                j = j + 1;
            }
        }
        assert(j == o.len());
        assert(o.take(j) =~= o);
        self.items = kept_items;
    }

    /// Copies of the owner's records, in store order.
    pub fn list_owner(&self, owner: &str) -> (r: Vec<T>)
        ensures
            r@ == self@.filter(owned_by::<T>(owner@)),
    {
        let ghost filt = owned_by::<T>(owner@);
        let mut out: Vec<T> = Vec::new();
        let mut i: usize = 0;
        while i < self.items.len()
            invariant
                i <= self.items.len(),
                filt == owned_by::<T>(owner@),
                out@ == self@.take(i as int).filter(filt),
            decreases self.items.len() - i,
        {
            proof {
                reveal_with_fuel(Seq::filter, 1);
                assert(self@.take(i + 1).drop_last() =~= self@.take(i as int));
                assert(self@.take(i + 1).last() == self@[i as int]);
            }
            if str_eq(self.items[i].owner(), owner) {
                out.push(self.items[i].duplicate());
            }
            i = i + 1;
        }
        assert(self@.take(self@.len() as int) =~= self@);
        out
    }

    /// The record at a position (for walking the store).
    pub fn at(&self, i: usize) -> (r: &T)
        requires
            i < self@.len(),
        ensures
            *r == self@[i as int],
    {
        &self.items[i]
    }

    /// The number of records.
    pub fn len(&self) -> (r: usize)
        ensures
            r == self@.len(),
    {
        self.items.len()
    }

    /// Replaces the record at a position by one with the same key.
    pub fn set_at(&mut self, i: usize, item: T)
        requires
            old(self).wf(),
            i < old(self)@.len(),
            item.owner_view() == old(self)@[i as int].owner_view(),
            item.ident_view() == old(self)@[i as int].ident_view(),
        ensures
            final(self).wf(),
            final(self)@ == old(self)@.update(i as int, item),
    {
        let ghost o = self@;
        let _old = self.items.remove(i);
        self.items.insert(i, item);
        proof {
            let f = self@;
            assert(f =~= o.update(i as int, item));
            assert forall|a: int, b: int| 0 <= a < b < f.len() implies !((#[trigger] f[a]).owner_view()
                == (#[trigger] f[b]).owner_view() && f[a].ident_view() == f[b].ident_view()) by {
                assert(o[a].owner_view() == f[a].owner_view() && o[a].ident_view() == f[a].ident_view());
                assert(o[b].owner_view() == f[b].owner_view() && o[b].ident_view() == f[b].ident_view());
            }
        }
    }
}

/// After keeping a record, its key gives that record back.
pub proof fn lemma_kept_then_found<T: Keyed>(s: Seq<T>, item: T)
    ensures
        record_at(kept(s, item), item.owner_view(), item.ident_view()) == Some(item),
{
    let p = has_key::<T>(item.owner_view(), item.ident_view());
    let k = key_index(s, item.owner_view(), item.ident_view());
    lemma_first_index_props(s, p);
    let f = kept(s, item);
    if k < s.len() {
        assert forall|q: int| 0 <= q < k implies !p(#[trigger] f[q]) by {
            assert(f[q] == s[q]);
        }
        assert(is_first(f, p, k));
        lemma_first_index_is(f, p, k);
    } else {
        assert forall|q: int| 0 <= q < s.len() implies !p(#[trigger] f[q]) by {
            assert(f[q] == s[q]);
        }
        assert(is_first(f, p, s.len() as int));
        lemma_first_index_is(f, p, s.len() as int);
    }
}

/// Keeping a record leaves every other key's record as it was.
pub proof fn lemma_kept_keeps_others<T: Keyed>(s: Seq<T>, item: T, owner: Seq<char>, ident: Seq<char>)
    requires
        !(owner == item.owner_view() && ident == item.ident_view()),
    ensures
        record_at(kept(s, item), owner, ident) == record_at(s, owner, ident),
{
    let p = has_key::<T>(owner, ident);
    let k = key_index(s, item.owner_view(), item.ident_view());
    let f = kept(s, item);
    lemma_first_index_props(s, p);
    let m = key_index(s, owner, ident);
    assert(!p(item));
    if k < s.len() {
        assert forall|q: int| 0 <= q < m implies !p(#[trigger] f[q]) by {
            if q != k {
                assert(f[q] == s[q]);
            }
        }
        if m < s.len() {
            lemma_first_index_props(s, has_key::<T>(item.owner_view(), item.ident_view()));
            assert(m != k);
            assert(f[m] == s[m]);
        }
        assert(is_first(f, p, m));
        lemma_first_index_is(f, p, m);
    } else {
        assert forall|q: int| 0 <= q < m implies !p(#[trigger] f[q]) by {
            assert(f[q] == s[q]);
        }
        if m < s.len() {
            assert(f[m] == s[m]);
            assert(is_first(f, p, m));
            lemma_first_index_is(f, p, m);
        } else {
            assert(!p(f[s.len() as int]));
            assert(is_first(f, p, f.len() as int));
            lemma_first_index_is(f, p, f.len() as int);
        }
    }
}

} // verus!

verus! {

/// What a VPC link holds: identifier, name, security groups, subnets, and
/// creation time.
pub type VpcView = (String, String, Seq<String>, Seq<String>, i64);

/// Selects the VPC link with the given identifier.
pub open spec fn vpc_named(id: Seq<char>) -> spec_fn(VpcView) -> bool {
    |v: VpcView| v.0@ == id
}

/// Position of the VPC link with the given identifier (or the count).
pub open spec fn vpc_index(s: Seq<VpcView>, id: Seq<char>) -> int {
    first_index(s, vpc_named(id)) as int
}

/// No two VPC links share an identifier.
pub open spec fn vpc_ids_unique(s: Seq<VpcView>) -> bool {
    forall|i: int, j: int| 0 <= i < j < s.len() ==> (#[trigger] s[i]).0@ != (#[trigger] s[j]).0@
}

/// `s` after keeping `v`: it replaces the link with its identifier in place,
/// or is added at the end.
pub open spec fn vpc_kept(s: Seq<VpcView>, v: VpcView) -> Seq<VpcView> {
    let k = vpc_index(s, v.0@);
    if k < s.len() {
        s.update(k, v)
    } else {
        s.push(v)
    }
}

/// VPC links under unique identifiers, in order of first storage.
#[derive(Debug)]
pub struct VpcLinkStore {
    items: Vec<VpcLinkRecord>,
}

impl View for VpcLinkStore {
    type V = Seq<VpcView>;

    closed spec fn view(&self) -> Seq<VpcView> {
        self.items@.map_values(|v: VpcLinkRecord| vpc_view(v))
    }
}

impl VpcLinkStore {
    /// The store's invariant: identifiers are unique.
    pub open spec fn wf(&self) -> bool {
        vpc_ids_unique(self@)
    }

    /// A new empty store.
    pub fn new() -> (r: Self)
        ensures
            r.wf(),
            r@ == Seq::<VpcView>::empty(),
    {
        let r = VpcLinkStore { items: Vec::new() };
        assert(r@ =~= Seq::<VpcView>::empty());
        r
    }

    /// Position of the link with the given identifier.
    fn find(&self, id: &str) -> (r: usize)
        ensures
            r == vpc_index(self@, id@),
            r <= self@.len(),
    {
        let ghost pred = vpc_named(id@);
        let ghost s = self@;
        let mut i: usize = 0;
        while i < self.items.len()
            invariant
                i <= self.items.len(),
                pred == vpc_named(id@),
                s == self@,
                s.len() == self.items@.len(),
                forall|k: int| 0 <= k < i ==> !pred(#[trigger] s[k]),
            decreases self.items.len() - i,
        {
            assert(s[i as int].0 == self.items@[i as int].vpc_link_id);
            if str_eq(self.items[i].vpc_link_id.as_str(), id) {
                proof {
                    lemma_first_index_is(s, pred, i as int);
                }
                return i;
            }
            i = i + 1;
        }
        proof {
            lemma_first_index_is(s, pred, i as int);
        }
        i
    }

    /// Keeps a link, replacing the one with its identifier.
    pub fn put(&mut self, v: VpcLinkRecord)
        requires
            old(self).wf(),
        ensures
            final(self).wf(),
            final(self)@ == vpc_kept(old(self)@, vpc_view(v)),
    {
        let ghost o = self@;
        let ghost vv = vpc_view(v);
        let k = self.find(v.vpc_link_id.as_str());
        proof {
            lemma_first_index_props(o, vpc_named(v.vpc_link_id@));
        }
        if k < self.items.len() {
            let _old = self.items.remove(k);
            self.items.insert(k, v);
            proof {
                let f = self@;
                assert(f =~= o.update(k as int, vv));
                assert forall|i: int, j: int| 0 <= i < j < f.len() implies (#[trigger] f[i]).0@
                    != (#[trigger] f[j]).0@ by {
                    if i != k && j != k {
                        assert(f[i] == o[i] && f[j] == o[j]);
                    } else if i == k {
                        assert(f[j] == o[j]);
                    } else {
                        assert(f[i] == o[i]);
                    }
                }
            }
        } else {
            self.items.push(v);
            proof {
                let f = self@;
                assert(f =~= o.push(vv));
                assert forall|i: int, j: int| 0 <= i < j < f.len() implies (#[trigger] f[i]).0@
                    != (#[trigger] f[j]).0@ by {
                    if j == o.len() {
                        assert(f[i] == o[i]);
                        assert(!vpc_named(vv.0@)(o[i]));
                    } else {
                        assert(f[i] == o[i] && f[j] == o[j]);
                    }
                }
            }
        }
    }

    /// A copy of the link with the given identifier, if any.
    pub fn get(&self, id: &str) -> (r: Option<VpcLinkRecord>)
        ensures
            match r {
                Some(v) => vpc_index(self@, id@) < self@.len() && vpc_view(v) == self@[vpc_index(
                    self@,
                    id@,
                )],
                None => vpc_index(self@, id@) == self@.len(),
            },
    {
        let k = self.find(id);
        if k < self.items.len() {
            Some(copy_vpc_link(&self.items[k]))
        } else {
            None
        }
    }

    /// Removes the link with the given identifier; whether there was one.
    pub fn remove(&mut self, id: &str) -> (r: bool)
        requires
            old(self).wf(),
        ensures
            final(self).wf(),
            r == (vpc_index(old(self)@, id@) < old(self)@.len()),
            r ==> final(self)@ == old(self)@.remove(vpc_index(old(self)@, id@)),
            !r ==> final(self)@ == old(self)@,
    {
        let ghost o = self@;
        let k = self.find(id);
        if k < self.items.len() {
            let _gone = self.items.remove(k);
            proof {
                let f = self@;
                assert(f =~= o.remove(k as int));
                assert forall|i: int, j: int| 0 <= i < j < f.len() implies (#[trigger] f[i]).0@
                    != (#[trigger] f[j]).0@ by {
                    let a = if i < k { i } else { i + 1 };
                    let b = if j < k { j } else { j + 1 };
                    assert(f[i] == o[a] && f[j] == o[b]);
                }
            }
            true
        } else {
            false
        }
    }

    /// Copies of all links, in store order.
    pub fn list(&self) -> (r: Vec<VpcLinkRecord>)
        ensures
            r@.map_values(|v: VpcLinkRecord| vpc_view(v)) == self@,
    {
        let mut out: Vec<VpcLinkRecord> = Vec::new();
        let mut i: usize = 0;
        while i < self.items.len()
            invariant
                i <= self.items.len(),
                out@.len() == i,
                out@.map_values(|v: VpcLinkRecord| vpc_view(v)) == self@.take(i as int),
            decreases self.items.len() - i,
        {
            let c = copy_vpc_link(&self.items[i]);
            let ghost before = out@.map_values(|v: VpcLinkRecord| vpc_view(v));
            let ghost old_out = out@;
            out.push(c);
            proof {
                let nv = out@.map_values(|v: VpcLinkRecord| vpc_view(v));
                let t = self@.take(i + 1);
                assert(self@[i as int] == vpc_view(self.items@[i as int]));
                assert forall|k: int| 0 <= k < i + 1 implies nv[k] == t[k] by {
                    if k < i {
                        assert(out@[k] == old_out[k]);
                        assert(nv[k] == before[k]);
                    } else {
                        assert(out@[k] == c);
                    }
                }
                assert(nv =~= t);
            }
            i = i + 1;
        }
        assert(self@.take(self@.len() as int) =~= self@);
        out
    }
}

} // verus!
