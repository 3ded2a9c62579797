//! Name-to-handle registry with hierarchical cascade removal.
//!
//! The guest addresses scene objects by string names; the host realizes them
//! as opaque numeric handles.  A name containing the separator `'.'` denotes
//! a child of the name before the separator, and removing a name also removes
//! every hierarchically prefixed name.  Prefix matching uses the separator
//! explicitly: removing `"a"` never touches `"ab"`, only `"a."`-prefixed
//! names.

use vstd::prelude::*;

verus! {

/// Abstract model of the registry: the (name, handle) pairs in insertion
/// order.
pub type RegView = Seq<(Seq<char>, u64)>;

/// First-match lookup in the abstract registry.  Under `unique_names` the
/// first match is the only one.
pub open spec fn lookup_in(reg: RegView, name: Seq<char>) -> Option<u64>
    decreases reg.len(),
{
    if reg.len() == 0 {
        None
    } else if reg[0].0 == name {
        Some(reg[0].1)
    } else {
        lookup_in(reg.drop_first(), name)
    }
}

/// Whether `name` is live in the registry.
pub open spec fn is_live(reg: RegView, name: Seq<char>) -> bool {
    lookup_in(reg, name) is Some
}

/// Whether removing `target` removes `name`: either the exact name, or any
/// name that extends `target` with the child separator.
pub open spec fn cascade_hits(target: Seq<char>, name: Seq<char>) -> bool {
    name == target || (name.len() > target.len() && name.subrange(0, target.len() as int)
        == target && name[target.len() as int] == '.')
}

/// The entries a removal of `target` keeps.
pub open spec fn keep_pred(target: Seq<char>) -> spec_fn((Seq<char>, u64)) -> bool {
    |p: (Seq<char>, u64)| !cascade_hits(target, p.0)
}

/// The entries a removal of `target` drops.
pub open spec fn hit_pred(target: Seq<char>) -> spec_fn((Seq<char>, u64)) -> bool {
    |p: (Seq<char>, u64)| cascade_hits(target, p.0)
}

/// The handles of the given entries, in order.
pub open spec fn handles_of(reg: RegView) -> Seq<u64> {
    reg.map_values(|p: (Seq<char>, u64)| p.1)
}

/// No two live entries share a name.
pub open spec fn unique_names(reg: RegView) -> bool {
    forall|i: int, j: int| 0 <= i < j < reg.len() ==> reg[i].0 != reg[j].0
}

/// A name is live exactly when some entry carries it, and under unique names
/// the lookup returns that entry's handle.
pub proof fn lemma_lookup_characterization(reg: RegView, name: Seq<char>)
    ensures
        is_live(reg, name) <==> exists|i: int| 0 <= i < reg.len() && reg[i].0 == name,
        unique_names(reg) ==> forall|i: int|
            0 <= i < reg.len() && reg[i].0 == name ==> lookup_in(reg, name) == Some(reg[i].1),
    decreases reg.len(),
{
    if reg.len() == 0 {
    } else {
        let rest = reg.drop_first();
        lemma_lookup_characterization(rest, name);
        assert(forall|i: int| 0 <= i < rest.len() ==> rest[i] == reg[i + 1]);
        if reg[0].0 == name {
            assert(reg[0].0 == name);
            if unique_names(reg) {
                assert forall|i: int|
                    0 <= i < reg.len() && reg[i].0 == name implies lookup_in(reg, name) == Some(
                    reg[i].1,
                ) by {
                    if i != 0 {
                        assert(reg[0].0 == reg[i].0);
                    }
                }
            }
        } else {
            if exists|i: int| 0 <= i < reg.len() && reg[i].0 == name {
                let i = choose|i: int| 0 <= i < reg.len() && reg[i].0 == name;
                assert(rest[i - 1].0 == name);
            }
            if unique_names(reg) {
                assert(unique_names(rest));
                assert forall|i: int|
                    0 <= i < reg.len() && reg[i].0 == name implies lookup_in(reg, name) == Some(
                    reg[i].1,
                ) by {
                    assert(rest[i - 1].0 == name);
                }
            }
        }
    }
}

/// Filtering the empty registry leaves it empty.
pub proof fn lemma_filter_empty(pred: spec_fn((Seq<char>, u64)) -> bool)
    ensures
        Seq::<(Seq<char>, u64)>::empty().filter(pred) == Seq::<(Seq<char>, u64)>::empty(),
{
    reveal_with_fuel(Seq::filter, 2);
}

/// How `filter` treats one appended entry: kept when the predicate holds,
/// dropped otherwise.
pub proof fn lemma_filter_push(
    s: Seq<(Seq<char>, u64)>,
    pred: spec_fn((Seq<char>, u64)) -> bool,
    x: (Seq<char>, u64),
)
    ensures
        pred(x) ==> s.push(x).filter(pred) == s.filter(pred).push(x),
        !pred(x) ==> s.push(x).filter(pred) == s.filter(pred),
{
    reveal_with_fuel(Seq::filter, 2);
    assert(s.push(x).drop_last() =~= s);
    assert(s.push(x).last() == x);
}

/// One registry entry: a guest-visible name bound to a host object handle.
pub struct RegistryEntry {
    pub name: String,
    pub handle: u64,
}

/// The registry itself.  Kept as an insertion-ordered list; `insert` refuses
/// a live name, so names stay unique.
pub struct Registry {
    items: Vec<RegistryEntry>,
}

impl View for Registry {
    type V = RegView;

    closed spec fn view(&self) -> RegView {
        self.items@.map_values(|e: RegistryEntry| (e.name@, e.handle))
    }
}

impl Registry {
    /// The registry invariant: no name is bound twice.
    pub open spec fn wf(&self) -> bool {
        unique_names(self@)
    }

    /// An empty registry.
    pub fn new() -> (r: Registry)
        ensures
            r@ == RegView::empty(),
            r.wf(),
    {
        let r = Registry { items: Vec::new() };
        proof {
            assert(r@ =~= RegView::empty());
        }
        r
    }

    /// Non-destructive name resolution.
    pub fn lookup(&self, name: &String) -> (r: Option<u64>)
        ensures
            r == lookup_in(self@, name@),
    {
        let n = self.items.len();
        let mut i: usize = 0;
        proof {
            assert(self@.skip(0) =~= self@);
        }
        while i < n
            invariant
                i <= n,
                n == self.items.len(),
                lookup_in(self@, name@) == lookup_in(self@.skip(i as int), name@),
            decreases n - i,
        {
            proof {
                assert(self@.skip(i as int)[0] == self@[i as int]);
            }
            if self.items[i].name == *name {
                return Some(self.items[i].handle);
            }
            proof {
                assert(self@.skip(i as int).drop_first() =~= self@.skip(i + 1));
            }
            i += 1;
        }
        proof {
            assert(self@.skip(n as int) =~= RegView::empty());
        }
        None
    }

    /// Binds `name` to `handle` unless the name is already live; reports
    /// whether the binding took place.
    pub fn insert(&mut self, name: String, handle: u64) -> (ok: bool)
        requires
            old(self).wf(),
        ensures
            final(self).wf(),
            ok == !is_live(old(self)@, name@),
            ok ==> final(self)@ == old(self)@.push((name@, handle)),
            !ok ==> final(self)@ == old(self)@,
    {
        let live = self.lookup(&name).is_some();
        if live {
            false
        } else {
            proof {
                lemma_lookup_characterization(self@, name@);
            }
            let ghost pre = self@;
            self.items.push(RegistryEntry { name, handle });
            proof {
                assert(self@ =~= pre.push((name@, handle)));
            }
            true
        }
    }

    /// Removes `target` and every name hierarchically prefixed by it,
    /// returning the removed handles in entry order.  An absent target is a
    /// complete no-op, even if prefixed children exist: the caller reports
    /// the miss as a diagnostic.
    pub fn remove_cascade(&mut self, target: &String) -> (removed: Vec<u64>)
        requires
            old(self).wf(),
        ensures
            final(self).wf(),
            !is_live(old(self)@, target@) ==> final(self)@ == old(self)@,
            !is_live(old(self)@, target@) ==> removed@ == Seq::<u64>::empty(),
            is_live(old(self)@, target@) ==> final(self)@ == old(self)@.filter(
                keep_pred(target@),
            ),
            is_live(old(self)@, target@) ==> removed@ == handles_of(
                old(self)@.filter(hit_pred(target@)),
            ),
            final(self)@.len() + removed@.len() == old(self)@.len(),
            is_live(old(self)@, target@) ==> removed@.len() >= 1,
    {
        if self.lookup(target).is_none() {
            return Vec::new();
        }
        let ghost ov: RegView = self@;
        proof {
            lemma_lookup_characterization(ov, target@);
        }
        let mut work: Vec<RegistryEntry> = Vec::new();
        core::mem::swap(&mut work, &mut self.items);
        let mut kept: Vec<RegistryEntry> = Vec::new();
        let mut removed: Vec<u64> = Vec::new();
        let n = work.len();
        let mut i: usize = 0;
        proof {
            lemma_filter_empty(keep_pred(target@));
            lemma_filter_empty(hit_pred(target@));
            assert(ov.subrange(0, 0) =~= Seq::<(Seq<char>, u64)>::empty());
            assert(kept@.map_values(|e: RegistryEntry| (e.name@, e.handle)) =~= Seq::<
                (Seq<char>, u64),
            >::empty());
            assert(removed@ =~= Seq::<u64>::empty());
            assert(handles_of(Seq::<(Seq<char>, u64)>::empty()) =~= Seq::<u64>::empty());
        }
        while i < n
            invariant
                i <= n,
                n == work@.len(),
                ov == work@.map_values(|e: RegistryEntry| (e.name@, e.handle)),
                kept@.map_values(|e: RegistryEntry| (e.name@, e.handle)) == ov.subrange(
                    0,
                    i as int,
                ).filter(keep_pred(target@)),
                removed@ == handles_of(ov.subrange(0, i as int).filter(hit_pred(target@))),
                kept@.len() + removed@.len() == i,
                unique_names(kept@.map_values(|e: RegistryEntry| (e.name@, e.handle))),
                forall|k: int|
                    0 <= k < kept@.len() ==> exists|j: int|
                        0 <= j < i && (#[trigger] kept@[k].name@, kept@[k].handle) == ov[j],
                unique_names(ov),
            decreases n - i,
        {
            let ghost kept_pre = kept@.map_values(|e: RegistryEntry| (e.name@, e.handle));
            let ghost prefix = ov.subrange(0, i as int);
            let ghost prefix1 = ov.subrange(0, i + 1);
            proof {
                assert(prefix1 =~= prefix.push(ov[i as int]));
                lemma_filter_push(prefix, keep_pred(target@), ov[i as int]);
                lemma_filter_push(prefix, hit_pred(target@), ov[i as int]);
            }
            let hit = cascade_check(target, &work[i].name);
            if hit {
                removed.push(work[i].handle);
            } else {
                proof {
                    assert forall|k: int| 0 <= k < kept_pre.len() implies kept_pre[k].0
                        != ov[i as int].0 by {
                        let j = choose|j: int|
                            0 <= j < i && (kept@[k].name@, kept@[k].handle) == ov[j];
                        assert(kept_pre[k] == ov[j]);
                        assert(ov[j].0 != ov[i as int].0);
                    }
                }
                let e = RegistryEntry { name: clone_string(&work[i].name), handle: work[i].handle };
                kept.push(e);
            }
            proof {
                assert(kept@.map_values(|e: RegistryEntry| (e.name@, e.handle)) =~= prefix1.filter(
                    keep_pred(target@),
                ));
                assert(removed@ =~= handles_of(prefix1.filter(hit_pred(target@))));
            }
            i += 1;
        }
        proof {
            assert(ov.subrange(0, n as int) =~= ov);
        }
        self.items = kept;
        proof {
            let idx = choose|j: int| 0 <= j < ov.len() && ov[j].0 == target@;
            assert(hit_pred(target@)(ov[idx]));
            ov.lemma_filter_contains(hit_pred(target@), idx);
            let hits = ov.filter(hit_pred(target@));
            assert(hits.contains(ov[idx]));
            assert(hits.len() >= 1);
        }
        removed
    }
}

/// Exact executable form of `cascade_hits`: does removing `target` remove
/// `name`?
pub fn cascade_check(target: &String, name: &String) -> (b: bool)
    ensures
        b == cascade_hits(target@, name@),
{
    let tlen = target.as_str().unicode_len();
    let nlen = name.as_str().unicode_len();
    if nlen == tlen {
        return *name == *target;
    }
    if nlen < tlen {
        return false;
    }
    if name.as_str().get_char(tlen) != '.' {
        return false;
    }
    let mut i: usize = 0;
    while i < tlen
        invariant
            i <= tlen,
            tlen == target@.len(),
            nlen == name@.len(),
            nlen > tlen,
            forall|j: int| 0 <= j < i ==> name@[j] == target@[j],
        decreases tlen - i,
    {
        if name.as_str().get_char(i) != target.as_str().get_char(i) {
            proof {
                assert(name@.subrange(0, tlen as int)[i as int] == name@[i as int]);
            }
            return false;
        }
        i += 1;
    }
    proof {
        assert(name@.subrange(0, tlen as int) =~= target@);
    }
    true
}

/// Clone of a `String` with its contents pinned down; the derived clone says
/// nothing in specifications.
pub fn clone_string(s: &String) -> (r: String)
    ensures
        r@ == s@,
{
    s.clone()
}

} // verus!
