//! Laws the effect machinery obeys across whole batches.
//!
//! The contracts of `apply_creations` and `apply_mutations` pin each call to
//! its model; the lemmas here state what the models guarantee across a whole
//! tick: a batch of fresh, parent-ordered creations all apply, mutations
//! account for every removed entry, and neither step conjures a live name
//! out of nothing.

use vstd::prelude::*;

use crate::apply::{
    MutationOutcome, apply_creations_model, apply_mutations_model, creation_applies,
    creation_name, creation_step, mutation_step,
};
use crate::effects::{CreationEffect, MutationEffect};
use crate::registry::{
    RegView, hit_pred, is_live, keep_pred, lemma_filter_empty, lemma_filter_push,
    lemma_lookup_characterization,
};

verus! {

/// Appending one entry makes exactly its name live, and nothing else.
pub proof fn lemma_live_push(reg: RegView, p: (Seq<char>, u64), n: Seq<char>)
    ensures
        is_live(reg.push(p), n) <==> (is_live(reg, n) || p.0 == n),
{
    lemma_lookup_characterization(reg, n);
    lemma_lookup_characterization(reg.push(p), n);
    if is_live(reg, n) {
        let i = choose|i: int| 0 <= i < reg.len() && reg[i].0 == n;
        assert(reg.push(p)[i].0 == n);
    }
    if p.0 == n {
        assert(reg.push(p)[reg.len() as int].0 == n);
    }
    if is_live(reg.push(p), n) {
        let i = choose|i: int| 0 <= i < reg.push(p).len() && reg.push(p)[i].0 == n;
        if i < reg.len() {
            assert(reg[i].0 == n);
        }
    }
}

/// Filtering a registry can only lose live names, never gain one.
pub proof fn lemma_live_filter(reg: RegView, pred: spec_fn((Seq<char>, u64)) -> bool, n: Seq<char>)
    ensures
        is_live(reg.filter(pred), n) ==> is_live(reg, n),
    decreases reg.len(),
{
    if reg.len() == 0 {
        lemma_filter_empty(pred);
    } else {
        let rest = reg.drop_last();
        let last = reg.last();
        lemma_live_filter(rest, pred, n);
        assert(reg =~= rest.push(last));
        lemma_filter_push(rest, pred, last);
        if pred(last) {
            lemma_live_push(rest.filter(pred), last, n);
        }
        lemma_live_push(rest, last, n);
    }
}

/// A cascade removal accounts for every entry: each is either kept or
/// removed, never both, never neither.
pub proof fn lemma_cascade_split(reg: RegView, target: Seq<char>)
    ensures
        reg.filter(keep_pred(target)).len() + reg.filter(hit_pred(target)).len() == reg.len(),
    decreases reg.len(),
{
    if reg.len() == 0 {
        lemma_filter_empty(keep_pred(target));
        lemma_filter_empty(hit_pred(target));
    } else {
        let rest = reg.drop_last();
        let last = reg.last();
        lemma_cascade_split(rest, target);
        assert(reg =~= rest.push(last));
        lemma_filter_push(rest, keep_pred(target), last);
        lemma_filter_push(rest, hit_pred(target), last);
    }
}

/// Applying a mutation log accounts for every registry entry — the live
/// count drops by exactly the number of removed entries — and never makes a
/// name live that was not live before.
pub proof fn lemma_mutations_accounting(reg: RegView, effs: Seq<MutationEffect>)
    ensures
        apply_mutations_model(reg, effs).reg.len() + apply_mutations_model(reg, effs).removed
            == reg.len(),
        forall|n: Seq<char>|
            #[trigger] is_live(apply_mutations_model(reg, effs).reg, n) ==> is_live(reg, n),
    decreases effs.len(),
{
    if effs.len() == 0 {
    } else {
        let prev = apply_mutations_model(reg, effs.drop_last());
        let cur = apply_mutations_model(reg, effs);
        lemma_mutations_accounting(reg, effs.drop_last());
        match effs.last() {
            MutationEffect::Remove { name } => {
                if is_live(prev.reg, name@) {
                    lemma_cascade_split(prev.reg, name@);
                    assert forall|n: Seq<char>| #[trigger] is_live(cur.reg, n) implies is_live(
                        reg,
                        n,
                    ) by {
                        lemma_live_filter(prev.reg, keep_pred(name@), n);
                    }
                }
            },
            MutationEffect::SetVisible { .. } => {},
        }
    }
}

/// A batch of creation effects whose names are fresh and pairwise distinct,
/// and whose text parents are live beforehand or created earlier in the same
/// batch, applies completely: no effect is skipped, every effect registers
/// one entry and plans one spawn, and the live names afterwards are exactly
/// the old ones plus the batch's names.
pub proof fn lemma_creations_all_apply(reg: RegView, next: int, effs: Seq<CreationEffect>)
    requires
        forall|k: int| 0 <= k < effs.len() ==> !is_live(reg, creation_name(#[trigger] effs[k])),
        forall|k: int, j: int|
            0 <= k < j < effs.len() ==> creation_name(#[trigger] effs[k]) != creation_name(
                #[trigger] effs[j],
            ),
        forall|k: int|
            0 <= k < effs.len() ==> ((#[trigger] effs[k]) matches CreationEffect::Text(c) ==> (
            is_live(reg, c.parent@) || exists|j: int|
                0 <= j < k && creation_name(#[trigger] effs[j]) == c.parent@)),
    ensures
        ({
            let m = apply_creations_model(reg, next, effs);
            m.diags == 0 && m.reg.len() == reg.len() + effs.len() && m.ops.len() == effs.len()
                && m.next == next + effs.len()
        }),
        forall|n: Seq<char>|
            #[trigger] is_live(apply_creations_model(reg, next, effs).reg, n) <==> (is_live(reg, n)
                || exists|k: int| 0 <= k < effs.len() && creation_name(#[trigger] effs[k]) == n),
    decreases effs.len(),
{
    if effs.len() == 0 {
    } else {
        let rest = effs.drop_last();
        let e = effs.last();
        let last_i = effs.len() - 1;
        assert(forall|k: int| 0 <= k < rest.len() ==> rest[k] == effs[k]);
        lemma_creations_all_apply(reg, next, rest);
        let prev = apply_creations_model(reg, next, rest);
        let m = apply_creations_model(reg, next, effs);
        let name = creation_name(e);

        // The last effect's name is still free: it was not live before the
        // batch, and every earlier effect registered a different name.
        assert(!is_live(reg, name));
        assert(!(exists|k: int| 0 <= k < rest.len() && creation_name(rest[k]) == name)) by {
            if exists|k: int| 0 <= k < rest.len() && creation_name(rest[k]) == name {
                let k = choose|k: int| 0 <= k < rest.len() && creation_name(rest[k]) == name;
                assert(creation_name(effs[k]) != creation_name(effs[last_i]));
            }
        }
        assert(!is_live(prev.reg, name));

        // A text effect's parent is live by now.
        match e {
            CreationEffect::Text(c) => {
                assert(is_live(reg, c.parent@) || exists|j: int|
                    0 <= j < last_i && creation_name(effs[j]) == c.parent@);
                if !is_live(reg, c.parent@) {
                    let j = choose|j: int|
                        0 <= j < last_i && creation_name(effs[j]) == c.parent@;
                    assert(creation_name(rest[j]) == c.parent@);
                    assert(is_live(prev.reg, c.parent@));
                }
            },
            CreationEffect::Panel(_) => {},
        }
        assert(creation_applies(prev.reg, e));
        assert(m == creation_step(prev, e));
        assert(m.reg == prev.reg.push((name, prev.next as u64)));

        assert forall|n: Seq<char>| #[trigger] is_live(m.reg, n) <==> (is_live(reg, n) || exists|
            k: int,
        | 0 <= k < effs.len() && creation_name(#[trigger] effs[k]) == n) by {
            lemma_live_push(prev.reg, (name, prev.next as u64), n);
            if is_live(m.reg, n) {
                if is_live(prev.reg, n) {
                    if !is_live(reg, n) {
                        let k = choose|k: int|
                            0 <= k < rest.len() && creation_name(rest[k]) == n;
                        assert(creation_name(effs[k]) == n);
                    }
                } else {
                    assert(creation_name(effs[last_i]) == n);
                }
            }
            if !is_live(m.reg, n) {
                assert(!is_live(prev.reg, n) && name != n);
                if exists|k: int| 0 <= k < effs.len() && creation_name(effs[k]) == n {
                    let k = choose|k: int| 0 <= k < effs.len() && creation_name(effs[k]) == n;
                    if k < last_i {
                        assert(creation_name(rest[k]) == n);
                        assert(is_live(prev.reg, n));
                    } else {
                        assert(name == n);
                    }
                }
            }
        }
    }
}

/// Accounting across one tick's whole effect batch: with fresh,
/// parent-ordered creation names, applying N creations and then a mutation
/// log leaves exactly N more live entries than before, minus exactly the
/// entries the mutations removed, and every name live afterwards was either
/// live before or created by the batch.
pub proof fn lemma_batch_accounting(
    reg: RegView,
    next: int,
    creations: Seq<CreationEffect>,
    mutations: Seq<MutationEffect>,
)
    requires
        forall|k: int|
            0 <= k < creations.len() ==> !is_live(reg, creation_name(#[trigger] creations[k])),
        forall|k: int, j: int|
            0 <= k < j < creations.len() ==> creation_name(#[trigger] creations[k])
                != creation_name(#[trigger] creations[j]),
        forall|k: int|
            0 <= k < creations.len() ==> ((#[trigger] creations[k]) matches CreationEffect::Text(c)
                ==> (is_live(reg, c.parent@) || exists|j: int|
                0 <= j < k && creation_name(#[trigger] creations[j]) == c.parent@)),
    ensures
        ({
            let mc = apply_creations_model(reg, next, creations);
            let mm = apply_mutations_model(mc.reg, mutations);
            mc.diags == 0 && mc.reg.len() == reg.len() + creations.len() && mm.reg.len()
                + mm.removed == reg.len() + creations.len()
        }),
        forall|n: Seq<char>|
            #[trigger] is_live(
                apply_mutations_model(
                    apply_creations_model(reg, next, creations).reg,
                    mutations,
                ).reg,
                n,
            ) ==> (is_live(reg, n) || exists|k: int|
                0 <= k < creations.len() && creation_name(#[trigger] creations[k]) == n),
{
    lemma_creations_all_apply(reg, next, creations);
    let mc = apply_creations_model(reg, next, creations);
    lemma_mutations_accounting(mc.reg, mutations);
}

/// Every drained creation effect is consumed exactly once: it becomes
/// exactly one spawn operation or exactly one diagnostic, never both, never
/// neither.
pub proof fn lemma_creations_consumed(reg: RegView, next: int, effs: Seq<CreationEffect>)
    ensures
        apply_creations_model(reg, next, effs).ops.len() + apply_creations_model(
            reg,
            next,
            effs,
        ).diags == effs.len(),
    decreases effs.len(),
{
    if effs.len() > 0 {
        lemma_creations_consumed(reg, next, effs.drop_last());
    }
}

/// Every drained mutation effect is consumed exactly once: it becomes
/// exactly one scene operation or exactly one diagnostic, never both, never
/// neither.
pub proof fn lemma_mutations_consumed(reg: RegView, effs: Seq<MutationEffect>)
    ensures
        apply_mutations_model(reg, effs).ops.len() + apply_mutations_model(reg, effs).diags
            == effs.len(),
    decreases effs.len(),
{
    if effs.len() > 0 {
        lemma_mutations_consumed(reg, effs.drop_last());
    }
}

/// Removing a name that is not live is a no-op apart from exactly one
/// diagnostic: nothing is removed, no operation is planned, the registry is
/// untouched.
pub proof fn lemma_remove_absent_noop(prev: MutationOutcome, name: String)
    requires
        !is_live(prev.reg, name@),
    ensures
        ({
            let m = mutation_step(prev, MutationEffect::Remove { name });
            m.reg == prev.reg && m.ops == prev.ops && m.removed == prev.removed && m.diags
                == prev.diags + 1
        }),
{
}

} // verus!
