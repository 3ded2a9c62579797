//! Applying drained effects to the registry and planning scene mutations.
//!
//! The orchestrator never touches the scene graph itself: applying a batch of
//! effects updates the handle registry and yields an ordered list of scene
//! operations for the driver to execute.  Creation effects are applied before
//! mutation effects, and the driver must flush the scene graph's own deferred
//! commands between the two lists, so that same-tick mutations can observe
//! same-tick creations.
//!
//! The exact meaning of a batch is given by two recursive models,
//! `apply_creations_model` and `apply_mutations_model`, folded over the
//! effect logs in issue order; the executable functions are proved equal to
//! them.

use vstd::prelude::*;

use crate::contract::Diagnostic;
use crate::effects::{CreationEffect, MutationEffect};
use crate::registry::{
    Registry, RegView, lookup_in, is_live, keep_pred, hit_pred, handles_of, clone_string,
};

verus! {

/// One operation the driver must perform on the scene graph, in list order.
/// Handles are the registry's opaque object identities; destroying a handle
/// destroys its whole subtree, mirroring the registry's cascade.
#[derive(Debug)]
pub enum SceneOp {
    SpawnPanel { handle: u64, config: crate::contract::PanelConfig },
    SpawnText { handle: u64, parent_handle: u64, config: crate::contract::TextConfig },
    Despawn { handle: u64 },
    SetVisible { handle: u64, visible: bool },
}

/// Source of registry handles: a counter that never hands out the same
/// handle twice within a process.
pub struct HandleAllocator {
    counter: u64,
}

impl HandleAllocator {
    /// The next handle the allocator will hand out.
    pub closed spec fn next(&self) -> int {
        self.counter as int
    }

    /// A fresh allocator, starting at handle zero.
    pub fn new() -> (a: HandleAllocator)
        ensures
            a.next() == 0,
    {
        HandleAllocator { counter: 0 }
    }

    /// The next handle, as a value the driver can budget against.
    pub fn next_handle(&self) -> (h: u64)
        ensures
            h as int == self.next(),
    {
        self.counter
    }
}

/// The name a creation effect wants to register.
pub open spec fn creation_name(e: CreationEffect) -> Seq<char> {
    match e {
        CreationEffect::Panel(c) => c.name@,
        CreationEffect::Text(c) => c.name@,
    }
}

/// Whether a creation effect can be applied against the given registry: its
/// name must be free, and a text effect's parent must be live.
pub open spec fn creation_applies(reg: RegView, e: CreationEffect) -> bool {
    match e {
        CreationEffect::Panel(c) => !is_live(reg, c.name@),
        CreationEffect::Text(c) => !is_live(reg, c.name@) && is_live(reg, c.parent@),
    }
}

/// The scene operation realizing an applicable creation effect with handle
/// `next`.
pub open spec fn creation_op(reg: RegView, next: int, e: CreationEffect) -> SceneOp {
    match e {
        CreationEffect::Panel(c) => SceneOp::SpawnPanel { handle: next as u64, config: c },
        CreationEffect::Text(c) => SceneOp::SpawnText {
            handle: next as u64,
            parent_handle: lookup_in(reg, c.parent@)->0,
            config: c,
        },
    }
}

/// Result of applying a batch of creation effects: the registry contents,
/// the allocator position, the spawn operations owed to the scene graph, and
/// how many effects were skipped with a diagnostic.
pub struct CreationOutcome {
    pub reg: RegView,
    pub next: int,
    pub ops: Seq<SceneOp>,
    pub diags: nat,
}

/// Applying one creation effect: register the name under a fresh handle and
/// plan the spawn, or skip the effect with a diagnostic.
pub open spec fn creation_step(prev: CreationOutcome, e: CreationEffect) -> CreationOutcome {
    if creation_applies(prev.reg, e) {
        CreationOutcome {
            reg: prev.reg.push((creation_name(e), prev.next as u64)),
            next: prev.next + 1,
            ops: prev.ops.push(creation_op(prev.reg, prev.next, e)),
            diags: prev.diags,
        }
    } else {
        CreationOutcome { reg: prev.reg, next: prev.next, ops: prev.ops, diags: prev.diags + 1 }
    }
}

/// The meaning of applying a creation log in issue order.
pub open spec fn apply_creations_model(reg: RegView, next: int, effs: Seq<CreationEffect>)
    -> CreationOutcome
    decreases effs.len(),
{
    if effs.len() == 0 {
        CreationOutcome { reg, next, ops: Seq::<SceneOp>::empty(), diags: 0 }
    } else {
        creation_step(apply_creations_model(reg, next, effs.drop_last()), effs.last())
    }
}

/// Result of applying a batch of mutation effects: the registry contents,
/// the operations owed to the scene graph, the skipped-effect diagnostics,
/// and how many registry entries were removed in all (cascades included).
pub struct MutationOutcome {
    pub reg: RegView,
    pub ops: Seq<SceneOp>,
    pub diags: nat,
    pub removed: nat,
}

/// Applying one mutation effect.  An absent target name is a no-op with a
/// diagnostic; a live Remove target despawns its object and cascades through
/// the registry; SetVisible only plans the visibility flip.
pub open spec fn mutation_step(prev: MutationOutcome, e: MutationEffect) -> MutationOutcome {
    match e {
        MutationEffect::Remove { name } => if is_live(prev.reg, name@) {
            MutationOutcome {
                reg: prev.reg.filter(keep_pred(name@)),
                ops: prev.ops.push(SceneOp::Despawn { handle: lookup_in(prev.reg, name@)->0 }),
                diags: prev.diags,
                removed: prev.removed + prev.reg.filter(hit_pred(name@)).len(),
            }
        } else {
            MutationOutcome {
                reg: prev.reg,
                ops: prev.ops,
                diags: prev.diags + 1,
                removed: prev.removed,
            }
        },
        MutationEffect::SetVisible { name, visible } => if is_live(prev.reg, name@) {
            MutationOutcome {
                reg: prev.reg,
                ops: prev.ops.push(
                    SceneOp::SetVisible { handle: lookup_in(prev.reg, name@)->0, visible },
                ),
                diags: prev.diags,
                removed: prev.removed,
            }
        } else {
            MutationOutcome {
                reg: prev.reg,
                ops: prev.ops,
                diags: prev.diags + 1,
                removed: prev.removed,
            }
        },
    }
}

/// The meaning of applying a mutation log in issue order.
pub open spec fn apply_mutations_model(reg: RegView, effs: Seq<MutationEffect>) -> MutationOutcome
    decreases effs.len(),
{
    if effs.len() == 0 {
        MutationOutcome { reg, ops: Seq::<SceneOp>::empty(), diags: 0, removed: 0 }
    } else {
        mutation_step(apply_mutations_model(reg, effs.drop_last()), effs.last())
    }
}

/// The model of a one-longer prefix is one step applied to the model of the
/// prefix.
pub proof fn lemma_creations_model_step(reg: RegView, next: int, effs: Seq<CreationEffect>, i: int)
    requires
        0 <= i < effs.len(),
    ensures
        apply_creations_model(reg, next, effs.subrange(0, i + 1)) == creation_step(
            apply_creations_model(reg, next, effs.subrange(0, i)),
            effs[i],
        ),
{
    assert(effs.subrange(0, i + 1).drop_last() =~= effs.subrange(0, i));
    assert(effs.subrange(0, i + 1).last() == effs[i]);
}

/// The model of a one-longer prefix is one step applied to the model of the
/// prefix.
pub proof fn lemma_mutations_model_step(reg: RegView, effs: Seq<MutationEffect>, i: int)
    requires
        0 <= i < effs.len(),
    ensures
        apply_mutations_model(reg, effs.subrange(0, i + 1)) == mutation_step(
            apply_mutations_model(reg, effs.subrange(0, i)),
            effs[i],
        ),
{
    assert(effs.subrange(0, i + 1).drop_last() =~= effs.subrange(0, i));
    assert(effs.subrange(0, i + 1).last() == effs[i]);
}

/// Applies the drained creation log in issue order: each applicable effect
/// registers its name under a fresh handle and plans a spawn; a name already
/// live, or a text parent not found, skips the effect with an error
/// diagnostic and never fails the tick.
pub fn apply_creations(
    registry: &mut Registry,
    alloc: &mut HandleAllocator,
    creations: Vec<CreationEffect>,
    diags: &mut Vec<Diagnostic>,
) -> (ops: Vec<SceneOp>)
    requires
        old(registry).wf(),
        old(alloc).next() + creations@.len() <= u64::MAX,
    ensures
        final(registry).wf(),
        ({
            let m = apply_creations_model(old(registry)@, old(alloc).next(), creations@);
            final(registry)@ == m.reg && final(alloc).next() == m.next && ops@ == m.ops
                && final(diags)@.len() == old(diags)@.len() + m.diags
        }),
        final(diags)@.subrange(0, old(diags)@.len() as int) == old(diags)@,
        forall|k: int|
            old(diags)@.len() <= k < final(diags)@.len() ==> (#[trigger] final(diags)@[k]).level
                == crate::contract::LogLevel::Error,
{
    let ghost reg0 = registry@;
    let ghost next0 = alloc.next();
    let ghost effs = creations@;
    let ghost d0 = diags@;
    let mut work = creations;
    let mut ops: Vec<SceneOp> = Vec::new();
    let n = work.len();
    let mut i: usize = 0;
    proof {
        assert(effs.subrange(0, 0) =~= Seq::<CreationEffect>::empty());
        assert(work@ =~= effs.subrange(0, n as int));
        assert(diags@.subrange(0, d0.len() as int) =~= d0);
    }
    while i < n
        invariant
            i <= n,
            n == effs.len(),
            work@ == effs.subrange(i as int, n as int),
            registry.wf(),
            ({
                let m = apply_creations_model(reg0, next0, effs.subrange(0, i as int));
                registry@ == m.reg && alloc.next() == m.next && ops@ == m.ops && diags@.len()
                    == d0.len() + m.diags
            }),
            alloc.next() <= next0 + i,
            next0 + n <= u64::MAX,
            diags@.subrange(0, d0.len() as int) == d0,
            forall|k: int|
                d0.len() <= k < diags@.len() ==> (#[trigger] diags@[k]).level
                    == crate::contract::LogLevel::Error,
        decreases n - i,
    {
        proof {
            assert(work@[0] == effs[i as int]);
            lemma_creations_model_step(reg0, next0, effs, i as int);
        }
        let e = work.remove(0);
        let ghost m_pre = apply_creations_model(reg0, next0, effs.subrange(0, i as int));
        match e {
            CreationEffect::Panel(c) => {
                let live = registry.lookup(&c.name).is_some();
                if live {
                    diags.push(
                        Diagnostic::error(
                            "creation skipped: name is already in use".to_owned(),
                        ),
                    );
                } else {
                    let h = alloc.counter;
                    alloc.counter = alloc.counter + 1;
                    let name_copy = clone_string(&c.name);
                    let _inserted = registry.insert(name_copy, h);
                    ops.push(SceneOp::SpawnPanel { handle: h, config: c });
                }
            },
            CreationEffect::Text(c) => {
                let live = registry.lookup(&c.name).is_some();
                let parent_handle = registry.lookup(&c.parent);
                match parent_handle {
                    Option::Some(ph) => {
                        if live {
                            diags.push(
                                Diagnostic::error(
                                    "creation skipped: name is already in use".to_owned(),
                                ),
                            );
                        } else {
                            let h = alloc.counter;
                            alloc.counter = alloc.counter + 1;
                            let name_copy = clone_string(&c.name);
                            let _inserted = registry.insert(name_copy, h);
                            ops.push(
                                SceneOp::SpawnText { handle: h, parent_handle: ph, config: c },
                            );
                        }
                    },
                    Option::None => {
                        diags.push(
                            Diagnostic::error(
                                "creation skipped: parent name not found".to_owned(),
                            ),
                        );
                    },
                }
            },
        }
        proof {
            assert(work@ =~= effs.subrange(i + 1, n as int));
            assert(diags@.subrange(0, d0.len() as int) =~= d0);
        }
        i += 1;
    }
    proof {
        assert(effs.subrange(0, n as int) =~= effs);
    }
    ops
}

/// Applies the drained mutation log in issue order: a live Remove target is
/// despawned and cascaded out of the registry, a live SetVisible target gets
/// its visibility flipped, and an absent target name is skipped with an
/// error diagnostic, never failing the tick.
pub fn apply_mutations(
    registry: &mut Registry,
    mutations: Vec<MutationEffect>,
    diags: &mut Vec<Diagnostic>,
) -> (ops: Vec<SceneOp>)
    requires
        old(registry).wf(),
    ensures
        final(registry).wf(),
        ({
            let m = apply_mutations_model(old(registry)@, mutations@);
            final(registry)@ == m.reg && ops@ == m.ops && final(diags)@.len() == old(diags)@.len()
                + m.diags && final(registry)@.len() + m.removed == old(registry)@.len()
        }),
        final(diags)@.subrange(0, old(diags)@.len() as int) == old(diags)@,
        forall|k: int|
            old(diags)@.len() <= k < final(diags)@.len() ==> (#[trigger] final(diags)@[k]).level
                == crate::contract::LogLevel::Error,
{
    let ghost reg0 = registry@;
    let ghost effs = mutations@;
    let ghost d0 = diags@;
    let mut work = mutations;
    let mut ops: Vec<SceneOp> = Vec::new();
    let n = work.len();
    let mut i: usize = 0;
    proof {
        assert(effs.subrange(0, 0) =~= Seq::<MutationEffect>::empty());
        assert(work@ =~= effs.subrange(0, n as int));
        assert(diags@.subrange(0, d0.len() as int) =~= d0);
    }
    while i < n
        invariant
            i <= n,
            n == effs.len(),
            work@ == effs.subrange(i as int, n as int),
            registry.wf(),
            ({
                let m = apply_mutations_model(reg0, effs.subrange(0, i as int));
                registry@ == m.reg && ops@ == m.ops && diags@.len() == d0.len() + m.diags
                    && registry@.len() + m.removed == reg0.len()
            }),
            diags@.subrange(0, d0.len() as int) == d0,
            forall|k: int|
                d0.len() <= k < diags@.len() ==> (#[trigger] diags@[k]).level
                    == crate::contract::LogLevel::Error,
        decreases n - i,
    {
        proof {
            assert(work@[0] == effs[i as int]);
            lemma_mutations_model_step(reg0, effs, i as int);
        }
        let e = work.remove(0);
        match e {
            MutationEffect::Remove { name } => {
                let target_handle = registry.lookup(&name);
                match target_handle {
                    Option::Some(h) => {
                        let _removed = registry.remove_cascade(&name);
                        ops.push(SceneOp::Despawn { handle: h });
                    },
                    Option::None => {
                        diags.push(
                            Diagnostic::error(
                                "removal skipped: name not found".to_owned(),
                            ),
                        );
                    },
                }
            },
            MutationEffect::SetVisible { name, visible } => {
                let target_handle = registry.lookup(&name);
                match target_handle {
                    Option::Some(h) => {
                        ops.push(SceneOp::SetVisible { handle: h, visible });
                    },
                    Option::None => {
                        diags.push(
                            Diagnostic::error(
                                "visibility change skipped: name not found".to_owned(),
                            ),
                        );
                    },
                }
            },
        }
        proof {
            assert(work@ =~= effs.subrange(i + 1, n as int));
            assert(diags@.subrange(0, d0.len() as int) =~= d0);
        }
        i += 1;
    }
    proof {
        assert(effs.subrange(0, n as int) =~= effs);
    }
    ops
}

} // verus!
