//! Per-frame tick orchestration.
//!
//! A tick walks a fixed sequence of phases and never skips a step on a
//! prior step's failure — each step degrades independently:
//!
//! 1. the driver gathers raw input and begins the session;
//! 2. the guest's `map_input` is called; on failure the raw input stands in
//!    unmodified for the mapped input, so no tick ever stalls;
//! 3. the guest's `update` is called; on failure the game state stays
//!    exactly as it was for this tick;
//! 4. when the tick's trigger fired, the guest's `on_ui_event` is called;
//!    on failure the tick just records the error;
//! 5. the effect logs are drained and applied, creations before mutations.
//!
//! The session owns the tick's diagnostics; every guest failure and every
//! skipped effect appends exactly one error entry.  The driver performs the
//! actual sandbox calls between the phases and hands each outcome in; the
//! session's phase field makes the required order a precondition.

use vstd::prelude::*;

use crate::apply::{
    HandleAllocator, SceneOp, apply_creations, apply_creations_model, apply_mutations,
    apply_mutations_model,
};
use crate::contract::{Diagnostic, GuestError, InputState, LogLevel, PlayerState};
use crate::effects::EffectQueue;
use crate::registry::Registry;

verus! {

/// Where a tick session stands in the fixed step order.
#[derive(Clone, Copy, Debug, PartialEq, Eq, Structural)]
pub enum TickPhase {
    /// Waiting for the outcome of the guest's `map_input` call.
    MapInput,
    /// Waiting for the outcome of the guest's `update` call.
    Update,
    /// Waiting for the outcome of the guest's `on_ui_event` call.
    UiEvent,
    /// Guest calls done; the effect logs may now be drained and applied.
    ApplyEffects,
    /// The tick is complete.
    Done,
}

/// The scene operations one tick owes the driver.  The driver must execute
/// every creation operation and flush the scene graph's deferred commands
/// before executing the mutation operations, so that same-tick mutations
/// observe same-tick creations.
pub struct TickOutput {
    pub creation_ops: Vec<SceneOp>,
    pub mutation_ops: Vec<SceneOp>,
}

/// One tick of the orchestrator, from input gathering to effect application.
pub struct TickSession {
    phase: TickPhase,
    raw: InputState,
    mapped: InputState,
    game: PlayerState,
    delta_time_bits: u32,
    ui_trigger: bool,
    diagnostics: Vec<Diagnostic>,
}

impl TickSession {
    /// The session's current phase.
    pub closed spec fn phase(&self) -> TickPhase {
        self.phase
    }

    /// The raw host-native input this tick started from.
    pub closed spec fn raw(&self) -> InputState {
        self.raw
    }

    /// The mapped input the update step uses; meaningful from the Update
    /// phase on.
    pub closed spec fn mapped(&self) -> InputState {
        self.mapped
    }

    /// The game state as of this point of the tick.
    pub closed spec fn game(&self) -> PlayerState {
        self.game
    }

    /// The elapsed time handed to the guest, as single-precision bits.
    pub closed spec fn delta_time_bits(&self) -> u32 {
        self.delta_time_bits
    }

    /// Whether the tick's edge-triggered UI event fired.
    pub closed spec fn ui_trigger(&self) -> bool {
        self.ui_trigger
    }

    /// The diagnostics recorded so far this tick, oldest first.
    pub closed spec fn diagnostics(&self) -> Seq<Diagnostic> {
        self.diagnostics@
    }

    /// Step 1: the driver has gathered the host inputs; the session now
    /// waits for the `map_input` outcome.
    pub fn begin(
        raw: InputState,
        game: PlayerState,
        delta_time_bits: u32,
        ui_trigger: bool,
    ) -> (s: TickSession)
        ensures
            s.phase() is MapInput,
            s.raw() == raw,
            s.game() == game,
            s.delta_time_bits() == delta_time_bits,
            s.ui_trigger() == ui_trigger,
            s.diagnostics() == Seq::<Diagnostic>::empty(),
    {
        TickSession {
            phase: TickPhase::MapInput,
            raw,
            mapped: raw,
            game,
            delta_time_bits,
            ui_trigger,
            diagnostics: Vec::new(),
        }
    }

    /// Step 2: records the outcome of the guest's `map_input` call.  On
    /// failure the raw input stands in, structurally identical, as the
    /// mapped input — a mapping failure never stalls the tick.
    pub fn map_input_returned(&mut self, outcome: Result<InputState, GuestError>)
        requires
            old(self).phase() is MapInput,
        ensures
            final(self).phase() is Update,
            outcome matches Ok(m) ==> final(self).mapped() == m,
            outcome matches Ok(m) ==> final(self).diagnostics() == old(self).diagnostics(),
            outcome matches Err(_) ==> final(self).mapped() == old(self).raw(),
            outcome matches Err(_) ==> final(self).diagnostics().len() == old(
                self,
            ).diagnostics().len() + 1,
            outcome matches Err(_) ==> final(self).diagnostics().last().level == LogLevel::Error,
            final(self).diagnostics().subrange(0, old(self).diagnostics().len() as int) == old(
                self,
            ).diagnostics(),
            final(self).raw() == old(self).raw(),
            final(self).game() == old(self).game(),
            final(self).delta_time_bits() == old(self).delta_time_bits(),
            final(self).ui_trigger() == old(self).ui_trigger(),
    {
        let ghost pre = self.diagnostics@;
        match outcome {
            Result::Ok(m) => {
                self.mapped = m;
            },
            Result::Err(e) => {
                self.mapped = self.raw;
                self.diagnostics.push(
                    Diagnostic::error(
                        "input mapping failed; raw input stands in: ".to_owned().concat(
                            e.message.as_str(),
                        ),
                    ),
                );
            },
        }
        self.phase = TickPhase::Update;
        proof {
            assert(self.diagnostics@.subrange(0, pre.len() as int) =~= pre);
        }
    }

    /// Step 3: records the outcome of the guest's `update` call.  On failure
    /// the game state is left exactly as it was, and exactly one diagnostic
    /// is recorded.
    pub fn update_returned(&mut self, outcome: Result<PlayerState, GuestError>)
        requires
            old(self).phase() is Update,
        ensures
            old(self).ui_trigger() ==> final(self).phase() is UiEvent,
            !old(self).ui_trigger() ==> final(self).phase() is ApplyEffects,
            outcome matches Ok(next) ==> final(self).game() == next,
            outcome matches Ok(next) ==> final(self).diagnostics() == old(self).diagnostics(),
            outcome matches Err(_) ==> final(self).game() == old(self).game(),
            outcome matches Err(_) ==> final(self).diagnostics().len() == old(
                self,
            ).diagnostics().len() + 1,
            outcome matches Err(_) ==> final(self).diagnostics().last().level == LogLevel::Error,
            final(self).diagnostics().subrange(0, old(self).diagnostics().len() as int) == old(
                self,
            ).diagnostics(),
            final(self).raw() == old(self).raw(),
            final(self).mapped() == old(self).mapped(),
            final(self).delta_time_bits() == old(self).delta_time_bits(),
            final(self).ui_trigger() == old(self).ui_trigger(),
    {
        let ghost pre = self.diagnostics@;
        match outcome {
            Result::Ok(next) => {
                self.game = next;
            },
            Result::Err(e) => {
                self.diagnostics.push(
                    Diagnostic::error(
                        "update failed; game state unchanged: ".to_owned().concat(
                            e.message.as_str(),
                        ),
                    ),
                );
            },
        }
        self.phase = if self.ui_trigger {
            TickPhase::UiEvent
        } else {
            TickPhase::ApplyEffects
        };
        proof {
            assert(self.diagnostics@.subrange(0, pre.len() as int) =~= pre);
        }
    }

    /// Step 4: records the outcome of the guest's `on_ui_event` call.  A
    /// failure is logged and the tick continues.
    pub fn ui_event_returned(&mut self, outcome: Result<(), GuestError>)
        requires
            old(self).phase() is UiEvent,
        ensures
            final(self).phase() is ApplyEffects,
            outcome matches Ok(_) ==> final(self).diagnostics() == old(self).diagnostics(),
            outcome matches Err(_) ==> final(self).diagnostics().len() == old(
                self,
            ).diagnostics().len() + 1,
            outcome matches Err(_) ==> final(self).diagnostics().last().level == LogLevel::Error,
            final(self).diagnostics().subrange(0, old(self).diagnostics().len() as int) == old(
                self,
            ).diagnostics(),
            final(self).raw() == old(self).raw(),
            final(self).mapped() == old(self).mapped(),
            final(self).game() == old(self).game(),
            final(self).delta_time_bits() == old(self).delta_time_bits(),
            final(self).ui_trigger() == old(self).ui_trigger(),
    {
        let ghost pre = self.diagnostics@;
        match outcome {
            Result::Ok(_) => {},
            Result::Err(e) => {
                self.diagnostics.push(
                    Diagnostic::error(
                        "ui event failed: ".to_owned().concat(e.message.as_str()),
                    ),
                );
            },
        }
        self.phase = TickPhase::ApplyEffects;
        proof {
            assert(self.diagnostics@.subrange(0, pre.len() as int) =~= pre);
        }
    }

    /// Steps 5 to 7: drains both effect logs out of the execution context and
    /// applies them — creations in issue order, then mutations in issue
    /// order, exactly as the models say.  The returned operation lists keep
    /// the barrier between the two apply steps.
    pub fn apply_effects(
        &mut self,
        registry: &mut Registry,
        alloc: &mut HandleAllocator,
        queue: &mut EffectQueue,
    ) -> (out: TickOutput)
        requires
            old(self).phase() is ApplyEffects,
            old(registry).wf(),
            old(alloc).next() + old(queue).creations().len() <= u64::MAX,
        ensures
            final(self).phase() is Done,
            final(registry).wf(),
            final(queue).creations() == Seq::<crate::effects::CreationEffect>::empty(),
            final(queue).mutations() == Seq::<crate::effects::MutationEffect>::empty(),
            final(queue).messages() == old(queue).messages(),
            ({
                let mc = apply_creations_model(
                    old(registry)@,
                    old(alloc).next(),
                    old(queue).creations(),
                );
                let mm = apply_mutations_model(mc.reg, old(queue).mutations());
                out.creation_ops@ == mc.ops && out.mutation_ops@ == mm.ops && final(registry)@
                    == mm.reg && final(alloc).next() == mc.next
                    && final(self).diagnostics().len() == old(self).diagnostics().len() + mc.diags
                    + mm.diags
            }),
            final(self).diagnostics().subrange(0, old(self).diagnostics().len() as int) == old(
                self,
            ).diagnostics(),
            final(self).raw() == old(self).raw(),
            final(self).mapped() == old(self).mapped(),
            final(self).game() == old(self).game(),
            final(self).delta_time_bits() == old(self).delta_time_bits(),
            final(self).ui_trigger() == old(self).ui_trigger(),
    {
        let ghost pre = self.diagnostics@;
        let drained = queue.drain();
        let creations = drained.0;
        let mutations = drained.1;
        let creation_ops = apply_creations(registry, alloc, creations, &mut self.diagnostics);
        let ghost mid = self.diagnostics@;
        let mutation_ops = apply_mutations(registry, mutations, &mut self.diagnostics);
        self.phase = TickPhase::Done;
        proof {
            assert(self.diagnostics@.subrange(0, pre.len() as int) =~= mid.subrange(
                0,
                pre.len() as int,
            ));
        }
        TickOutput { creation_ops, mutation_ops }
    }

    /// The mapped input the driver hands to the guest's `update` call.
    pub fn mapped_input(&self) -> (r: InputState)
        ensures
            r == self.mapped(),
    {
        self.mapped
    }

    /// The game state as of this point of the tick.
    pub fn game_state(&self) -> (r: PlayerState)
        ensures
            r == self.game(),
    {
        self.game
    }

    /// The elapsed-time bits the driver hands to the guest's `update` call.
    pub fn delta_bits(&self) -> (r: u32)
        ensures
            r == self.delta_time_bits(),
    {
        self.delta_time_bits
    }

    /// Whether the driver owes the guest an `on_ui_event` call this tick.
    pub fn needs_ui_event(&self) -> (r: bool)
        ensures
            r == (self.phase() is UiEvent),
    {
        match self.phase {
            TickPhase::UiEvent => true,
            _ => false,
        }
    }

    /// Hands the tick's diagnostics to the driver's sink once the tick is
    /// complete, leaving the session empty.
    pub fn take_diagnostics(&mut self) -> (r: Vec<Diagnostic>)
        requires
            old(self).phase() is Done,
        ensures
            r@ == old(self).diagnostics(),
            final(self).diagnostics() == Seq::<Diagnostic>::empty(),
            final(self).phase() == old(self).phase(),
            final(self).game() == old(self).game(),
    {
        let mut out: Vec<Diagnostic> = Vec::new();
        core::mem::swap(&mut out, &mut self.diagnostics);
        out
    }
}

/// The fixed event name the host passes to `on_ui_event` when the tick's
/// UI toggle trigger fires.
pub fn ui_toggle_event_name() -> (s: String)
    ensures
        s@ == "toggle_panel"@,
{
    "toggle_panel".to_owned()
}

} // verus!
