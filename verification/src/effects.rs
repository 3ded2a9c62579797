//! Effect logs recorded while a guest call is on the stack.
//!
//! During a tick the guest may call back into the host's effect API.  Those
//! handlers must never touch the scene graph directly — the call stack they
//! run on is not a safe place to mutate it.  Instead every handler appends a
//! record of the requested effect to one of two ordered logs owned by the
//! execution context, and the orchestrator drains and applies the logs after
//! the guest call has returned.

use vstd::prelude::*;

use crate::contract::{PanelConfig, TextConfig};

verus! {

/// A recorded request to create a scene object.  Appended by a host effect
/// handler during a guest call, consumed exactly once by the orchestrator,
/// never mutated in between.
pub enum CreationEffect {
    Panel(PanelConfig),
    Text(TextConfig),
}

/// A recorded request to mutate or destroy an existing scene object,
/// addressed by its guest-visible name.
pub enum MutationEffect {
    Remove { name: String },
    SetVisible { name: String, visible: bool },
}

/// The two ordered effect logs plus the guest's diagnostic messages.
/// This is the host-side state a guest call may append to; nothing here is
/// applied until the orchestrator drains it.
pub struct EffectQueue {
    creation_log: Vec<CreationEffect>,
    mutation_log: Vec<MutationEffect>,
    message_log: Vec<String>,
}

impl EffectQueue {
    /// The creation effects recorded so far, oldest first.
    pub closed spec fn creations(&self) -> Seq<CreationEffect> {
        self.creation_log@
    }

    /// The mutation effects recorded so far, oldest first.
    pub closed spec fn mutations(&self) -> Seq<MutationEffect> {
        self.mutation_log@
    }

    /// The guest log messages recorded so far, oldest first.
    pub closed spec fn messages(&self) -> Seq<String> {
        self.message_log@
    }

    /// An empty queue, as the execution context starts each tick with.
    pub fn new() -> (q: EffectQueue)
        ensures
            q.creations() == Seq::<CreationEffect>::empty(),
            q.mutations() == Seq::<MutationEffect>::empty(),
            q.messages() == Seq::<String>::empty(),
    {
        EffectQueue { creation_log: Vec::new(), mutation_log: Vec::new(), message_log: Vec::new() }
    }

    /// Host handler for the guest's `create_panel` call: records the intent,
    /// touches nothing else.
    pub fn create_panel(&mut self, config: PanelConfig)
        ensures
            final(self).creations() == old(self).creations().push(CreationEffect::Panel(config)),
            final(self).mutations() == old(self).mutations(),
            final(self).messages() == old(self).messages(),
    {
        self.creation_log.push(CreationEffect::Panel(config));
    }

    /// Host handler for the guest's `create_text` call: records the intent,
    /// touches nothing else.
    pub fn create_text(&mut self, config: TextConfig)
        ensures
            final(self).creations() == old(self).creations().push(CreationEffect::Text(config)),
            final(self).mutations() == old(self).mutations(),
            final(self).messages() == old(self).messages(),
    {
        self.creation_log.push(CreationEffect::Text(config));
    }

    /// Host handler for the guest's `remove` call: records the intent,
    /// touches nothing else.
    pub fn remove(&mut self, name: String)
        ensures
            final(self).mutations() == old(self).mutations().push(MutationEffect::Remove { name }),
            final(self).creations() == old(self).creations(),
            final(self).messages() == old(self).messages(),
    {
        self.mutation_log.push(MutationEffect::Remove { name });
    }

    /// Host handler for the guest's `set_visible` call: records the intent,
    /// touches nothing else.
    pub fn set_visible(&mut self, name: String, visible: bool)
        ensures
            final(self).mutations() == old(self).mutations().push(
                MutationEffect::SetVisible { name, visible },
            ),
            final(self).creations() == old(self).creations(),
            final(self).messages() == old(self).messages(),
    {
        self.mutation_log.push(MutationEffect::SetVisible { name, visible });
    }

    /// Host handler for the guest's `log` call: records the message for the
    /// diagnostic sink.  Never fails.
    pub fn log(&mut self, message: String)
        ensures
            final(self).messages() == old(self).messages().push(message),
            final(self).creations() == old(self).creations(),
            final(self).mutations() == old(self).mutations(),
    {
        self.message_log.push(message);
    }

    /// How many creation effects are waiting to be drained.
    pub fn creation_count(&self) -> (n: usize)
        ensures
            n == self.creations().len(),
    {
        self.creation_log.len()
    }

    /// Atomically moves both effect logs out for the orchestrator's apply
    /// phase, leaving the context's logs empty for the next tick.
    pub fn drain(&mut self) -> (r: (Vec<CreationEffect>, Vec<MutationEffect>))
        ensures
            r.0@ == old(self).creations(),
            r.1@ == old(self).mutations(),
            final(self).creations() == Seq::<CreationEffect>::empty(),
            final(self).mutations() == Seq::<MutationEffect>::empty(),
            final(self).messages() == old(self).messages(),
    {
        let mut creations: Vec<CreationEffect> = Vec::new();
        let mut mutations: Vec<MutationEffect> = Vec::new();
        core::mem::swap(&mut creations, &mut self.creation_log);
        core::mem::swap(&mut mutations, &mut self.mutation_log);
        (creations, mutations)
    }

    /// Moves the recorded guest log messages out for the diagnostic sink.
    pub fn take_messages(&mut self) -> (r: Vec<String>)
        ensures
            r@ == old(self).messages(),
            final(self).messages() == Seq::<String>::empty(),
            final(self).creations() == old(self).creations(),
            final(self).mutations() == old(self).mutations(),
    {
        let mut messages: Vec<String> = Vec::new();
        core::mem::swap(&mut messages, &mut self.message_log);
        messages
    }
}

} // verus!
