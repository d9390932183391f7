use vstd::prelude::*;

verus! {

/// Where a voice handle is in its life.
#[derive(Clone, Copy, Debug, PartialEq, Eq, Structural)]
pub enum VoiceState {
    /// The engine made the voice; no handle owns it yet.
    Created,
    /// A handle owns the voice and it may be used.
    Live,
    /// The handle asked the engine to take the voice out of its graph.
    Destroying,
    /// The engine removed the voice; no further callback fires for it.
    Gone,
}

/// What happens to a voice.
#[derive(Clone, Copy, Debug, PartialEq, Eq, Structural)]
pub enum VoiceEvent {
    /// A handle took ownership of the voice.
    Bound,
    /// The handle was destroyed or dropped.
    DestroyRequested,
    /// The engine's synchronous removal of the voice returned.
    GraphRemoved,
    /// The engine's worker thread invokes one of the voice's callbacks.
    Callback,
}

/// What the owner of the handle does next.
#[derive(Clone, Copy, Debug, PartialEq, Eq, Structural)]
pub enum VoiceAction {
    Nothing,
    /// Instruct the engine to remove the voice from its graph, blocking until it is quiescent.
    RemoveFromGraph,
    /// Free the callback wrapper the voice was created with.
    ReleaseWrapper,
    /// Run the callback against the wrapper.
    DeliverCallback,
    /// Touch nothing: the wrapper may be gone.
    IgnoreCallback,
}

/// One step of a voice's life. `scoped` says whether the callback wrapper lives only as long as
/// the voice (otherwise it was leaked on purpose and is never freed).
pub open spec fn voice_step_view(state: VoiceState, scoped: bool, event: VoiceEvent) -> (VoiceState, VoiceAction) {
    match (state, event) {
        (VoiceState::Created, VoiceEvent::Bound) => (VoiceState::Live, VoiceAction::Nothing),
        (VoiceState::Created, VoiceEvent::DestroyRequested) => (VoiceState::Destroying, VoiceAction::RemoveFromGraph),
        (VoiceState::Live, VoiceEvent::DestroyRequested) => (VoiceState::Destroying, VoiceAction::RemoveFromGraph),
        (VoiceState::Destroying, VoiceEvent::GraphRemoved) => (
            VoiceState::Gone,
            if scoped { VoiceAction::ReleaseWrapper } else { VoiceAction::Nothing },
        ),
        (VoiceState::Gone, VoiceEvent::Callback) => (VoiceState::Gone, VoiceAction::IgnoreCallback),
        (_, VoiceEvent::Callback) => (state, VoiceAction::DeliverCallback),
        _ => (state, VoiceAction::Nothing),
    }
}

/// The state and the actions after a sequence of events.
pub open spec fn voice_run(state: VoiceState, scoped: bool, events: Seq<VoiceEvent>) -> (VoiceState, Seq<VoiceAction>)
    decreases events.len(),
{
    if events.len() == 0 {
        (state, Seq::empty())
    } else {
        let (mid, actions) = voice_run(state, scoped, events.drop_last());
        let (next, action) = voice_step_view(mid, scoped, events.last());
        (next, actions.push(action))
    }
}

/// Computes one step of a voice's life; see [`voice_step_view`].
pub fn voice_step(state: VoiceState, scoped: bool, event: VoiceEvent) -> (r: (VoiceState, VoiceAction))
    ensures
        r == voice_step_view(state, scoped, event),
{
    match (state, event) {
        (VoiceState::Created, VoiceEvent::Bound) => (VoiceState::Live, VoiceAction::Nothing),
        (VoiceState::Created, VoiceEvent::DestroyRequested) => (VoiceState::Destroying, VoiceAction::RemoveFromGraph),
        (VoiceState::Live, VoiceEvent::DestroyRequested) => (VoiceState::Destroying, VoiceAction::RemoveFromGraph),
        (VoiceState::Destroying, VoiceEvent::GraphRemoved) => (
            VoiceState::Gone,
            if scoped { VoiceAction::ReleaseWrapper } else { VoiceAction::Nothing },
        ),
        (VoiceState::Gone, VoiceEvent::Callback) => (VoiceState::Gone, VoiceAction::IgnoreCallback),
        (_, VoiceEvent::Callback) => (state, VoiceAction::DeliverCallback),
        _ => (state, VoiceAction::Nothing),
    }
}

/// The life of one voice handle: its state and whether its callback wrapper is scoped to it.
pub struct VoiceLifecycle {
    state: VoiceState,
    scoped: bool,
}

impl VoiceLifecycle {
    /// A voice the engine just made.
    pub fn new(scoped: bool) -> (r: Self)
        ensures
            r.state() == VoiceState::Created,
            r.scoped() == scoped,
    {
        VoiceLifecycle { state: VoiceState::Created, scoped }
    }

    pub closed spec fn state(&self) -> VoiceState {
        self.state
    }

    pub closed spec fn scoped(&self) -> bool {
        self.scoped
    }

    pub fn current(&self) -> (r: VoiceState)
        ensures
            r == self.state(),
    {
        self.state
    }

    /// Applies one event and returns what to do.
    pub fn step(&mut self, event: VoiceEvent) -> (r: VoiceAction)
        ensures
            final(self).scoped() == old(self).scoped(),
            (final(self).state(), r) == voice_step_view(old(self).state(), old(self).scoped(), event),
    {
        let (next, action) = voice_step(self.state, self.scoped, event);
        self.state = next;
        action
    }

    /// The teardown of a live handle, in the order it must happen: the engine removes the
    /// voice (blocking until no callback for it runs), and only then is a scoped wrapper freed.
    pub fn teardown(&mut self) -> (r: Vec<VoiceAction>)
        requires
            old(self).state() == VoiceState::Live,
        ensures
            final(self).state() == VoiceState::Gone,
            final(self).scoped() == old(self).scoped(),
            r@ == if old(self).scoped() {
                seq![VoiceAction::RemoveFromGraph, VoiceAction::ReleaseWrapper]
            } else {
                seq![VoiceAction::RemoveFromGraph]
            },
    {
        let mut actions: Vec<VoiceAction> = Vec::new();
        let first = self.step(VoiceEvent::DestroyRequested);
        actions.push(first);
        let second = self.step(VoiceEvent::GraphRemoved);
        if self.scoped {
            actions.push(second);
        }
        proof {
            if old(self).scoped() {
                assert(actions@ =~= seq![VoiceAction::RemoveFromGraph, VoiceAction::ReleaseWrapper]);
            } else {
                assert(actions@ =~= seq![VoiceAction::RemoveFromGraph]);
            }
        }
        actions
    }
}

/// Every release of the wrapper comes after an instruction to remove the voice.
pub open spec fn released_after_removal(acts: Seq<VoiceAction>) -> bool {
    forall|i: int|
        0 <= i < acts.len() && #[trigger] acts[i] == VoiceAction::ReleaseWrapper
            ==> acts.subrange(0, i).contains(VoiceAction::RemoveFromGraph)
}

/// No callback is delivered after the wrapper was released.
pub open spec fn no_delivery_after_release(acts: Seq<VoiceAction>) -> bool {
    forall|i: int, j: int|
        #![trigger acts[i], acts[j]]
        0 <= i < j < acts.len() && acts[i] == VoiceAction::ReleaseWrapper
            ==> acts[j] != VoiceAction::DeliverCallback
}

proof fn lemma_run_facts(scoped: bool, events: Seq<VoiceEvent>)
    ensures
        voice_run(VoiceState::Created, scoped, events).1.len() == events.len(),
        released_after_removal(voice_run(VoiceState::Created, scoped, events).1),
        no_delivery_after_release(voice_run(VoiceState::Created, scoped, events).1),
        voice_run(VoiceState::Created, scoped, events).1.contains(VoiceAction::ReleaseWrapper)
            ==> voice_run(VoiceState::Created, scoped, events).0 == VoiceState::Gone,
        (voice_run(VoiceState::Created, scoped, events).0 == VoiceState::Gone
            || voice_run(VoiceState::Created, scoped, events).0 == VoiceState::Destroying)
            ==> voice_run(VoiceState::Created, scoped, events).1.contains(VoiceAction::RemoveFromGraph),
    decreases events.len(),
{
    if events.len() > 0 {
        let prefix = events.drop_last();
        lemma_run_facts(scoped, prefix);
        let mid = voice_run(VoiceState::Created, scoped, prefix).0;
        let acts = voice_run(VoiceState::Created, scoped, prefix).1;
        let action = voice_step_view(mid, scoped, events.last()).1;
        let next = voice_step_view(mid, scoped, events.last()).0;
        let all = acts.push(action);
        assert(voice_run(VoiceState::Created, scoped, events).1 == all);
        assert(voice_run(VoiceState::Created, scoped, events).0 == next);
        let n = acts.len() as int;
        assert forall|i: int|
            0 <= i < all.len() && #[trigger] all[i] == VoiceAction::ReleaseWrapper
                implies all.subrange(0, i).contains(VoiceAction::RemoveFromGraph) by {
            if i < n {
                assert(acts[i] == VoiceAction::ReleaseWrapper);
                assert(all.subrange(0, i) =~= acts.subrange(0, i));
            } else {
                assert(all.subrange(0, i) =~= acts);
            }
        }
        assert forall|i: int, j: int|
            #![trigger all[i], all[j]]
            0 <= i < j < all.len() && all[i] == VoiceAction::ReleaseWrapper
                implies all[j] != VoiceAction::DeliverCallback by {
            assert(acts[i] == VoiceAction::ReleaseWrapper);
            if j < n {
                assert(all[j] == acts[j]);
            } else {
                assert(acts.contains(VoiceAction::ReleaseWrapper));
            }
        }
        if all.contains(VoiceAction::ReleaseWrapper) {
            let i = choose|i: int| 0 <= i < all.len() && all[i] == VoiceAction::ReleaseWrapper;
            if i < n {
                assert(acts[i] == VoiceAction::ReleaseWrapper);
                assert(acts.contains(VoiceAction::ReleaseWrapper));
            }
        }
        if next == VoiceState::Gone || next == VoiceState::Destroying {
            if mid == VoiceState::Gone || mid == VoiceState::Destroying {
                let k = choose|k: int| 0 <= k < acts.len() && acts[k] == VoiceAction::RemoveFromGraph;
                assert(all[k] == VoiceAction::RemoveFromGraph);
            } else {
                assert(all[n] == VoiceAction::RemoveFromGraph);
            }
        }
    }
}

/// Teardown ordering: in any life of a voice, the callback wrapper is released only after the
/// engine was told to remove the voice, and once it is released no callback is delivered
/// against it again.
pub proof fn lemma_wrapper_outlives_callbacks(scoped: bool, events: Seq<VoiceEvent>)
    ensures
        released_after_removal(voice_run(VoiceState::Created, scoped, events).1),
        no_delivery_after_release(voice_run(VoiceState::Created, scoped, events).1),
{
    lemma_run_facts(scoped, events);
}

} // verus!
