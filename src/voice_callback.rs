use vstd::prelude::*;
use crate::envelope::{cleared, slot, EnvelopeStore};

verus! {

/// The per-voice notifications of the engine, for users to implement.
///
/// `BufferContext` is the value submitted with each buffer: the non-terminal buffer
/// notifications lend it, and `on_buffer_end`, the terminal one, receives it by value.
pub trait VoiceCallback: Send + Sync + Sized + 'static {
    type BufferContext: Send + Sync + Sized + 'static;

    /// Wraps `self` into the object a voice is created with.
    fn wrap(self) -> VoiceCallbackWrapper<Self> {
        VoiceCallbackWrapper { callbacks: self }
    }

    /// Called just before this voice's processing pass begins.
    fn on_voice_processing_pass_start(&self, bytes_required: u32) {
        let _ = bytes_required;
    }

    /// Called just after this voice's processing pass ends.
    fn on_voice_processing_pass_end(&self) {
    }

    /// Called when the voice has finished a stream (its last buffer carried the end-of-stream
    /// flag).
    fn on_stream_end(&self) {
    }

    /// Called when the voice is about to start processing a buffer.
    fn on_buffer_start(&self, buffer_context: &Self::BufferContext) {
        let _ = buffer_context;
    }

    /// Called once per accepted buffer, when the voice is done with it (played or flushed).
    fn on_buffer_end(&self, buffer_context: Self::BufferContext) {
        let _ = buffer_context;
    }

    /// Called when the voice reaches the end of a loop region.
    fn on_loop_end(&self, buffer_context: &Self::BufferContext) {
        let _ = buffer_context;
    }

    /// Called on a critical error while processing the buffer; `error` is its `HRESULT`.
    fn on_voice_error(&self, buffer_context: &Self::BufferContext, error: u32);
}

/// The object a voice is created with: the user's callbacks, reached by the trampolines that
/// the engine calls with the buffer tokens of the voice's envelope store.
pub struct VoiceCallbackWrapper<VC: VoiceCallback> {
    callbacks: VC,
}

impl<VC: VoiceCallback> VoiceCallbackWrapper<VC> {
    pub fn new(callbacks: VC) -> (r: Self)
        ensures
            r.inner() == callbacks,
    {
        VoiceCallbackWrapper { callbacks }
    }

    /// The user's callbacks held by this wrapper.
    pub closed spec fn inner(&self) -> VC {
        self.callbacks
    }

    pub fn callbacks(&self) -> (r: &VC)
        ensures
            *r == self.inner(),
    {
        &self.callbacks
    }

    pub fn on_voice_processing_pass_start(&self, bytes_required: u32) {
        self.callbacks.on_voice_processing_pass_start(bytes_required)
    }

    pub fn on_voice_processing_pass_end(&self) {
        self.callbacks.on_voice_processing_pass_end()
    }

    pub fn on_stream_end(&self) {
        self.callbacks.on_stream_end()
    }

    /// Lends the context under `token` to `on_buffer_start`; the envelope stays where it is.
    /// Returns whether the token held an envelope, that is whether the callback ran.
    pub fn on_buffer_start<A>(&self, store: &EnvelopeStore<A, VC::BufferContext>, token: usize) -> (delivered: bool)
        ensures
            delivered == slot(store@, token as int) is Some,
    {
        match store.borrow(token) {
            Some(context) => {
                self.callbacks.on_buffer_start(context);
                true
            },
            None => false,
        }
    }

    /// The terminal notification: reclaims the envelope under `token`, hands its context to
    /// `on_buffer_end` and drops the sample data's keep-alive handle. Returns whether the
    /// token held an envelope; a token reclaimed already is left alone.
    pub fn on_buffer_end<A>(&self, store: &mut EnvelopeStore<A, VC::BufferContext>, token: usize) -> (delivered: bool)
        requires
            old(store).wf(),
        ensures
            final(store).wf(),
            delivered == slot(old(store)@, token as int) is Some,
            final(store)@ == cleared(old(store)@, token as int),
            final(store).submitted_count() == old(store).submitted_count(),
            final(store).reclaimed_count() == old(store).reclaimed_count() + if delivered { 1nat } else { 0nat },
    {
        match store.reclaim(token) {
            Some(envelope) => {
                self.callbacks.on_buffer_end(envelope.context);
                true
            },
            None => false,
        }
    }

    /// Lends the context under `token` to `on_loop_end`. Returns whether the callback ran.
    pub fn on_loop_end<A>(&self, store: &EnvelopeStore<A, VC::BufferContext>, token: usize) -> (delivered: bool)
        ensures
            delivered == slot(store@, token as int) is Some,
    {
        match store.borrow(token) {
            Some(context) => {
                self.callbacks.on_loop_end(context);
                true
            },
            None => false,
        }
    }

    /// Lends the context under `token` to `on_voice_error`. Returns whether the callback ran.
    pub fn on_voice_error<A>(&self, store: &EnvelopeStore<A, VC::BufferContext>, token: usize, error: u32) -> (delivered: bool)
        ensures
            delivered == slot(store@, token as int) is Some,
    {
        match store.borrow(token) {
            Some(context) => {
                self.callbacks.on_voice_error(context, error);
                true
            },
            None => false,
        }
    }
}

} // verus!
