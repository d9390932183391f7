use vstd::prelude::*;

verus! {

/// The engine-level notifications, for users to implement.
pub trait EngineCallback: Sized + Sync {
    /// Wraps `self` into the object registered with the engine.
    fn wrap(self) -> EngineCallbackWrapper<Self> {
        EngineCallbackWrapper { callbacks: self }
    }

    /// Called just before an audio processing pass begins.
    fn on_processing_pass_start(&self);

    /// Called just after an audio processing pass ends.
    fn on_processing_pass_end(&self);

    /// Called on a critical system error that requires the engine to be restarted; `error` is
    /// its `HRESULT`.
    fn on_critical_error(&self, error: u32);
}

/// The object registered with the engine for engine-level notifications.
pub struct EngineCallbackWrapper<EC: EngineCallback> {
    callbacks: EC,
}

impl<EC: EngineCallback> EngineCallbackWrapper<EC> {
    pub fn new(callbacks: EC) -> (r: Self)
        ensures
            r.inner() == callbacks,
    {
        EngineCallbackWrapper { callbacks }
    }

    /// The user's callbacks held by this wrapper.
    pub closed spec fn inner(&self) -> EC {
        self.callbacks
    }

    pub fn callbacks(&self) -> (r: &EC)
        ensures
            *r == self.inner(),
    {
        &self.callbacks
    }

    pub fn on_processing_pass_start(&self) {
        self.callbacks.on_processing_pass_start()
    }

    pub fn on_processing_pass_end(&self) {
        self.callbacks.on_processing_pass_end()
    }

    pub fn on_critical_error(&self, error: u32) {
        self.callbacks.on_critical_error(error)
    }
}

} // verus!
