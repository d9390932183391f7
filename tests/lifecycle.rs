use thindx_xaudio2::creation::{engine_result, voice_list_counts, voice_outcome};
use thindx_xaudio2::engine_callback::{EngineCallback, EngineCallbackWrapper};
use thindx_xaudio2::error::{Error, E_NOINTERFACE};
use thindx_xaudio2::factory::{call_outcome, load_error, select_entry_point, CreateSession, CreateStep, EntryPoint, EntryPoints};
use thindx_xaudio2::guard::{disable_catch_unwind, enable_catch_unwind, GuardMode, GuardPolicy};
use thindx_xaudio2::limits::{XAUDIO2_DEFAULT_PROCESSOR, XAUDIO2_USE_DEFAULT_PROCESSOR};
use thindx_xaudio2::registry::CallbackRegistry;
use thindx_xaudio2::voice::{voice_step, VoiceAction, VoiceEvent, VoiceLifecycle, VoiceState};

use std::sync::atomic::{AtomicU32, Ordering};

struct EC {
    passes: AtomicU32,
    last_error: AtomicU32,
}

impl EngineCallback for EC {
    fn on_processing_pass_start(&self) {
        self.passes.fetch_add(1, Ordering::SeqCst);
    }
    fn on_processing_pass_end(&self) {}
    fn on_critical_error(&self, error: u32) {
        self.last_error.store(error, Ordering::SeqCst);
    }
}

#[test]
fn test() {
    // the callback is leaked for the program's lifetime; the registry keys it by identity
    let ec: &'static EngineCallbackWrapper<EC> =
        Box::leak(Box::new(EC { passes: AtomicU32::new(0), last_error: AtomicU32::new(0) }.wrap()));
    ec.on_processing_pass_end();
    let id: usize = 0x5000;
    let mut registry = CallbackRegistry::new();

    // unregistering a never-registered callback causes no problems
    assert!(!registry.unregister(id));

    // normal reg + unreg
    assert!(registry.register(id));
    assert!(registry.unregister(id));

    // double unregister causes no problems
    assert!(!registry.unregister(id));

    // double register + unregister causes no problems
    assert!(registry.register(id));
    assert!(!registry.register(id));
    assert!(registry.unregister(id));
    assert!(!registry.unregister(id));
    assert!(!registry.unregister(id));
    assert!(!registry.is_registered(id));
}

#[test]
fn registrations_are_keyed_by_identity() {
    let mut registry = CallbackRegistry::new();
    assert!(registry.register(0x1000));
    assert!(registry.register(0x2000));
    assert!(registry.unregister(0x1000));
    assert!(!registry.is_registered(0x1000));
    assert!(registry.is_registered(0x2000));
}

#[test]
fn engine_callback_dispatch() {
    let w = EngineCallbackWrapper::new(EC { passes: AtomicU32::new(0), last_error: AtomicU32::new(0) });
    w.on_processing_pass_start();
    w.on_processing_pass_start();
    w.on_processing_pass_end();
    w.on_critical_error(0x8896_0004);
    assert_eq!(w.callbacks().passes.load(Ordering::SeqCst), 2);
    assert_eq!(w.callbacks().last_error.load(Ordering::SeqCst), 0x8896_0004);
}

#[test]
fn teardown_removes_voice_before_releasing_wrapper() {
    let mut v = VoiceLifecycle::new(true);
    assert_eq!(v.step(VoiceEvent::Bound), VoiceAction::Nothing);
    assert_eq!(v.current(), VoiceState::Live);
    assert_eq!(v.teardown(), vec![VoiceAction::RemoveFromGraph, VoiceAction::ReleaseWrapper]);
    assert_eq!(v.current(), VoiceState::Gone);
    assert_eq!(v.step(VoiceEvent::Callback), VoiceAction::IgnoreCallback);

    let mut leaked = VoiceLifecycle::new(false);
    leaked.step(VoiceEvent::Bound);
    assert_eq!(leaked.teardown(), vec![VoiceAction::RemoveFromGraph]);
}

#[test]
fn interleaved_callbacks_never_reach_released_wrapper() {
    // every interleaving of callbacks with the teardown of a scoped voice
    let events = [VoiceEvent::Bound, VoiceEvent::Callback, VoiceEvent::DestroyRequested, VoiceEvent::GraphRemoved];
    let mut seed: u64 = 0x2545_F491_4F6C_DD1D;
    for _ in 0..2000 {
        let mut state = VoiceState::Created;
        let mut released = false;
        let mut removed = false;
        for _ in 0..12 {
            seed ^= seed << 13;
            seed ^= seed >> 7;
            seed ^= seed << 17;
            let e = events[(seed % 4) as usize];
            let (next, action) = voice_step(state, true, e);
            match action {
                VoiceAction::RemoveFromGraph => removed = true,
                VoiceAction::ReleaseWrapper => {
                    assert!(removed);
                    released = true;
                }
                VoiceAction::DeliverCallback => assert!(!released),
                _ => {}
            }
            state = next;
        }
    }
    assert_eq!(voice_step(VoiceState::Destroying, true, VoiceEvent::Callback), (VoiceState::Destroying, VoiceAction::DeliverCallback));
    assert_eq!(voice_step(VoiceState::Live, true, VoiceEvent::GraphRemoved), (VoiceState::Live, VoiceAction::Nothing));
}

#[test]
fn guard_policy_defaults_to_abort() {
    let mut p = GuardPolicy::new();
    assert_eq!(p.mode(), GuardMode::CatchAndAbort);
    disable_catch_unwind(&mut p);
    assert_eq!(p.mode(), GuardMode::Direct);
    enable_catch_unwind(&mut p);
    assert_eq!(p.mode(), GuardMode::CatchAndAbort);
}

#[test]
fn entry_point_preference() {
    let both = EntryPoints { create_with_version_info: true, create: true };
    assert_eq!(select_entry_point(both), Some(EntryPoint::CreateWithVersionInfo));
    let old = EntryPoints { create_with_version_info: false, create: true };
    assert_eq!(select_entry_point(old), Some(EntryPoint::Create));
    assert_eq!(select_entry_point(EntryPoints { create_with_version_info: false, create: false }), None);
}

#[test]
fn create_without_entry_points_fails_before_any_call() {
    let (_, step) = CreateSession::begin(EntryPoints { create_with_version_info: false, create: false }, None);
    assert_eq!(step, CreateStep::Failed(Error::Resolution(0x8007_007F)));
}

#[test]
fn create_falls_back_to_default_processor() {
    let ep = EntryPoints { create_with_version_info: true, create: true };
    let (mut s, step) = CreateSession::begin(ep, None);
    assert_eq!(step, CreateStep::Call(EntryPoint::CreateWithVersionInfo, XAUDIO2_USE_DEFAULT_PROCESSOR));
    let step = s.after_call(0x8896_0001, false);
    assert_eq!(step, CreateStep::Call(EntryPoint::CreateWithVersionInfo, XAUDIO2_DEFAULT_PROCESSOR));
    assert_eq!(s.after_call(0, true), CreateStep::Succeeded);

    let (mut s, _) = CreateSession::begin(ep, None);
    s.after_call(0x8896_0001, false);
    assert_eq!(s.after_call(0x8896_0001, false), CreateStep::Failed(Error::Engine(0x8896_0001)));
}

#[test]
fn create_with_requested_processor_does_not_retry() {
    let ep = EntryPoints { create_with_version_info: false, create: true };
    let (mut s, step) = CreateSession::begin(ep, Some(4));
    assert_eq!(step, CreateStep::Call(EntryPoint::Create, 4));
    assert_eq!(s.after_call(0x8896_0001, false), CreateStep::Failed(Error::Engine(0x8896_0001)));
    let (mut s, _) = CreateSession::begin(ep, Some(4));
    assert_eq!(s.after_call(0, false), CreateStep::Failed(Error::Engine(0x8007_0278)));
}

#[test]
fn load_errors_map_to_hresults() {
    assert_eq!(load_error(Some(126)), Error::Resolution(0x8007_007E));
    assert_eq!(load_error(Some(193)), Error::Resolution(0x8007_00C1));
    assert_eq!(load_error(Some(0x12_3456)), Error::Resolution(0x0012_3456));
    assert_eq!(load_error(Some(-1)), Error::Resolution(0xFFFF_FFFF));
    assert_eq!(load_error(None), Error::Resolution(0x8007_10CD));
    assert_eq!(load_error(None).hresult(), 0x8007_10CD);
}

#[test]
fn call_results_keep_engine_codes() {
    assert_eq!(call_outcome(0, true), Ok(()));
    assert_eq!(call_outcome(1, true), Ok(()));
    assert_eq!(call_outcome(0x8000_0000, true), Err(Error::Engine(0x8000_0000)));
    assert_eq!(voice_outcome(0x8896_0001, true), Err(Error::Engine(0x8896_0001)));
    assert_eq!(voice_outcome(0, false), Err(Error::Engine(E_NOINTERFACE)));
    assert_eq!(voice_outcome(0, true), Ok(()));
    assert_eq!(engine_result(0x8007_000E), Err(Error::Engine(0x8007_000E)));
    assert_eq!(engine_result(0x0000_0001), Ok(1));
    assert_eq!(Error::Engine(0x8007_000E).hresult(), 0x8007_000E);
}

#[test]
fn voice_list_counts_are_checked_in_order() {
    let big = u32::MAX as usize + 1;
    assert_eq!(voice_list_counts(None, None), Ok((None, None)));
    assert_eq!(voice_list_counts(Some(2), Some(0)), Ok((Some(2), Some(0))));
    assert_eq!(voice_list_counts(Some(big), Some(1)), Err(Error::InvalidArgument));
    assert_eq!(voice_list_counts(Some(1), Some(big)), Err(Error::InvalidArgument));
}
