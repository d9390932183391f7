use std::sync::atomic::{AtomicUsize, Ordering};

use thindx_xaudio2::buffer::{plan_submission, BufferWma, RawBuffer};
use thindx_xaudio2::creation::list_count;
use thindx_xaudio2::envelope::EnvelopeStore;
use thindx_xaudio2::error::Error;
use thindx_xaudio2::loop_count::LoopCount;
use thindx_xaudio2::sample_range::SampleRange;
use thindx_xaudio2::submission::{complete_submission, prepare_submission};
use thindx_xaudio2::voice_callback::{VoiceCallback, VoiceCallbackWrapper};

fn range(a: u32, b: u32) -> SampleRange {
    SampleRange::try_from_range(a, b).unwrap()
}

#[test]
fn plan_full_play_range() {
    let b = plan_submission(0x40, 400, SampleRange::full(), SampleRange::full(), LoopCount::no_loop()).unwrap().unwrap();
    assert_eq!(
        b,
        RawBuffer { Flags: 0x40, AudioBytes: 400, PlayBegin: 0, PlayLength: 0, LoopBegin: 0, LoopLength: 0, LoopCount: 0 }
    );
}

#[test]
fn plan_with_loop_region() {
    let b = plan_submission(0, 1000, range(10, 110), range(20, 60), LoopCount::new(3)).unwrap().unwrap();
    assert_eq!(
        b,
        RawBuffer { Flags: 0, AudioBytes: 1000, PlayBegin: 10, PlayLength: 100, LoopBegin: 20, LoopLength: 40, LoopCount: 3 }
    );
    let b = plan_submission(0, 1000, range(10, 110), SampleRange::full(), LoopCount::infinite()).unwrap().unwrap();
    assert_eq!((b.LoopBegin, b.LoopLength, b.LoopCount), (0, 0, 255));
}

#[test]
fn zero_loop_count_disables_loop_region() {
    let b = plan_submission(0, 1000, SampleRange::full(), range(20, 60), LoopCount::no_loop()).unwrap().unwrap();
    assert_eq!((b.LoopBegin, b.LoopLength, b.LoopCount), (0, 0, 0));
    let b = plan_submission(0, 1000, SampleRange::full(), SampleRange::empty(), LoopCount::new(5)).unwrap().unwrap();
    assert_eq!((b.LoopBegin, b.LoopLength, b.LoopCount), (0, 0, 0));
}

#[test]
fn empty_play_range_is_no_submission() {
    assert_eq!(plan_submission(0, 64, SampleRange::empty(), range(0, 4), LoopCount::new(1)), Ok(None));
    let mut store: EnvelopeStore<Vec<u8>, u32> = EnvelopeStore::new();
    let r = prepare_submission(&mut store, 0, vec![0u8; 64], 64, range(3, 3), SampleRange::full(), LoopCount::no_loop(), 9);
    assert_eq!(r, Ok(None));
    assert_eq!(store.submitted(), 0);
    assert_eq!(store.held(), 0);
}

#[test]
fn oversized_data_is_rejected() {
    let too_big = u32::MAX as usize + 1;
    assert_eq!(plan_submission(0, too_big, SampleRange::full(), SampleRange::full(), LoopCount::no_loop()), Err(Error::InvalidArgument));
    assert_eq!(plan_submission(0, too_big, SampleRange::empty(), SampleRange::full(), LoopCount::no_loop()), Err(Error::InvalidArgument));
    assert_eq!(plan_submission(0, u32::MAX as usize, SampleRange::full(), SampleRange::full(), LoopCount::no_loop()).unwrap().unwrap().AudioBytes, u32::MAX);
    assert_eq!(list_count(too_big), Err(Error::InvalidArgument));
    assert_eq!(list_count(7), Ok(7));
}

#[test]
fn wma_packet_count() {
    let table = [10u32, 20, 30];
    assert_eq!(BufferWma { DecodedPacketCumulativeBytes: &table }.packet_count(), Ok(3));
    assert_eq!(BufferWma { DecodedPacketCumulativeBytes: &[] }.packet_count(), Ok(0));
}

#[test]
fn envelope_reclaimed_once() {
    let mut store: EnvelopeStore<Vec<u8>, &str> = EnvelopeStore::new();
    let t0 = store.transfer(vec![1, 2], "a");
    let t1 = store.transfer(vec![3], "b");
    assert_eq!((t0, t1), (0, 1));
    assert_eq!(store.borrow(t1), Some(&"b"));
    let e = store.reclaim(t0).unwrap();
    assert_eq!((e.audio, e.context), (vec![1, 2], "a"));
    assert!(store.reclaim(t0).is_none());
    assert!(store.borrow(t0).is_none());
    assert!(store.reclaim(99).is_none());
    assert_eq!((store.submitted(), store.reclaimed(), store.held()), (2, 1, 1));
    // a freed slot is handed out again
    assert_eq!(store.transfer(vec![], "c"), 0);
}

#[test]
fn flush_balances_terminal_reclaims() {
    let mut store: EnvelopeStore<(), u32> = EnvelopeStore::new();
    for i in 0..5u32 {
        store.transfer((), i);
    }
    store.reclaim(1);
    store.reclaim(3);
    let flushed = store.reclaim_all();
    let contexts: Vec<u32> = flushed.into_iter().map(|e| e.context).collect();
    assert_eq!(contexts, vec![0, 2, 4]);
    assert_eq!(store.held(), 0);
    assert_eq!(store.submitted(), 5);
    assert_eq!(store.reclaimed(), 5);
}

#[test]
fn refused_submission_is_taken_back() {
    let mut store: EnvelopeStore<Vec<u8>, u8> = EnvelopeStore::new();
    let (b, token) = prepare_submission(&mut store, 0, vec![0u8; 8], 8, SampleRange::full(), SampleRange::full(), LoopCount::no_loop(), 1)
        .unwrap()
        .unwrap();
    assert_eq!(b.AudioBytes, 8);
    assert_eq!(store.held(), 1);
    assert_eq!(complete_submission(&mut store, token, 0x8896_0001), Err(Error::Engine(0x8896_0001)));
    assert_eq!((store.submitted(), store.reclaimed(), store.held()), (0, 0, 0));
    let (_, token) = prepare_submission(&mut store, 0, vec![0u8; 8], 8, SampleRange::full(), SampleRange::full(), LoopCount::no_loop(), 2)
        .unwrap()
        .unwrap();
    assert_eq!(complete_submission(&mut store, token, 0), Ok(0));
    assert_eq!((store.submitted(), store.held()), (1, 1));
}

struct Counting {
    starts: AtomicUsize,
    ends: AtomicUsize,
    loops: AtomicUsize,
    errors: AtomicUsize,
    last_end: AtomicUsize,
}

impl VoiceCallback for Counting {
    type BufferContext = usize;
    fn on_buffer_start(&self, _c: &usize) {
        self.starts.fetch_add(1, Ordering::SeqCst);
    }
    fn on_buffer_end(&self, c: usize) {
        self.ends.fetch_add(1, Ordering::SeqCst);
        self.last_end.store(c, Ordering::SeqCst);
    }
    fn on_loop_end(&self, _c: &usize) {
        self.loops.fetch_add(1, Ordering::SeqCst);
    }
    fn on_voice_error(&self, _c: &usize, _error: u32) {
        self.errors.fetch_add(1, Ordering::SeqCst);
    }
}

fn counting() -> Counting {
    Counting {
        starts: AtomicUsize::new(0),
        ends: AtomicUsize::new(0),
        loops: AtomicUsize::new(0),
        errors: AtomicUsize::new(0),
        last_end: AtomicUsize::new(0),
    }
}

#[test]
fn terminal_callbacks_equal_accepted_submissions() {
    let wrapper = VoiceCallbackWrapper::new(counting());
    let mut store: EnvelopeStore<Vec<i16>, usize> = EnvelopeStore::new();
    let mut tokens = Vec::new();
    for i in 0..6usize {
        let audio = vec![0i16; 4];
        let (_, token) = prepare_submission(&mut store, 0, audio, 8, SampleRange::full(), SampleRange::full(), LoopCount::no_loop(), i)
            .unwrap()
            .unwrap();
        tokens.push(token);
    }
    // two buffers play to the end, with their start and loop notifications
    for &t in &tokens[..2] {
        assert!(wrapper.on_buffer_start(&store, t));
        assert!(wrapper.on_loop_end(&store, t));
        assert!(wrapper.on_buffer_end(&mut store, t));
    }
    assert_eq!(wrapper.callbacks().last_end.load(Ordering::SeqCst), 1);
    // a repeated terminal notification reaches nothing
    assert!(!wrapper.on_buffer_end(&mut store, tokens[0]));
    assert!(!wrapper.on_buffer_start(&store, tokens[0]));
    assert!(wrapper.on_voice_error(&store, tokens[2], 0x8896_0002));
    // a flush ends the rest, each once
    for t in tokens[2..].iter().copied() {
        assert!(wrapper.on_buffer_end(&mut store, t));
    }
    let c = wrapper.callbacks();
    assert_eq!(c.ends.load(Ordering::SeqCst), 6);
    assert_eq!(c.starts.load(Ordering::SeqCst), 2);
    assert_eq!(c.loops.load(Ordering::SeqCst), 2);
    assert_eq!(c.errors.load(Ordering::SeqCst), 1);
    assert_eq!(store.submitted(), store.reclaimed());
}
