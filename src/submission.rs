use vstd::prelude::*;
use crate::buffer::{plan_submission, submission_view, RawBuffer};
use crate::creation::engine_result;
use crate::envelope::{cleared, first_free, placed, slot, Envelope, EnvelopeStore};
use crate::error::Error;
use crate::factory::failed_view;
use crate::loop_count::LoopCount;
use crate::sample_range::SampleRange;

verus! {

/// Prepares one submission on a voice: plans the engine descriptor and, when there is
/// something to submit, moves the envelope (sample data keep-alive and context) into the
/// voice's store.
///
/// Returns the descriptor and the token that goes to the engine with it. An argument error
/// and an empty play region leave the store untouched: no envelope is made for them.
pub fn prepare_submission<A, C>(
    store: &mut EnvelopeStore<A, C>,
    flags: u32,
    audio: A,
    audio_bytes: usize,
    play_range: SampleRange,
    loop_range: SampleRange,
    loop_count: LoopCount,
    context: C,
) -> (r: Result<Option<(RawBuffer, usize)>, Error>)
    requires
        old(store).wf(),
        old(store).submitted_count() < u64::MAX,
    ensures
        final(store).wf(),
        match submission_view(flags, audio_bytes, play_range@, loop_range@, loop_count@) {
            Err(e) => r == Err::<Option<(RawBuffer, usize)>, Error>(e) && *final(store) == *old(store),
            Ok(None) => r == Ok::<Option<(RawBuffer, usize)>, Error>(None) && *final(store) == *old(store),
            Ok(Some(b)) => r == Ok::<Option<(RawBuffer, usize)>, Error>(Some((b, first_free(old(store)@) as usize)))
                && final(store)@ == placed(old(store)@, first_free(old(store)@), Envelope { audio, context })
                && final(store).submitted_count() == old(store).submitted_count() + 1
                && final(store).reclaimed_count() == old(store).reclaimed_count(),
        },
{
    match plan_submission(flags, audio_bytes, play_range, loop_range, loop_count) {
        Err(e) => Err(e),
        Ok(None) => Ok(None),
        Ok(Some(b)) => {
            let token = store.transfer(audio, context);
            Ok(Some((b, token)))
        },
    }
}

/// Completes a submission with the `HRESULT` of the engine's submit call. When the engine
/// refused the buffer, its envelope is taken back and dropped here, as the engine never
/// owned it; the engine's code is returned verbatim.
pub fn complete_submission<A, C>(store: &mut EnvelopeStore<A, C>, token: usize, hr: u32) -> (r: Result<u32, Error>)
    requires
        old(store).wf(),
        slot(old(store)@, token as int) is Some,
    ensures
        final(store).wf(),
        failed_view(hr) ==> r == Err::<u32, Error>(Error::Engine(hr))
            && final(store)@ == cleared(old(store)@, token as int)
            && final(store).submitted_count() + 1 == old(store).submitted_count()
            && final(store).reclaimed_count() == old(store).reclaimed_count(),
        !failed_view(hr) ==> r == Ok::<u32, Error>(hr) && *final(store) == *old(store),
{
    let r = engine_result(hr);
    if r.is_err() {
        let _refused = store.retract(token);
    }
    r
}

} // verus!
