use vstd::prelude::*;

verus! {

// Numeric boundaries of the engine revision this library targets. The rest of the library reads
// them from here and writes none of them out itself.

/// Loop count that leaves a buffer's loop region unused.
pub const XAUDIO2_NO_LOOP_REGION: u32 = 0;

/// Largest finite loop count of a single submission.
pub const XAUDIO2_MAX_LOOP_COUNT: u32 = 254;

/// Loop count that loops forever.
pub const XAUDIO2_LOOP_INFINITE: u32 = 255;

/// Processor selector that lets the engine choose its worker's core.
pub const XAUDIO2_USE_DEFAULT_PROCESSOR: u32 = 0x0000_0000;

/// The SDK's fixed default processor selector (processor 1).
pub const XAUDIO2_DEFAULT_PROCESSOR: u32 = 0x0000_0001;

} // verus!
