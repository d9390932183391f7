use vstd::prelude::*;
use crate::error::Error;
use crate::limits::{XAUDIO2_LOOP_INFINITE, XAUDIO2_MAX_LOOP_COUNT, XAUDIO2_NO_LOOP_REGION};

verus! {

/// How many times a buffer's loop region repeats: `0 ..= 254`, or infinitely.
///
/// The infinite count is only made on purpose, by [`LoopCount::infinite`]; the other
/// constructors refuse it.
#[derive(Clone, Copy, Debug, Default, PartialEq, Eq, Structural, PartialOrd, Ord, Hash)]
pub struct LoopCount(u8);

impl View for LoopCount {
    type V = u8;

    closed spec fn view(&self) -> u8 {
        self.0
    }
}

impl LoopCount {
    /// No looping: the loop region is not used.
    pub fn no_loop() -> (r: LoopCount)
        ensures
            r@ as u32 == XAUDIO2_NO_LOOP_REGION,
    {
        LoopCount(XAUDIO2_NO_LOOP_REGION as u8)
    }

    /// The largest finite count of a single submission.
    pub fn max() -> (r: LoopCount)
        ensures
            r@ as u32 == XAUDIO2_MAX_LOOP_COUNT,
    {
        LoopCount(XAUDIO2_MAX_LOOP_COUNT as u8)
    }

    /// Loop forever.
    pub fn infinite() -> (r: LoopCount)
        ensures
            r@ as u32 == XAUDIO2_LOOP_INFINITE,
    {
        LoopCount(XAUDIO2_LOOP_INFINITE as u8)
    }

    /// A finite count; the infinite one cannot be made here.
    pub fn new(value: u8) -> (r: LoopCount)
        requires
            value as u32 != XAUDIO2_LOOP_INFINITE,
        ensures
            r@ == value,
    {
        LoopCount(value)
    }

    /// A finite count, or `InvalidArgument` for the value that would mean "infinite".
    pub fn try_from_u8(value: u8) -> (r: Result<LoopCount, Error>)
        ensures
            value as u32 == XAUDIO2_LOOP_INFINITE ==> r == Err::<LoopCount, Error>(Error::InvalidArgument),
            value as u32 != XAUDIO2_LOOP_INFINITE ==> (r matches Ok(c) && c@ == value),
    {
        if value as u32 == XAUDIO2_LOOP_INFINITE {
            Err(Error::InvalidArgument)
        } else {
            Ok(LoopCount(value))
        }
    }

    pub fn is_finite(&self) -> (r: bool)
        ensures
            r == (self@ as u32 != XAUDIO2_LOOP_INFINITE),
    {
        self.0 as u32 != XAUDIO2_LOOP_INFINITE
    }

    pub fn is_infinite(&self) -> (r: bool)
        ensures
            r == (self@ as u32 == XAUDIO2_LOOP_INFINITE),
    {
        self.0 as u32 == XAUDIO2_LOOP_INFINITE
    }

    /// The count if it is finite, `None` if it is infinite.
    pub fn finite(&self) -> (r: Option<u8>)
        ensures
            r == if self@ as u32 == XAUDIO2_LOOP_INFINITE { None } else { Some(self@) },
    {
        if self.is_infinite() {
            None
        } else {
            Some(self.0)
        }
    }

    /// The count as the engine's 32-bit field holds it.
    pub fn get(&self) -> (r: u32)
        ensures
            r == self@ as u32,
    {
        self.0 as u32
    }
}

impl TryFrom<u8> for LoopCount {
    type Error = Error;

    fn try_from(value: u8) -> Result<LoopCount, Error> {
        LoopCount::try_from_u8(value)
    }
}

impl vstd::std_specs::convert::TryFromSpecImpl<u8> for LoopCount {
    open spec fn obeys_try_from_spec() -> bool {
        true
    }

    closed spec fn try_from_spec(value: u8) -> Result<LoopCount, Error> {
        if value as u32 == XAUDIO2_LOOP_INFINITE {
            Err(Error::InvalidArgument)
        } else {
            Ok(LoopCount(value))
        }
    }
}

} // verus!
