use vstd::prelude::*;
use crate::error::Error;

verus! {

/// A `(begin, length)` region of a buffer, measured in samples.
///
/// `(0, 0)` is the full buffer and `(1, 0)` the empty region; any other value is the explicit
/// region `begin .. begin + length` with `length > 0`.
#[derive(Clone, Copy, Debug, Default, PartialEq, Eq, Structural, PartialOrd, Ord, Hash)]
pub struct SampleRange {
    begin: u32,
    length: u32,
}

/// The region `start .. end` of an explicit range, with `start < end`.
pub open spec fn explicit_view(start: u32, end: u32) -> (u32, u32) {
    (start, (end - start) as u32)
}

/// Whether a `(begin, length)` pair is the empty region.
pub open spec fn is_empty_view(v: (u32, u32)) -> bool {
    v.1 == 0 && v.0 != 0
}

/// Whether a `(begin, length)` pair is the full buffer.
pub open spec fn is_full_view(v: (u32, u32)) -> bool {
    v.0 == 0 && v.1 == 0
}

/// What a range of the `start .. end` form becomes.
pub open spec fn range_view(start: u32, end: u32) -> Result<(u32, u32), Error> {
    if end < start {
        Err(Error::InvalidArgument)
    } else if end == start {
        Ok((1u32, 0u32))
    } else {
        Ok(explicit_view(start, end))
    }
}

/// The explicit bounds `(start, end)` of a region, or `None` for the full and empty ones.
pub open spec fn bounds_view(v: (u32, u32)) -> Option<(u32, u32)> {
    if v.1 == 0 {
        None
    } else {
        Some((v.0, (v.0 + v.1) as u32))
    }
}

impl View for SampleRange {
    type V = (u32, u32);

    closed spec fn view(&self) -> (u32, u32) {
        (self.begin, self.length)
    }
}

impl SampleRange {
    #[verifier::type_invariant]
    spec fn fits(self) -> bool {
        self.begin + self.length <= u32::MAX
    }

    /// The whole buffer (`..`).
    pub fn full() -> (r: SampleRange)
        ensures
            r@ == (0u32, 0u32),
    {
        SampleRange { begin: 0, length: 0 }
    }

    /// The empty region: a buffer submitted with it is not submitted at all.
    pub fn empty() -> (r: SampleRange)
        ensures
            r@ == (1u32, 0u32),
    {
        SampleRange { begin: 1, length: 0 }
    }

    pub fn is_empty(&self) -> (r: bool)
        ensures
            r == is_empty_view(self@),
    {
        self.length == 0 && self.begin != 0
    }

    /// The `(begin, length)` fields for the engine, or `None` for the empty region.
    ///
    /// The full buffer becomes `(0, 0)`, which the engine reads as "all of it".
    pub fn into_raw_begin_length(&self) -> (r: Option<(u32, u32)>)
        ensures
            r == if is_empty_view(self@) { None } else { Some(self@) },
    {
        if self.is_empty() {
            None
        } else {
            Some((self.begin, self.length))
        }
    }

    /// The explicit bounds `(start, end)` of this region, or `None` for the full and empty ones.
    pub fn explicit_bounds(&self) -> (r: Option<(u32, u32)>)
        ensures
            r == bounds_view(self@),
    {
        proof {
            use_type_invariant(self);
        }
        if self.length == 0 {
            None
        } else {
            Some((self.begin, self.begin + self.length))
        }
    }

    /// `start .. end`: empty when `start == end`, rejected when `end < start`.
    pub fn try_from_range(start: u32, end: u32) -> (r: Result<SampleRange, Error>)
        ensures
            r matches Ok(s) ==> range_view(start, end) == Ok::<(u32, u32), Error>(s@),
            r matches Err(e) ==> range_view(start, end) == Err::<(u32, u32), Error>(e),
    {
        if end < start {
            return Err(Error::InvalidArgument);
        }
        let length: u32 = end - start;
        if length == 0 {
            return Ok(SampleRange::empty());
        }
        Ok(SampleRange { begin: start, length })
    }

    /// `..end`, that is `0 .. end`.
    pub fn try_from_range_to(end: u32) -> (r: Result<SampleRange, Error>)
        ensures
            r matches Ok(s) ==> range_view(0, end) == Ok::<(u32, u32), Error>(s@),
            r matches Err(e) ==> range_view(0, end) == Err::<(u32, u32), Error>(e),
    {
        SampleRange::try_from_range(0, end)
    }

    /// `start ..= end`, that is `start .. end + 1`; rejected when `end + 1` overflows.
    pub fn try_from_range_inclusive(start: u32, end: u32) -> (r: Result<SampleRange, Error>)
        ensures
            end == u32::MAX ==> r == Err::<SampleRange, Error>(Error::InvalidArgument),
            end < u32::MAX ==> (r matches Ok(s) ==> range_view(start, (end + 1) as u32) == Ok::<(u32, u32), Error>(s@)),
            end < u32::MAX ==> (r matches Err(e) ==> range_view(start, (end + 1) as u32) == Err::<(u32, u32), Error>(e)),
    {
        match end.checked_add(1) {
            None => Err(Error::InvalidArgument),
            Some(end) => SampleRange::try_from_range(start, end),
        }
    }

    /// `..= end`, that is `0 .. end + 1`; rejected when `end + 1` overflows.
    pub fn try_from_range_to_inclusive(end: u32) -> (r: Result<SampleRange, Error>)
        ensures
            end == u32::MAX ==> r == Err::<SampleRange, Error>(Error::InvalidArgument),
            end < u32::MAX ==> (r matches Ok(s) ==> range_view(0, (end + 1) as u32) == Ok::<(u32, u32), Error>(s@)),
            end < u32::MAX ==> (r matches Err(e) ==> range_view(0, (end + 1) as u32) == Err::<(u32, u32), Error>(e)),
    {
        SampleRange::try_from_range_inclusive(0, end)
    }
}

impl TryFrom<core::ops::Range<u32>> for SampleRange {
    type Error = Error;

    fn try_from(value: core::ops::Range<u32>) -> Result<SampleRange, Error> {
        SampleRange::try_from_range(value.start, value.end)
    }
}

impl vstd::std_specs::convert::TryFromSpecImpl<core::ops::Range<u32>> for SampleRange {
    open spec fn obeys_try_from_spec() -> bool {
        true
    }

    closed spec fn try_from_spec(value: core::ops::Range<u32>) -> Result<SampleRange, Error> {
        match range_view(value.start, value.end) {
            Ok(v) => Ok(SampleRange { begin: v.0, length: v.1 }),
            Err(e) => Err(e),
        }
    }
}

/// Range conversions: `a .. a` is the empty region, `a .. b` with `a < b` is `(a, b - a)` and
/// converts back to the same bounds, and `a .. b` with `b < a` is rejected.
pub proof fn lemma_range_conversions(start: u32, end: u32)
    ensures
        start == end ==> range_view(start, end) == Ok::<(u32, u32), Error>((1u32, 0u32)),
        start == end ==> is_empty_view((1u32, 0u32)),
        end < start ==> range_view(start, end) == Err::<(u32, u32), Error>(Error::InvalidArgument),
        start < end ==> range_view(start, end) == Ok::<(u32, u32), Error>((start, (end - start) as u32)),
        start < end ==> bounds_view(explicit_view(start, end)) == Some((start, end)),
        start < end ==> !is_empty_view(explicit_view(start, end)) && !is_full_view(explicit_view(start, end)),
{
}

/// The unbounded range is the full buffer, which the engine receives as `(0, 0)` and which
/// has no explicit bounds.
pub proof fn lemma_full_range()
    ensures
        is_full_view((0u32, 0u32)),
        !is_empty_view((0u32, 0u32)),
        bounds_view((0u32, 0u32)) == None::<(u32, u32)>,
{
}

} // verus!
