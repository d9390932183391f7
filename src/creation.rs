use vstd::prelude::*;
use crate::error::{Error, E_NOINTERFACE};
use crate::factory::failed_view;
use crate::hresult::hresult_is_error;

verus! {

/// The element count of a send list or an effect chain for the engine's 32-bit count field, or
/// `InvalidArgument` when the list is longer than that field can say.
pub fn list_count(len: usize) -> (r: Result<u32, Error>)
    ensures
        len <= u32::MAX ==> r == Ok::<u32, Error>(len as u32),
        len > u32::MAX ==> r == Err::<u32, Error>(Error::InvalidArgument),
{
    if len > u32::MAX as usize {
        Err(Error::InvalidArgument)
    } else {
        Ok(len as u32)
    }
}

/// The count field of an optional list: absent stays absent, a present one must fit 32 bits.
pub open spec fn optional_count_view(len: Option<usize>) -> Result<Option<u32>, Error> {
    match len {
        None => Ok(None),
        Some(n) => if n <= u32::MAX { Ok(Some(n as u32)) } else { Err(Error::InvalidArgument) },
    }
}

/// The count fields of a voice's optional send list and effect chain, checked in that order
/// before any engine call.
pub fn voice_list_counts(send_list_len: Option<usize>, effect_chain_len: Option<usize>) -> (r: Result<(Option<u32>, Option<u32>), Error>)
    ensures
        match (optional_count_view(send_list_len), optional_count_view(effect_chain_len)) {
            (Err(e), _) => r == Err::<(Option<u32>, Option<u32>), Error>(e),
            (Ok(_), Err(e)) => r == Err::<(Option<u32>, Option<u32>), Error>(e),
            (Ok(s), Ok(c)) => r == Ok::<(Option<u32>, Option<u32>), Error>((s, c)),
        },
{
    let sends = match send_list_len {
        None => None,
        Some(n) => Some(list_count(n)?),
    };
    let effects = match effect_chain_len {
        None => None,
        Some(n) => Some(list_count(n)?),
    };
    Ok((sends, effects))
}

/// The result of a voice-creation call: its failing `HRESULT` verbatim, or `E_NOINTERFACE`
/// when it succeeded but handed back a null voice. A non-null voice handed back with a
/// failure is owned (and so destroyed) all the same.
pub open spec fn voice_outcome_view(hr: u32, non_null: bool) -> Result<(), Error> {
    if failed_view(hr) {
        Err(Error::Engine(hr))
    } else if !non_null {
        Err(Error::Engine(E_NOINTERFACE))
    } else {
        Ok(())
    }
}

pub fn voice_outcome(hr: u32, non_null: bool) -> (r: Result<(), Error>)
    ensures
        r == voice_outcome_view(hr, non_null),
{
    if hresult_is_error(hr) {
        Err(Error::Engine(hr))
    } else if !non_null {
        Err(Error::Engine(E_NOINTERFACE))
    } else {
        Ok(())
    }
}

/// The result of any other engine call that reports an `HRESULT`: success, or the failing code
/// verbatim.
pub fn engine_result(hr: u32) -> (r: Result<u32, Error>)
    ensures
        failed_view(hr) ==> r == Err::<u32, Error>(Error::Engine(hr)),
        !failed_view(hr) ==> r == Ok::<u32, Error>(hr),
{
    if hresult_is_error(hr) {
        Err(Error::Engine(hr))
    } else {
        Ok(hr)
    }
}

} // verus!
