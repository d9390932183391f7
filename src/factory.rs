use vstd::prelude::*;
use crate::error::Error;
use crate::hresult::{
    hresult_from_win32, hresult_is_error, ERROR_INVALID_LIBRARY, ERROR_NOINTERFACE, ERROR_PROC_NOT_FOUND,
};
use crate::limits::{XAUDIO2_DEFAULT_PROCESSOR, XAUDIO2_USE_DEFAULT_PROCESSOR};

verus! {

/// The creation entry points that the engine's module exports.
#[derive(Clone, Copy, Debug, PartialEq, Eq, Structural)]
pub struct EntryPoints {
    /// `XAudio2CreateWithVersionInfo`, the most capable one.
    pub create_with_version_info: bool,
    /// `XAudio2Create`, the older fallback.
    pub create: bool,
}

/// The creation entry point to call.
#[derive(Clone, Copy, Debug, PartialEq, Eq, Structural)]
pub enum EntryPoint {
    CreateWithVersionInfo,
    Create,
}

/// The most capable entry point available, if any.
pub open spec fn entry_point_view(e: EntryPoints) -> Option<EntryPoint> {
    if e.create_with_version_info {
        Some(EntryPoint::CreateWithVersionInfo)
    } else if e.create {
        Some(EntryPoint::Create)
    } else {
        None
    }
}

pub fn select_entry_point(exports: EntryPoints) -> (r: Option<EntryPoint>)
    ensures
        r == entry_point_view(exports),
{
    if exports.create_with_version_info {
        Some(EntryPoint::CreateWithVersionInfo)
    } else if exports.create {
        Some(EntryPoint::Create)
    } else {
        None
    }
}

/// `HRESULT_FROM_WIN32` of an error code.
pub open spec fn win32_view(code: u16) -> u32 {
    0x8007_0000u32 | code as u32
}

/// Whether an `HRESULT` reports a failure.
pub open spec fn failed_view(hr: u32) -> bool {
    hr & 0x8000_0000u32 != 0
}

/// The error for a module that could not be loaded: the OS error code as a Win32 `HRESULT`
/// when it fits 16 bits, the raw code otherwise, and `ERROR_INVALID_LIBRARY` when the OS
/// reported none.
pub open spec fn load_error_view(raw_os_error: Option<i32>) -> Error {
    match raw_os_error {
        Some(code) => if (code as u32) <= u16::MAX {
            Error::Resolution(win32_view(code as u32 as u16))
        } else {
            Error::Resolution(code as u32)
        },
        None => Error::Resolution(win32_view(ERROR_INVALID_LIBRARY)),
    }
}

pub fn load_error(raw_os_error: Option<i32>) -> (r: Error)
    ensures
        r == load_error_view(raw_os_error),
{
    match raw_os_error {
        Some(code) => {
            let code = code as u32;
            if code <= u16::MAX as u32 {
                Error::Resolution(hresult_from_win32(code as u16))
            } else {
                Error::Resolution(code)
            }
        },
        None => Error::Resolution(hresult_from_win32(ERROR_INVALID_LIBRARY)),
    }
}

/// The result of one creation call: the failing `HRESULT` verbatim, or `ERROR_NOINTERFACE`
/// when the call succeeded but handed back a null engine.
pub open spec fn call_outcome_view(hr: u32, non_null: bool) -> Result<(), Error> {
    if failed_view(hr) {
        Err(Error::Engine(hr))
    } else if !non_null {
        Err(Error::Engine(win32_view(ERROR_NOINTERFACE)))
    } else {
        Ok(())
    }
}

pub fn call_outcome(hr: u32, non_null: bool) -> (r: Result<(), Error>)
    ensures
        r == call_outcome_view(hr, non_null),
{
    if hresult_is_error(hr) {
        Err(Error::Engine(hr))
    } else if !non_null {
        Err(Error::Engine(hresult_from_win32(ERROR_NOINTERFACE)))
    } else {
        Ok(())
    }
}

/// What engine creation does next.
#[derive(Clone, Copy, Debug, PartialEq, Eq, Structural)]
pub enum CreateStep {
    /// Call this entry point with this processor selector, then report the outcome.
    Call(EntryPoint, u32),
    /// Creation is over: the engine handed back by the last call is the result.
    Succeeded,
    /// Creation is over and failed with this error.
    Failed(Error),
}

/// The final step for an outcome.
pub open spec fn done_view(outcome: Result<(), Error>) -> CreateStep {
    match outcome {
        Ok(()) => CreateStep::Succeeded,
        Err(e) => CreateStep::Failed(e),
    }
}

/// The processor selector of the first attempt: the requested one, or "let the engine choose".
pub open spec fn first_processor_view(requested: Option<u32>) -> u32 {
    match requested {
        Some(p) => p,
        None => XAUDIO2_USE_DEFAULT_PROCESSOR,
    }
}

/// The decisions of engine creation. Without a requested processor, a failed first attempt is
/// retried once with the SDK's fixed default processor; a missing entry point fails with
/// `ERROR_PROC_NOT_FOUND` before any call.
pub struct CreateSession {
    requested: Option<u32>,
    entry: Option<EntryPoint>,
    retried: bool,
    finished: bool,
}

impl CreateSession {
    pub closed spec fn requested(&self) -> Option<u32> {
        self.requested
    }

    pub closed spec fn entry(&self) -> Option<EntryPoint> {
        self.entry
    }

    /// Whether the fallback attempt was made.
    pub closed spec fn retried(&self) -> bool {
        self.retried
    }

    /// Whether creation is over.
    pub closed spec fn finished(&self) -> bool {
        self.finished
    }

    /// Starts creation with the module's entry points and the requested processor.
    pub fn begin(exports: EntryPoints, requested: Option<u32>) -> (r: (CreateSession, CreateStep))
        ensures
            r.0.requested() == requested,
            r.0.entry() == entry_point_view(exports),
            !r.0.retried(),
            r.1 == match entry_point_view(exports) {
                Some(entry) => CreateStep::Call(entry, first_processor_view(requested)),
                None => CreateStep::Failed(Error::Resolution(win32_view(ERROR_PROC_NOT_FOUND))),
            },
            r.0.finished() == !(r.1 is Call),
    {
        let entry = select_entry_point(exports);
        match entry {
            Some(e) => {
                let processor = match requested {
                    Some(p) => p,
                    None => XAUDIO2_USE_DEFAULT_PROCESSOR,
                };
                (CreateSession { requested, entry, retried: false, finished: false }, CreateStep::Call(e, processor))
            },
            None => {
                let err = Error::Resolution(hresult_from_win32(ERROR_PROC_NOT_FOUND));
                (CreateSession { requested, entry, retried: false, finished: true }, CreateStep::Failed(err))
            },
        }
    }

    /// Takes the outcome of the call that the last step asked for: the `HRESULT` and whether
    /// the engine pointer handed back was non-null.
    pub fn after_call(&mut self, hr: u32, non_null: bool) -> (r: CreateStep)
        requires
            !old(self).finished(),
            old(self).entry() is Some,
        ensures
            final(self).requested() == old(self).requested(),
            final(self).entry() == old(self).entry(),
            ({
                let outcome = call_outcome_view(hr, non_null);
                if outcome is Err && old(self).requested() is None && !old(self).retried() {
                    r == CreateStep::Call(old(self).entry().unwrap(), XAUDIO2_DEFAULT_PROCESSOR)
                        && final(self).retried() && !final(self).finished()
                } else {
                    r == done_view(outcome) && final(self).finished()
                        && final(self).retried() == old(self).retried()
                }
            }),
    {
        let outcome = call_outcome(hr, non_null);
        if outcome.is_err() && self.requested.is_none() && !self.retried {
            self.retried = true;
            CreateStep::Call(self.entry.unwrap(), XAUDIO2_DEFAULT_PROCESSOR)
        } else {
            self.finished = true;
            match outcome {
                Ok(()) => CreateStep::Succeeded,
                Err(e) => CreateStep::Failed(e),
            }
        }
    }
}

} // verus!
