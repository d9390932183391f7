use vstd::prelude::*;

verus! {

/// `E_INVALIDARG`: an argument does not fit the engine's field widths.
pub const E_INVALIDARG: u32 = 0x8007_0057;

/// `E_NOINTERFACE`: a call succeeded but handed back no interface.
pub const E_NOINTERFACE: u32 = 0x8000_4002;

/// The failure taxonomy of this library.
#[derive(Clone, Copy, Debug, PartialEq, Eq, Structural)]
pub enum Error {
    /// A caller-supplied size or range does not fit the engine's fields; no engine call was made.
    InvalidArgument,
    /// The engine returned this failing `HRESULT`; it is surfaced verbatim.
    Engine(u32),
    /// The engine's module or one of its entry points could not be resolved; the `HRESULT` says why.
    Resolution(u32),
}

impl Error {
    /// The `HRESULT` that stands for this error.
    pub fn hresult(&self) -> (r: u32)
        ensures
            r == match *self {
                Error::InvalidArgument => E_INVALIDARG,
                Error::Engine(code) => code,
                Error::Resolution(code) => code,
            },
    {
        match *self {
            Error::InvalidArgument => E_INVALIDARG,
            Error::Engine(code) => code,
            Error::Resolution(code) => code,
        }
    }
}

} // verus!
