use vstd::prelude::*;

verus! {

/// `WAVE_FORMAT_PCM`: integer samples (8-bit unsigned, 16 and 32-bit signed).
pub const WAVE_FORMAT_PCM: u16 = 1;

/// `WAVE_FORMAT_IEEE_FLOAT`: 32-bit float samples.
pub const WAVE_FORMAT_IEEE_FLOAT: u16 = 3;

/// `WAVE_FORMAT_EXTENSIBLE`: the format continues past the basic header.
pub const WAVE_FORMAT_EXTENSIBLE: u16 = 0xFFFE;

/// The fields of the basic wave format header a source voice is created with.
#[derive(Clone, Copy, Debug, PartialEq, Eq, Structural)]
pub struct WaveFormatEx {
    pub wFormatTag: u16,
    pub nChannels: u16,
    pub nSamplesPerSec: u32,
    pub nAvgBytesPerSec: u32,
    pub nBlockAlign: u16,
    pub wBitsPerSample: u16,
    pub cbSize: u16,
}

/// A wave format that needs nothing past its basic header.
#[derive(Clone, Copy, Debug, PartialEq, Eq, Structural)]
pub struct SourceFormat(WaveFormatEx);

impl View for SourceFormat {
    type V = WaveFormatEx;

    closed spec fn view(&self) -> WaveFormatEx {
        self.0
    }
}

impl SourceFormat {
    /// Wraps a basic header. An extensible format, or one that carries trailing bytes, cannot
    /// be held here.
    pub fn from_wave_format_ex(format: WaveFormatEx) -> (r: Self)
        requires
            format.wFormatTag != WAVE_FORMAT_EXTENSIBLE,
            format.cbSize == 0,
        ensures
            r@ == format,
    {
        SourceFormat(format)
    }

    /// The header for the engine.
    pub fn as_source_format(&self) -> (r: &WaveFormatEx)
        ensures
            *r == self@,
    {
        &self.0
    }

    /// An interleaved format of `channels` samples of `sample_bytes` bytes per frame, at `hz`
    /// frames per second.
    pub fn basic(format_tag: u16, sample_bytes: usize, channels: usize, hz: u32) -> (r: Self)
        requires
            format_tag != WAVE_FORMAT_EXTENSIBLE,
            channels <= u16::MAX,
            channels * sample_bytes <= u16::MAX,
            sample_bytes * 8 <= u16::MAX,
            hz * (channels * sample_bytes) <= u32::MAX,
        ensures
            r@ == (WaveFormatEx {
                wFormatTag: format_tag,
                nChannels: channels as u16,
                nSamplesPerSec: hz,
                nAvgBytesPerSec: (hz * (channels * sample_bytes)) as u32,
                nBlockAlign: (channels * sample_bytes) as u16,
                wBitsPerSample: (sample_bytes * 8) as u16,
                cbSize: 0,
            }),
    {
        let frame_bytes = (channels * sample_bytes) as u16;
        let sample_bits = (sample_bytes * 8) as u16;
        SourceFormat::from_wave_format_ex(WaveFormatEx {
            wFormatTag: format_tag,
            nChannels: channels as u16,
            nSamplesPerSec: hz,
            nAvgBytesPerSec: hz * (frame_bytes as u32),
            nBlockAlign: frame_bytes,
            wBitsPerSample: sample_bits,
            cbSize: 0,
        })
    }
}

/// A sample type with a PCM wave format tag: 8-bit samples are unsigned, 16 and 32-bit ones
/// signed.
pub trait HasPcmWaveFormat: Sized {
    /// The format tag of this sample type.
    spec fn format_tag() -> u16;

    fn pcm_wave_format() -> (r: u16)
        ensures
            r == Self::format_tag(),
            r != WAVE_FORMAT_EXTENSIBLE,
    ;
}

impl HasPcmWaveFormat for u8 {
    open spec fn format_tag() -> u16 {
        WAVE_FORMAT_PCM
    }

    fn pcm_wave_format() -> (r: u16) {
        WAVE_FORMAT_PCM
    }
}

impl HasPcmWaveFormat for i16 {
    open spec fn format_tag() -> u16 {
        WAVE_FORMAT_PCM
    }

    fn pcm_wave_format() -> (r: u16) {
        WAVE_FORMAT_PCM
    }
}

impl HasPcmWaveFormat for i32 {
    open spec fn format_tag() -> u16 {
        WAVE_FORMAT_PCM
    }

    fn pcm_wave_format() -> (r: u16) {
        WAVE_FORMAT_PCM
    }
}

/// A [`SourceFormat`] known to describe frames of type `Frame`.
pub struct TypedSourceFormat<Frame> {
    format: SourceFormat,
    frame: core::marker::PhantomData<Frame>,
}

impl<Frame> View for TypedSourceFormat<Frame> {
    type V = WaveFormatEx;

    closed spec fn view(&self) -> WaveFormatEx {
        self.format@
    }
}

impl<Frame> TypedSourceFormat<Frame> {
    /// Attaches the frame type; `format` should describe it.
    pub fn new(format: SourceFormat) -> (r: Self)
        ensures
            r@ == format@,
    {
        TypedSourceFormat { format, frame: core::marker::PhantomData }
    }

    pub fn source_format(&self) -> (r: &SourceFormat)
        ensures
            r@ == self@,
    {
        &self.format
    }
}

impl<S: HasPcmWaveFormat, const C: usize> TypedSourceFormat<[S; C]> {
    /// The PCM format of frames of `C` interleaved samples of type `S`, at `hz` frames per
    /// second.
    pub fn pcm(hz: u32) -> (r: Self)
        requires
            C <= u16::MAX,
            C * vstd::layout::size_of::<S>() <= u16::MAX,
            vstd::layout::size_of::<S>() * 8 <= u16::MAX,
            hz * (C * vstd::layout::size_of::<S>()) <= u32::MAX,
        ensures
            r@ == (WaveFormatEx {
                wFormatTag: S::format_tag(),
                nChannels: C as u16,
                nSamplesPerSec: hz,
                nAvgBytesPerSec: (hz * (C * vstd::layout::size_of::<S>())) as u32,
                nBlockAlign: (C * vstd::layout::size_of::<S>()) as u16,
                wBitsPerSample: (vstd::layout::size_of::<S>() * 8) as u16,
                cbSize: 0,
            }),
    {
        let tag = S::pcm_wave_format();
        let format = SourceFormat::basic(tag, core::mem::size_of::<S>(), C, hz);
        TypedSourceFormat::new(format)
    }
}

} // verus!
