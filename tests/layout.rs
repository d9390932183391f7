use thindx_xaudio2::guard::report_lines;
use thindx_xaudio2::loop_count::LoopCount;
use thindx_xaudio2::sample_range::SampleRange;
use thindx_xaudio2::error::Error;
use thindx_xaudio2::source_format::{SourceFormat, TypedSourceFormat, WaveFormatEx, WAVE_FORMAT_IEEE_FLOAT, WAVE_FORMAT_PCM};
use thindx_xaudio2::vtable::{FromVtable, Interface, VtableLayout};

fn names(ns: &[&str]) -> Vec<String> {
    ns.iter().map(|s| s.to_string()).collect()
}

#[test]
fn derived_table_starts_with_base_table() {
    let unknown = VtableLayout::root(names(&["QueryInterface", "AddRef", "Release"]));
    let voice = VtableLayout::derive(&unknown, names(&["GetVoiceDetails", "SetOutputVoices", "DestroyVoice"]));
    let source = VtableLayout::derive(&voice, names(&["Start", "Stop", "SubmitSourceBuffer"]));
    assert_eq!(source.len(), 9);
    assert!(unknown.is_prefix_of(&voice));
    assert!(voice.is_prefix_of(&source));
    assert!(!source.is_prefix_of(&voice));
    let other = VtableLayout::root(names(&["OnProcessingPassStart"]));
    assert!(!other.is_prefix_of(&voice));
    for m in ["AddRef", "GetVoiceDetails", "DestroyVoice"] {
        let m = m.to_string();
        assert_eq!(voice.slot(&m), source.slot(&m));
    }
    assert_eq!(source.slot(&"DestroyVoice".to_string()), Some(5));
    assert_eq!(source.slot(&"SubmitSourceBuffer".to_string()), Some(8));
    assert_eq!(voice.slot(&"Start".to_string()), None);
}

#[test]
fn interface_from_vtable() {
    let table: &'static [u32; 3] = Box::leak(Box::new([7, 8, 9]));
    let i = Interface::from_vtable(table);
    assert_eq!(i.vtable()[1], 8);
}

#[test]
fn pcm_formats() {
    let f = SourceFormat::basic(WAVE_FORMAT_PCM, 2, 2, 44100);
    assert_eq!(
        *f.as_source_format(),
        WaveFormatEx {
            wFormatTag: WAVE_FORMAT_PCM,
            nChannels: 2,
            nSamplesPerSec: 44100,
            nAvgBytesPerSec: 176400,
            nBlockAlign: 4,
            wBitsPerSample: 16,
            cbSize: 0,
        }
    );
    let f = SourceFormat::basic(WAVE_FORMAT_IEEE_FLOAT, 4, 1, 48000);
    assert_eq!(f.as_source_format().nAvgBytesPerSec, 192000);
    assert_eq!(f.as_source_format().wBitsPerSample, 32);
}

#[test]
fn panic_report_lines() {
    let msg = b"first\r\nsecond\n\nlast\r";
    let spans = report_lines(msg);
    assert_eq!(spans, vec![(0, 5), (7, 13), (14, 14), (15, 19)]);
    let lines: Vec<&[u8]> = spans.iter().map(|&(a, b)| &msg[a..b]).collect();
    assert_eq!(lines, vec![&b"first"[..], b"second", b"", b"last"]);
    assert_eq!(report_lines(b""), vec![(0, 0)]);
    assert_eq!(report_lines(b"one"), vec![(0, 3)]);
    assert_eq!(report_lines(b"\n"), vec![(0, 0), (1, 1)]);
}

#[test]
fn std_conversions() {
    assert_eq!(SampleRange::try_from(3..8).unwrap().into_raw_begin_length(), Some((3, 5)));
    assert_eq!(SampleRange::try_from(8..3), Err(Error::InvalidArgument));
    assert_eq!(LoopCount::try_from(255u8), Err(Error::InvalidArgument));
    assert_eq!(LoopCount::try_from(2u8).unwrap().get(), 2);
}

#[test]
fn typed_pcm_formats() {
    let f = TypedSourceFormat::<[i16; 2]>::pcm(44100);
    assert_eq!(*f.source_format().as_source_format(), *SourceFormat::basic(WAVE_FORMAT_PCM, 2, 2, 44100).as_source_format());
    let f = TypedSourceFormat::<[u8; 1]>::pcm(8000);
    let w = f.source_format().as_source_format();
    assert_eq!((w.nChannels, w.nBlockAlign, w.wBitsPerSample, w.nAvgBytesPerSec), (1, 1, 8, 8000));
    let f = TypedSourceFormat::<[i32; 6]>::pcm(48000);
    let w = f.source_format().as_source_format();
    assert_eq!((w.wFormatTag, w.nChannels, w.nBlockAlign, w.wBitsPerSample), (WAVE_FORMAT_PCM, 6, 24, 32));
}
