//! File and stream information assembled from the engine's metadata.
//!
//! Every metadata value the engine hands back is read under one rule: an
//! empty string says no more than a missing one, so both are absent.
use vstd::prelude::*;
use crate::units::{CHANNELS, SAMPLE_RATE};

verus! {

/// A metadata value as the record holds it: absent when missing or empty.
pub open spec fn present_text(v: Option<Seq<char>>) -> Option<Seq<char>> {
    match v {
        Some(s) => if s.len() > 0 {
            Some(s)
        } else {
            None
        },
        None => None,
    }
}

/// The first of `c` that is present, in order; absent when none is.
pub open spec fn first_present_text(c: Seq<Option<Seq<char>>>) -> Option<Seq<char>>
    decreases c.len(),
{
    if c.len() == 0 {
        None
    } else if present_text(c[0]) is Some {
        present_text(c[0])
    } else {
        first_present_text(c.drop_first())
    }
}

/// The codec description: format name and tracker name joined by `" / "`
/// when both are present, whichever one is present otherwise.
pub open spec fn codec_text(ty: Option<Seq<char>>, tracker: Option<Seq<char>>) -> Option<
    Seq<char>,
> {
    match (present_text(ty), present_text(tracker)) {
        (Some(t), Some(k)) => Some(t + " / "@ + k),
        (Some(t), None) => Some(t),
        (None, Some(k)) => Some(k),
        (None, None) => None,
    }
}

/// Drops an empty value.
pub fn present(v: Option<String>) -> (r: Option<String>)
    ensures
        r.deep_view() == present_text(v.deep_view()),
{
    match v {
        Some(s) => {
            if s.as_str().is_empty() {
                None
            } else {
                Some(s)
            }
        },
        None => None,
    }
}

/// The first value of `candidates` that is present, tried in order.
pub fn first_present(candidates: &Vec<Option<String>>) -> (r: Option<String>)
    ensures
        r.deep_view() == first_present_text(candidates.deep_view()),
{
    let n = candidates.len();
    let mut i: usize = 0;
    assert(candidates.deep_view().subrange(0, n as int) =~= candidates.deep_view());
    while i < n
        invariant
            n == candidates.len(),
            i <= n,
            first_present_text(candidates.deep_view()) == first_present_text(
                candidates.deep_view().subrange(i as int, n as int),
            ),
        decreases n - i,
    {
        let ghost rest = candidates.deep_view().subrange(i as int, n as int);
        assert(rest.drop_first() =~= candidates.deep_view().subrange(i + 1, n as int));
        assert(rest[0] == candidates[i as int].deep_view());
        match &candidates[i] {
            Some(s) => {
                if !s.as_str().is_empty() {
                    return Some(s.clone());
                }
            },
            None => {},
        }
        i += 1;
    }
    assert(candidates.deep_view().subrange(n as int, n as int).len() == 0);
    None
}

/// Codec description from the format name `ty` and the `tracker` name.
pub fn codec(ty: Option<String>, tracker: Option<String>) -> (r: Option<String>)
    ensures
        r.deep_view() == codec_text(ty.deep_view(), tracker.deep_view()),
{
    match (present(ty), present(tracker)) {
        (Some(t), Some(k)) => Some(t.concat(" / ").concat(k.as_str())),
        (Some(t), None) => Some(t),
        (None, Some(k)) => Some(k),
        (None, None) => None,
    }
}

/// Metadata values as the engine returned them, one lookup per key, before
/// the emptiness rule is applied.
pub struct ModuleMetadata {
    /// Key `title`.
    pub title: Option<String>,
    /// Key `artist`.
    pub artist: Option<String>,
    /// Key `originaltype_long`: the format the module was converted from.
    pub original_type: Option<String>,
    /// Key `type_long`: the module's own format.
    pub format_name: Option<String>,
    /// Key `tracker`.
    pub tracker: Option<String>,
    /// Key `message`.
    pub message: Option<String>,
    /// Key `date`.
    pub date: Option<String>,
}

/// The file-information record handed to the host, less the duration, which
/// the engine gives in seconds and the caller adds.
pub struct FileInfo {
    pub sample_rate: i32,
    pub channels: i32,
    pub title: Option<String>,
    pub artist: Option<String>,
    pub codec: Option<String>,
    pub comment: Option<String>,
    pub date: Option<String>,
}

/// Sample encoding of the output.
#[derive(Clone, Copy, Debug, PartialEq, Eq, Structural)]
pub enum SampleFormat {
    /// 32-bit IEEE float, interleaved.
    Float32,
}

/// The output format, the same for every module.
#[derive(Clone, Copy, Debug, PartialEq, Eq, Structural)]
pub struct StreamInfo {
    pub sample_rate: i32,
    pub channels: i32,
    pub sample_format: SampleFormat,
}

/// Builds the record from the raw lookups: each text field is its lookup when
/// present, and the codec is the first present of the original and the own
/// format name, combined with the tracker name.
pub fn file_info(meta: ModuleMetadata) -> (r: FileInfo)
    ensures
        r.sample_rate == SAMPLE_RATE,
        r.channels == CHANNELS,
        r.title.deep_view() == present_text(meta.title.deep_view()),
        r.artist.deep_view() == present_text(meta.artist.deep_view()),
        r.codec.deep_view() == codec_text(
            first_present_text(seq![meta.original_type.deep_view(), meta.format_name.deep_view()]),
            meta.tracker.deep_view(),
        ),
        r.comment.deep_view() == present_text(meta.message.deep_view()),
        r.date.deep_view() == present_text(meta.date.deep_view()),
{
    let ghost type_keys = seq![meta.original_type.deep_view(), meta.format_name.deep_view()];
    let types = vec![meta.original_type, meta.format_name];
    assert(types.deep_view() =~= type_keys);
    let ty = first_present(&types);
    FileInfo {
        sample_rate: SAMPLE_RATE,
        channels: CHANNELS,
        title: present(meta.title),
        artist: present(meta.artist),
        codec: codec(ty, meta.tracker),
        comment: present(meta.message),
        date: present(meta.date),
    }
}

/// The fixed output format: the crate's sample rate, two channels, float.
pub fn stream_info() -> (r: StreamInfo)
    ensures
        r == (StreamInfo { sample_rate: SAMPLE_RATE, channels: CHANNELS, sample_format: SampleFormat::Float32 }),
{
    StreamInfo { sample_rate: SAMPLE_RATE, channels: CHANNELS, sample_format: SampleFormat::Float32 }
}

} // verus!
