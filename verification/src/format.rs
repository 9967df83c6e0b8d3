//! The audio file formats the remote service offers for download.
use vstd::prelude::*;

verus! {

/// A downloadable audio format.
#[derive(Debug, Clone, Copy, PartialEq, Eq, Structural)]
pub enum Format {
    Mp3V0,
    Mp3,
    Flac,
    Aac,
    OggVorbis,
    Alac,
    Wav,
    Aiff,
}

/// The textual (kebab-case) name of each format.
pub open spec fn spec_format_name(f: Format) -> Seq<char> {
    match f {
        Format::Mp3V0 => "mp3-v0"@,
        Format::Mp3 => "mp3"@,
        Format::Flac => "flac"@,
        Format::Aac => "aac"@,
        Format::OggVorbis => "ogg-vorbis"@,
        Format::Alac => "alac"@,
        Format::Wav => "wav"@,
        Format::Aiff => "aiff"@,
    }
}

/// The format at one position in the declaration order, if any.
pub open spec fn spec_format_from_repr(ix: int) -> Option<Format> {
    if ix == 0 {
        Some(Format::Mp3V0)
    } else if ix == 1 {
        Some(Format::Mp3)
    } else if ix == 2 {
        Some(Format::Flac)
    } else if ix == 3 {
        Some(Format::Aac)
    } else if ix == 4 {
        Some(Format::OggVorbis)
    } else if ix == 5 {
        Some(Format::Alac)
    } else if ix == 6 {
        Some(Format::Wav)
    } else if ix == 7 {
        Some(Format::Aiff)
    } else {
        None
    }
}

impl Format {
    /// The kebab-case name shown to the user and written to the
    /// configuration.
    pub fn name(&self) -> (r: &'static str)
        ensures
            r@ == spec_format_name(*self),
    {
        match self {
            Format::Mp3V0 => "mp3-v0",
            Format::Mp3 => "mp3",
            Format::Flac => "flac",
            Format::Aac => "aac",
            Format::OggVorbis => "ogg-vorbis",
            Format::Alac => "alac",
            Format::Wav => "wav",
            Format::Aiff => "aiff",
        }
    }

    /// The format at one position in the declaration order, the order a
    /// selection menu shows them in.
    pub fn from_repr(ix: usize) -> (r: Option<Format>)
        ensures
            r == spec_format_from_repr(ix as int),
    {
        match ix {
            0 => Some(Format::Mp3V0),
            1 => Some(Format::Mp3),
            2 => Some(Format::Flac),
            3 => Some(Format::Aac),
            4 => Some(Format::OggVorbis),
            5 => Some(Format::Alac),
            6 => Some(Format::Wav),
            7 => Some(Format::Aiff),
            _ => None,
        }
    }
}

} // verus!
