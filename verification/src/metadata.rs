//! Audio formats, audio metadata and cover art.

use vstd::prelude::*;
use crate::text::{
    ascii_lowercase, ascii_lowercase_chars, cat5, chars_equal, chars_of, decimal, u64_decimal,
};
use crate::time::Duration;

verus! {

/// Supported audio formats
#[derive(Debug, Clone, Copy, PartialEq, Eq, Hash, Structural)]
pub enum AudioFormat {
    Mp3,
    M4b,
    M4a,
    Flac,
    Ogg,
    Opus,
    Aac,
    Wav,
    Aiff,
}

/// The format named by a lower-case extension.
pub open spec fn format_for_extension(lower: Seq<char>) -> Option<AudioFormat> {
    if lower == "mp3"@ {
        Some(AudioFormat::Mp3)
    } else if lower == "m4b"@ {
        Some(AudioFormat::M4b)
    } else if lower == "m4a"@ {
        Some(AudioFormat::M4a)
    } else if lower == "flac"@ {
        Some(AudioFormat::Flac)
    } else if lower == "ogg"@ {
        Some(AudioFormat::Ogg)
    } else if lower == "opus"@ {
        Some(AudioFormat::Opus)
    } else if lower == "aac"@ {
        Some(AudioFormat::Aac)
    } else if lower == "wav"@ {
        Some(AudioFormat::Wav)
    } else if lower == "aiff"@ || lower == "aif"@ {
        Some(AudioFormat::Aiff)
    } else {
        None
    }
}

pub open spec fn extension_text(f: AudioFormat) -> Seq<char> {
    match f {
        AudioFormat::Mp3 => "mp3"@,
        AudioFormat::M4b => "m4b"@,
        AudioFormat::M4a => "m4a"@,
        AudioFormat::Flac => "flac"@,
        AudioFormat::Ogg => "ogg"@,
        AudioFormat::Opus => "opus"@,
        AudioFormat::Aac => "aac"@,
        AudioFormat::Wav => "wav"@,
        AudioFormat::Aiff => "aiff"@,
    }
}

pub open spec fn mime_text(f: AudioFormat) -> Seq<char> {
    match f {
        AudioFormat::Mp3 => "audio/mpeg"@,
        AudioFormat::M4b => "audio/mp4"@,
        AudioFormat::M4a => "audio/mp4"@,
        AudioFormat::Flac => "audio/flac"@,
        AudioFormat::Ogg => "audio/ogg"@,
        AudioFormat::Opus => "audio/opus"@,
        AudioFormat::Aac => "audio/aac"@,
        AudioFormat::Wav => "audio/wav"@,
        AudioFormat::Aiff => "audio/aiff"@,
    }
}

/// The upper-case extension, which the `Display` form shows.
pub open spec fn format_display_text(f: AudioFormat) -> Seq<char> {
    match f {
        AudioFormat::Mp3 => "MP3"@,
        AudioFormat::M4b => "M4B"@,
        AudioFormat::M4a => "M4A"@,
        AudioFormat::Flac => "FLAC"@,
        AudioFormat::Ogg => "OGG"@,
        AudioFormat::Opus => "OPUS"@,
        AudioFormat::Aac => "AAC"@,
        AudioFormat::Wav => "WAV"@,
        AudioFormat::Aiff => "AIFF"@,
    }
}

/// The extension of the last component of a path, as `Path::extension` finds it.
pub uninterp spec fn path_extension(path: Seq<char>) -> Option<Seq<char>>;

/// `Path::extension` on the path `path`, as text (an extension that is not
/// valid UTF-8 counts as none).
#[verifier::external_body]
fn extension_of(path: &str) -> (r: Option<String>)
    ensures
        match r {
            Some(e) => path_extension(path@) == Some(e@),
            None => path_extension(path@) is None,
        },
{
    std::path::Path::new(path).extension().and_then(|e| e.to_str()).map(|e| e.to_string())
}

fn equals_literal(v: &Vec<char>, lit: &str) -> (r: bool)
    ensures
        r == (v@ == lit@),
{
    let l = chars_of(lit);
    chars_equal(v, &l)
}

impl AudioFormat {
    /// Detects format from file extension, ignoring case. (Lower-casing is
    /// done for ASCII letters; no other character lower-cases to a letter of
    /// a known extension.)
    pub fn from_extension(ext: &str) -> (r: Option<Self>)
        ensures
            r == format_for_extension(ascii_lowercase(ext@)),
    {
        let raw = chars_of(ext);
        let lower = ascii_lowercase_chars(&raw);
        if equals_literal(&lower, "mp3") {
            Some(AudioFormat::Mp3)
        } else if equals_literal(&lower, "m4b") {
            Some(AudioFormat::M4b)
        } else if equals_literal(&lower, "m4a") {
            Some(AudioFormat::M4a)
        } else if equals_literal(&lower, "flac") {
            Some(AudioFormat::Flac)
        } else if equals_literal(&lower, "ogg") {
            Some(AudioFormat::Ogg)
        } else if equals_literal(&lower, "opus") {
            Some(AudioFormat::Opus)
        } else if equals_literal(&lower, "aac") {
            Some(AudioFormat::Aac)
        } else if equals_literal(&lower, "wav") {
            Some(AudioFormat::Wav)
        } else if equals_literal(&lower, "aiff") || equals_literal(&lower, "aif") {
            Some(AudioFormat::Aiff)
        } else {
            None
        }
    }

    /// Detects format from a file path's extension
    pub fn from_path(path: &str) -> (r: Option<Self>)
        ensures
            r == match path_extension(path@) {
                Some(e) => format_for_extension(ascii_lowercase(e)),
                None => None,
            },
    {
        match extension_of(path) {
            Some(e) => Self::from_extension(e.as_str()),
            None => None,
        }
    }

    /// Returns the canonical file extension for this format
    pub fn extension(&self) -> (r: &'static str)
        ensures
            r@ == extension_text(*self),
    {
        match self {
            AudioFormat::Mp3 => "mp3",
            AudioFormat::M4b => "m4b",
            AudioFormat::M4a => "m4a",
            AudioFormat::Flac => "flac",
            AudioFormat::Ogg => "ogg",
            AudioFormat::Opus => "opus",
            AudioFormat::Aac => "aac",
            AudioFormat::Wav => "wav",
            AudioFormat::Aiff => "aiff",
        }
    }

    /// Returns the MIME type for this format
    pub fn mime_type(&self) -> (r: &'static str)
        ensures
            r@ == mime_text(*self),
    {
        match self {
            AudioFormat::Mp3 => "audio/mpeg",
            AudioFormat::M4b => "audio/mp4",
            AudioFormat::M4a => "audio/mp4",
            AudioFormat::Flac => "audio/flac",
            AudioFormat::Ogg => "audio/ogg",
            AudioFormat::Opus => "audio/opus",
            AudioFormat::Aac => "audio/aac",
            AudioFormat::Wav => "audio/wav",
            AudioFormat::Aiff => "audio/aiff",
        }
    }

    /// Returns true if this format supports chapters
    pub fn supports_chapters(&self) -> (r: bool)
        ensures
            r == (*self == AudioFormat::Mp3 || *self == AudioFormat::M4b || *self == AudioFormat::M4a
                || *self == AudioFormat::Flac),
    {
        match self {
            AudioFormat::Mp3 | AudioFormat::M4b | AudioFormat::M4a | AudioFormat::Flac => true,
            _ => false,
        }
    }

    /// Returns true if this format supports embedded cover art
    pub fn supports_cover_art(&self) -> (r: bool)
        ensures
            r == (*self == AudioFormat::Mp3 || *self == AudioFormat::M4b || *self == AudioFormat::M4a
                || *self == AudioFormat::Flac || *self == AudioFormat::Ogg),
    {
        match self {
            AudioFormat::Mp3 | AudioFormat::M4b | AudioFormat::M4a | AudioFormat::Flac
            | AudioFormat::Ogg => true,
            _ => false,
        }
    }

    /// The format as its `Display` form shows it: the extension in upper case.
    pub fn to_string(&self) -> (r: String)
        ensures
            r@ == format_display_text(*self),
    {
        let s = match self {
            AudioFormat::Mp3 => "MP3",
            AudioFormat::M4b => "M4B",
            AudioFormat::M4a => "M4A",
            AudioFormat::Flac => "FLAC",
            AudioFormat::Ogg => "OGG",
            AudioFormat::Opus => "OPUS",
            AudioFormat::Aac => "AAC",
            AudioFormat::Wav => "WAV",
            AudioFormat::Aiff => "AIFF",
        };
        String::from_str(s)
    }
}

/// Every format has a non-empty extension and MIME type.
pub proof fn law_formats_are_named(f: AudioFormat)
    ensures
        extension_text(f).len() > 0,
        mime_text(f).len() > 0,
{
    reveal_strlit("mp3");
    reveal_strlit("m4b");
    reveal_strlit("m4a");
    reveal_strlit("flac");
    reveal_strlit("ogg");
    reveal_strlit("opus");
    reveal_strlit("aac");
    reveal_strlit("wav");
    reveal_strlit("aiff");
    reveal_strlit("audio/mpeg");
    reveal_strlit("audio/mp4");
    reveal_strlit("audio/flac");
    reveal_strlit("audio/ogg");
    reveal_strlit("audio/opus");
    reveal_strlit("audio/aac");
    reveal_strlit("audio/wav");
    reveal_strlit("audio/aiff");
}

/// A format's own extension names that format again.
pub proof fn law_extension_names_its_format(f: AudioFormat)
    ensures
        format_for_extension(ascii_lowercase(extension_text(f))) == Some(f),
{
    reveal_strlit("mp3");
    reveal_strlit("m4b");
    reveal_strlit("m4a");
    reveal_strlit("flac");
    reveal_strlit("ogg");
    reveal_strlit("opus");
    reveal_strlit("aac");
    reveal_strlit("wav");
    reveal_strlit("aiff");
    reveal_strlit("aif");
    let e = extension_text(f);
    assert(ascii_lowercase(e) =~= e);
    match f {
        AudioFormat::Mp3 => {

        },
        AudioFormat::M4b => {
            assert("m4b"@[1] != "mp3"@[1]);
        },
        AudioFormat::M4a => {
            assert("m4a"@[1] != "mp3"@[1]);
            assert("m4a"@[2] != "m4b"@[2]);
        },
        AudioFormat::Flac => {
            assert("flac"@.len() != "mp3"@.len());
            assert("flac"@.len() != "m4b"@.len());
            assert("flac"@.len() != "m4a"@.len());
        },
        AudioFormat::Ogg => {
            assert("ogg"@[0] != "mp3"@[0]);
            assert("ogg"@[0] != "m4b"@[0]);
            assert("ogg"@[0] != "m4a"@[0]);
            assert("ogg"@.len() != "flac"@.len());
        },
        AudioFormat::Opus => {
            assert("opus"@.len() != "mp3"@.len());
            assert("opus"@.len() != "m4b"@.len());
            assert("opus"@.len() != "m4a"@.len());
            assert("opus"@[0] != "flac"@[0]);
            assert("opus"@.len() != "ogg"@.len());
        },
        AudioFormat::Aac => {
            assert("aac"@[0] != "mp3"@[0]);
            assert("aac"@[0] != "m4b"@[0]);
            assert("aac"@[0] != "m4a"@[0]);
            assert("aac"@.len() != "flac"@.len());
            assert("aac"@[0] != "ogg"@[0]);
            assert("aac"@.len() != "opus"@.len());
        },
        AudioFormat::Wav => {
            assert("wav"@[0] != "mp3"@[0]);
            assert("wav"@[0] != "m4b"@[0]);
            assert("wav"@[0] != "m4a"@[0]);
            assert("wav"@.len() != "flac"@.len());
            assert("wav"@[0] != "ogg"@[0]);
            assert("wav"@.len() != "opus"@.len());
            assert("wav"@[0] != "aac"@[0]);
        },
        AudioFormat::Aiff => {
            assert("aiff"@.len() != "mp3"@.len());
            assert("aiff"@.len() != "m4b"@.len());
            assert("aiff"@.len() != "m4a"@.len());
            assert("aiff"@[0] != "flac"@[0]);
            assert("aiff"@.len() != "ogg"@.len());
            assert("aiff"@[0] != "opus"@[0]);
            assert("aiff"@.len() != "aac"@.len());
            assert("aiff"@.len() != "wav"@.len());
        },
    }
}

/// Audio metadata extracted from a file
#[derive(Debug, Clone)]
pub struct AudioMetadata {
    pub format: AudioFormat,
    pub title: Option<String>,
    pub artist: Option<String>,
    pub album: Option<String>,
    pub album_artist: Option<String>,
    pub composer: Option<String>,
    pub genre: Option<String>,
    pub year: Option<u32>,
    pub track_number: Option<u32>,
    pub disc_number: Option<u32>,
    pub duration: Duration,
    /// bits per second
    pub bitrate: Option<u32>,
    /// Hz
    pub sample_rate: Option<u32>,
    /// 1=mono, 2=stereo
    pub channels: Option<u8>,
    pub comment: Option<String>,
    pub has_cover_art: bool,
}

pub open spec fn has_technical_info_spec(m: &AudioMetadata) -> bool {
    m.bitrate is Some && m.sample_rate is Some && m.channels is Some
}

pub open spec fn channels_text(c: u8) -> Seq<char> {
    if c == 1 {
        "Mono"@
    } else if c == 2 {
        "Stereo"@
    } else {
        "Multi-channel"@
    }
}

/// `"{kbps} kbps, {kHz} kHz, {channels}"`, with the rates divided by 1000.
pub open spec fn technical_summary_text(bitrate: u32, sample_rate: u32, channels: u8) -> Seq<char> {
    decimal((bitrate / 1000) as nat) + " kbps, "@ + decimal((sample_rate / 1000) as nat)
        + " kHz, "@ + channels_text(channels)
}

impl AudioMetadata {
    /// Creates new metadata with required fields
    pub fn new(format: AudioFormat, duration: Duration) -> (r: Self)
        ensures
            r.format == format,
            r.duration == duration,
            r.title is None && r.artist is None && r.album is None && r.album_artist is None,
            r.composer is None && r.genre is None && r.comment is None,
            r.year is None && r.track_number is None && r.disc_number is None,
            r.bitrate is None && r.sample_rate is None && r.channels is None,
            !r.has_cover_art,
    {
        AudioMetadata {
            format,
            title: None,
            artist: None,
            album: None,
            album_artist: None,
            composer: None,
            genre: None,
            year: None,
            track_number: None,
            disc_number: None,
            duration,
            bitrate: None,
            sample_rate: None,
            channels: None,
            comment: None,
            has_cover_art: false,
        }
    }

    /// Returns true if this metadata has basic audio info
    pub fn has_technical_info(&self) -> (r: bool)
        ensures
            r == has_technical_info_spec(self),
    {
        self.bitrate.is_some() && self.sample_rate.is_some() && self.channels.is_some()
    }

    /// Returns a human-readable technical summary
    pub fn technical_summary(&self) -> (r: Option<String>)
        ensures
            has_technical_info_spec(self) <==> r is Some,
            r matches Some(s) ==> s@ == technical_summary_text(
                self.bitrate->0,
                self.sample_rate->0,
                self.channels->0,
            ),
    {
        match (self.bitrate, self.sample_rate, self.channels) {
            (Some(bitrate), Some(sample_rate), Some(channels)) => {
                let kbps = u64_decimal((bitrate / 1000) as u64);
                let khz = u64_decimal((sample_rate / 1000) as u64);
                let ch = if channels == 1 {
                    "Mono"
                } else if channels == 2 {
                    "Stereo"
                } else {
                    "Multi-channel"
                };
                Some(cat5(kbps.as_str(), " kbps, ", khz.as_str(), " kHz, ", ch))
            },
            _ => None,
        }
    }
}

/// Cover art data
#[derive(Debug, Clone)]
pub struct CoverArt {
    pub data: Vec<u8>,
    pub mime_type: String,
}

pub open spec fn image_format_of(mime: Seq<char>) -> Option<Seq<char>> {
    if mime == "image/jpeg"@ {
        Some("jpeg"@)
    } else if mime == "image/png"@ {
        Some("png"@)
    } else if mime == "image/gif"@ {
        Some("gif"@)
    } else if mime == "image/bmp"@ {
        Some("bmp"@)
    } else if mime == "image/webp"@ {
        Some("webp"@)
    } else {
        None
    }
}

impl CoverArt {
    /// Creates new cover art
    pub fn new(data: Vec<u8>, mime_type: String) -> (r: Self)
        ensures
            r.data@ == data@,
            r.mime_type@ == mime_type@,
    {
        CoverArt { data, mime_type }
    }

    /// Returns the image format from MIME type
    pub fn image_format(&self) -> (r: Option<&'static str>)
        ensures
            match image_format_of(self.mime_type@) {
                Some(f) => r is Some && r->0@ == f,
                None => r is None,
            },
    {
        let m = chars_of(self.mime_type.as_str());
        if equals_literal(&m, "image/jpeg") {
            Some("jpeg")
        } else if equals_literal(&m, "image/png") {
            Some("png")
        } else if equals_literal(&m, "image/gif") {
            Some("gif")
        } else if equals_literal(&m, "image/bmp") {
            Some("bmp")
        } else if equals_literal(&m, "image/webp") {
            Some("webp")
        } else {
            None
        }
    }

    /// Returns the size of the cover art in bytes
    pub fn size(&self) -> (r: usize)
        ensures
            r == self.data@.len(),
    {
        self.data.len()
    }

    /// Returns true if the cover art is larger than the given size
    pub fn is_larger_than(&self, bytes: usize) -> (r: bool)
        ensures
            r == (self.data@.len() > bytes),
    {
        self.data.len() > bytes
    }
}

/// A format's extension written in any mix of upper and lower case, its
/// upper-case `Display` form among them, names that format again.
pub proof fn law_extension_in_any_case_names_its_format(f: AudioFormat, written: Seq<char>)
    requires
        ascii_lowercase(written) == extension_text(f),
    ensures
        format_for_extension(ascii_lowercase(written)) == Some(f),
        ascii_lowercase(format_display_text(f)) == extension_text(f),
{
    law_extension_names_its_format(f);
    let e = extension_text(f);
    assert(ascii_lowercase(e) =~= e);
    reveal_strlit("mp3");
    reveal_strlit("m4b");
    reveal_strlit("m4a");
    reveal_strlit("flac");
    reveal_strlit("ogg");
    reveal_strlit("opus");
    reveal_strlit("aac");
    reveal_strlit("wav");
    reveal_strlit("aiff");
    reveal_strlit("MP3");
    reveal_strlit("M4B");
    reveal_strlit("M4A");
    reveal_strlit("FLAC");
    reveal_strlit("OGG");
    reveal_strlit("OPUS");
    reveal_strlit("AAC");
    reveal_strlit("WAV");
    reveal_strlit("AIFF");
    assert(ascii_lowercase(format_display_text(f)) =~= extension_text(f));
}

} // verus!
