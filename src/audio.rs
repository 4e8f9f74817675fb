//! Audio files as the catalog sees them: a path, a title derived from it, and
//! the rules an uploaded file must meet.

use vstd::prelude::*;
use vstd::string::*;
use crate::text::push_char;

verus! {

/// The position of the last `c` in `s`, or -1.
pub open spec fn last_index_of(s: Seq<char>, c: char) -> int
    decreases s.len(),
{
    if s.len() == 0 {
        -1
    } else if s.last() == c {
        s.len() - 1
    } else {
        last_index_of(s.drop_last(), c)
    }
}

/// The last component of a `/`-separated path.
pub open spec fn file_name(p: Seq<char>) -> Seq<char> {
    p.subrange(last_index_of(p, '/') + 1, p.len() as int)
}

/// The file name without its extension: up to the last `.`, unless that dot
/// opens the name.
pub open spec fn file_stem(p: Seq<char>) -> Seq<char> {
    let n = file_name(p);
    let d = last_index_of(n, '.');
    if d > 0 {
        n.subrange(0, d)
    } else {
        n
    }
}

pub open spec fn upper_char(c: char) -> char {
    if 'a' <= c && c <= 'z' {
        (c as int - 32) as char
    } else {
        c
    }
}

pub open spec fn lower_char(c: char) -> char {
    if 'A' <= c && c <= 'Z' {
        (c as int + 32) as char
    } else {
        c
    }
}

/// `_` and `-` read as spaces.
pub open spec fn spaced(s: Seq<char>) -> Seq<char> {
    Seq::new(
        s.len(),
        |i: int|
            if s[i] == '_' || s[i] == '-' {
                ' '
            } else {
                s[i]
            },
    )
}

/// Each space-separated word with its first letter in upper case and the rest
/// in lower case.
pub open spec fn title_case(s: Seq<char>) -> Seq<char> {
    Seq::new(
        s.len(),
        |i: int|
            if i == 0 || s[i - 1] == ' ' {
                upper_char(s[i])
            } else {
                lower_char(s[i])
            },
    )
}

/// A stored audio file, by its path.
#[derive(Debug, Clone, PartialEq, Eq)]
pub struct AudioFile {
    path: String,
}

impl View for AudioFile {
    type V = Seq<char>;

    closed spec fn view(&self) -> Seq<char> {
        self.path@
    }
}

fn last_index(s: &str, c: char) -> (r: Option<usize>)
    ensures
        match r {
            Some(i) => last_index_of(s@, c) == i && i < s@.len(),
            None => last_index_of(s@, c) == -1,
        },
{
    let n = s.unicode_len();
    let mut j: usize = n;
    assert(s@.subrange(0, n as int) =~= s@);
    while j > 0
        invariant
            j <= n == s@.len(),
            last_index_of(s@, c) == last_index_of(s@.subrange(0, j as int), c),
        decreases j,
    {
        let ghost p = s@.subrange(0, j as int);
        assert(p.drop_last() =~= s@.subrange(0, j - 1));
        if s.get_char(j - 1) == c {
            return Some(j - 1);
        }
        j -= 1;
    }
    None
}

impl AudioFile {
    pub fn new(path: String) -> (r: AudioFile)
        ensures
            r@ == path@,
    {
        AudioFile { path }
    }

    pub fn path(&self) -> (r: &str)
        ensures
            r@ == self@,
    {
        self.path.as_str()
    }

    /// The file name without its extension.
    pub fn file_stem(&self) -> (r: String)
        ensures
            r@ == file_stem(self@),
    {
        proof {
            assert(self.path@.subrange(0, self.path@.len() as int) =~= self.path@);
        }
        let p = self.path.as_str();
        let n = p.unicode_len();
        let start: usize = match last_index(p, '/') {
            Some(i) => i + 1,
            None => 0,
        };
        let name = p.substring_char(start, n);
        match last_index(name, '.') {
            Some(d) => {
                if d > 0 {
                    String::from_str(name.substring_char(0, d))
                } else {
                    String::from_str(name)
                }
            },
            None => String::from_str(name),
        }
    }

    /// A display title from the file name: `_` and `-` become spaces and each
    /// word is capitalised.
    pub fn audio_title(&self) -> (r: String)
        ensures
            r@ == title_case(spaced(file_stem(self@))),
    {
        let stem = self.file_stem();
        let s = stem.as_str();
        let n = s.unicode_len();
        let ghost sp = spaced(s@);
        let mut out = String::new();
        let mut i: usize = 0;
        let mut prev_space = true;
        while i < n
            invariant
                n == s@.len(),
                i <= n,
                sp == spaced(s@),
                out@ =~= title_case(sp).subrange(0, i as int),
                prev_space == (i == 0 || sp[i - 1] == ' '),
            decreases n - i,
        {
            let mut c = s.get_char(i);
            if c == '_' || c == '-' {
                c = ' ';
            }
            assert(c == sp[i as int]);
            let t = if prev_space {
                if 'a' <= c && c <= 'z' {
                    ((c as u32 - 32) as u8) as char
                } else {
                    c
                }
            } else {
                if 'A' <= c && c <= 'Z' {
                    ((c as u32 + 32) as u8) as char
                } else {
                    c
                }
            };
            push_char(&mut out, t);
            prev_space = c == ' ';
            i += 1;
        }
        out
    }
}

/// Removes the first file with `audio_file`'s path; a list without it is
/// left as it is.
pub fn remove_audio_file(files: &mut Vec<AudioFile>, audio_file: &AudioFile)
    ensures
        (forall|j: int| 0 <= j < old(files)@.len() ==> (#[trigger] old(files)@[j])@ != audio_file@)
            ==> final(files)@ == old(files)@,
        forall|k: int|
            0 <= k < old(files)@.len() && (#[trigger] old(files)@[k])@ == audio_file@ && (forall|j: int|
                0 <= j < k ==> (#[trigger] old(files)@[j])@ != audio_file@) ==> final(files)@ == old(
                files,
            )@.remove(k),
{
    let mut i: usize = 0;
    while i < files.len()
        invariant
            files@ == old(files)@,
            i <= files@.len(),
            forall|j: int| 0 <= j < i ==> (#[trigger] files@[j])@ != audio_file@,
        decreases files@.len() - i,
    {
        if crate::text::str_eq(files[i].path.as_str(), audio_file.path.as_str()) {
            files.remove(i);
            return;
        }
        i += 1;
    }
}

/// A list of files from which one can be taken out.
pub trait RemoveAudioFile {
    fn remove_audio_file(&mut self, audio_file: &AudioFile);
}

impl RemoveAudioFile for Vec<AudioFile> {
    fn remove_audio_file(&mut self, audio_file: &AudioFile) {
        remove_audio_file(self, audio_file)
    }
}

/// How long a track is.
#[derive(Debug, Clone, Copy, PartialEq, Eq, Structural)]
pub struct AudioTrackInfo {
    pub duration_ms: u64,
}

pub uninterp spec fn parses_as_uuid(s: Seq<char>) -> bool;

/// Relies on uuid's `Uuid::parse_str`: whether the text is a UUID; the answer
/// depends on the text alone.
#[verifier::external_body]
fn is_uuid(s: &str) -> (r: bool)
    ensures
        r == parses_as_uuid(s@),
{
    uuid::Uuid::parse_str(s).is_ok()
}

/// The rules an uploaded audio file must meet.
#[derive(Debug, Clone, Copy, PartialEq, Eq, Structural)]
pub struct AudioFileValidator {
    pub max_duration_ms: u64,
    pub reject_uuid_files: bool,
}

/// Seven seconds.
pub const DEFAULT_MAX_AUDIO_DURATION_MS: u64 = 7000;

/// Why an audio file was refused.
#[derive(Debug, Clone, PartialEq, Eq)]
pub enum AudioFileRejection {
    /// The file name is a UUID, as for files the bot stored itself.
    UuidFileName,
    /// The track is longer than allowed.
    TooLong { duration_ms: u64, max_duration_ms: u64 },
}

impl AudioFileValidator {
    pub fn new() -> (r: AudioFileValidator)
        ensures
            r.max_duration_ms == DEFAULT_MAX_AUDIO_DURATION_MS,
            r.reject_uuid_files,
    {
        AudioFileValidator { max_duration_ms: DEFAULT_MAX_AUDIO_DURATION_MS, reject_uuid_files: true }
    }

    pub fn max_audio_duration(self, max_duration_ms: u64) -> (r: AudioFileValidator)
        ensures
            r == (AudioFileValidator { max_duration_ms, ..self }),
    {
        AudioFileValidator { max_duration_ms, ..self }
    }

    pub fn reject_uuid_files(self, reject: bool) -> (r: AudioFileValidator)
        ensures
            r == (AudioFileValidator { reject_uuid_files: reject, ..self }),
    {
        AudioFileValidator { reject_uuid_files: reject, ..self }
    }

    /// Judges a file by its stem and its probed length: a UUID stem is refused
    /// where the validator says so, then a track longer than the maximum.
    pub fn check(&self, stem_is_uuid: bool, track: AudioTrackInfo) -> (r: Result<(), AudioFileRejection>)
        ensures
            r == (if self.reject_uuid_files && stem_is_uuid {
                Err(AudioFileRejection::UuidFileName)
            } else if track.duration_ms > self.max_duration_ms {
                Err(
                    AudioFileRejection::TooLong {
                        duration_ms: track.duration_ms,
                        max_duration_ms: self.max_duration_ms,
                    },
                )
            } else {
                Ok(())
            }),
    {
        if self.reject_uuid_files && stem_is_uuid {
            Err(AudioFileRejection::UuidFileName)
        } else if track.duration_ms > self.max_duration_ms {
            Err(
                AudioFileRejection::TooLong {
                    duration_ms: track.duration_ms,
                    max_duration_ms: self.max_duration_ms,
                },
            )
        } else {
            Ok(())
        }
    }

    /// Judges a file by its path and its probed length.
    pub fn validate(&self, file: &AudioFile, track: AudioTrackInfo) -> (r: Result<
        (),
        AudioFileRejection,
    >)
        ensures
            r == (if self.reject_uuid_files && parses_as_uuid(file_stem(file@)) {
                Err(AudioFileRejection::UuidFileName)
            } else if track.duration_ms > self.max_duration_ms {
                Err(
                    AudioFileRejection::TooLong {
                        duration_ms: track.duration_ms,
                        max_duration_ms: self.max_duration_ms,
                    },
                )
            } else {
                Ok(())
            }),
    {
        let stem = file.file_stem();
        let uuid = is_uuid(stem.as_str());
        self.check(uuid, track)
    }
}

pub open spec fn is_mp3_content_type_spec(ct: Seq<char>) -> bool {
    ct == "audio/mpeg"@ || ct == "audio/mpeg3"@ || ct == "x-mpeg-3"@
}

/// Whether a declared content type is one of the MP3 types accepted for
/// upload.
pub fn is_mp3_content_type(content_type: &str) -> (r: bool)
    ensures
        r == is_mp3_content_type_spec(content_type@),
{
    crate::text::str_eq(content_type, "audio/mpeg") || crate::text::str_eq(content_type, "audio/mpeg3")
        || crate::text::str_eq(content_type, "x-mpeg-3")
}

/// Why playing a sound failed.
#[derive(Debug, Clone, PartialEq, Eq)]
pub enum AudioError {
    AudioTrackNotFound { track: String },
    NotInVoiceChannel,
}

impl AudioError {
    /// A sentence for the user.
    pub fn message(&self) -> (r: String)
        ensures
            r@ == match self {
                AudioError::AudioTrackNotFound { track } => "Audio Track not found - "@ + track@,
                AudioError::NotInVoiceChannel => "Bot not in voice channel."@,
            },
    {
        match self {
            AudioError::AudioTrackNotFound { track } => {
                let mut s = String::from_str("Audio Track not found - ");
                s.append(track.as_str());
                s
            },
            AudioError::NotInVoiceChannel => String::from_str("Bot not in voice channel."),
        }
    }
}

} // verus!
