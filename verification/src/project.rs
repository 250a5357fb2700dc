//! The data the engine consumes: media kinds, clips, and project metadata.
//!
//! A project hands the engine a flat ordered clip sequence plus an optional
//! separate audio track (the voiceover).  Images are recognised so that they
//! can be kept out of the pipeline, which handles video and audio only.

use vstd::prelude::*;
use vstd::string::StringExecFns;
use vstd::string::StringSliceAdditionalSpecFns;

verus! {

/// The kind of media a file holds.
#[derive(Clone, Copy, Debug, PartialEq, Eq, Structural)]
pub enum MediaType {
    Audio,
    Video,
    Image,
}

/// One media source file plus its position in the project's flat ordered
/// sequence.  Durations are probed at runtime and are not part of the clip.
#[derive(Clone, Debug)]
pub struct Clip {
    /// Path of the media file.
    pub path: String,
    /// Kind of media the file holds.
    pub media_type: MediaType,
    /// Position in the project's ordered clip sequence.
    pub index: usize,
}

/// Descriptive information about a project.
#[derive(Clone, Debug)]
pub struct ProjectMetadata {
    /// Project name.
    pub name: String,
    /// Project description.
    pub description: String,
    /// Creation timestamp (seconds since the epoch, in decimal).
    pub created_at: Option<String>,
    /// Last-modified timestamp (seconds since the epoch, in decimal).
    pub modified_at: Option<String>,
}

impl Default for ProjectMetadata {
    fn default() -> (r: Self)
        ensures
            r.name@ == Seq::<char>::empty(),
            r.description@ == Seq::<char>::empty(),
            r.created_at is None,
            r.modified_at is None,
    {
        ProjectMetadata {
            name: String::new(),
            description: String::new(),
            created_at: None,
            modified_at: None,
        }
    }
}

/// The audio file extensions the project recognises.
pub open spec fn spec_is_audio_extension(ext: Seq<u8>) -> bool {
    ||| ext == seq![109u8, 112u8, 51u8]  // mp3
    ||| ext == seq![119u8, 97u8, 118u8]  // wav
    ||| ext == seq![102u8, 108u8, 97u8, 99u8]  // flac
    ||| ext == seq![111u8, 103u8, 103u8]  // ogg
    ||| ext == seq![109u8, 52u8, 97u8]  // m4a
}

/// The image file extensions the project recognises.
pub open spec fn spec_is_image_extension(ext: Seq<u8>) -> bool {
    ||| ext == seq![106u8, 112u8, 103u8]  // jpg
    ||| ext == seq![106u8, 112u8, 101u8, 103u8]  // jpeg
    ||| ext == seq![112u8, 110u8, 103u8]  // png
    ||| ext == seq![103u8, 105u8, 102u8]  // gif
    ||| ext == seq![119u8, 101u8, 98u8, 112u8]  // webp
}

/// The media kind a file extension implies; everything unknown is treated as
/// video, which the decoder then probes for real.
pub open spec fn spec_media_type_for_extension(ext: Seq<u8>) -> MediaType {
    if spec_is_audio_extension(ext) {
        MediaType::Audio
    } else if spec_is_image_extension(ext) {
        MediaType::Image
    } else {
        MediaType::Video
    }
}

/// Whether a byte slice holds exactly the three given bytes.
fn bytes_are3(b: &[u8], b0: u8, b1: u8, b2: u8) -> (r: bool)
    ensures
        r == (b@ == seq![b0, b1, b2]),
{
    let r = b.len() == 3 && b[0] == b0 && b[1] == b1 && b[2] == b2;
    proof {
        if r {
            assert(b@ =~= seq![b0, b1, b2]);
        }
        if b@ == seq![b0, b1, b2] {
            assert(b@.len() == 3);
        }
    }
    r
}

/// Whether a byte slice holds exactly the four given bytes.
fn bytes_are4(b: &[u8], b0: u8, b1: u8, b2: u8, b3: u8) -> (r: bool)
    ensures
        r == (b@ == seq![b0, b1, b2, b3]),
{
    let r = b.len() == 4 && b[0] == b0 && b[1] == b1 && b[2] == b2 && b[3] == b3;
    proof {
        if r {
            assert(b@ =~= seq![b0, b1, b2, b3]);
        }
        if b@ == seq![b0, b1, b2, b3] {
            assert(b@.len() == 4);
        }
    }
    r
}

/// Classify a file by its (lower-case) extension: known audio extensions give
/// `Audio`, known image extensions give `Image`, and anything else defaults
/// to `Video`.
pub fn media_type_for_extension(ext: &str) -> (r: MediaType)
    ensures
        r == spec_media_type_for_extension(ext.spec_bytes()),
{
    let b: &[u8] = ext.as_bytes();
    if bytes_are3(b, 109, 112, 51) || bytes_are3(b, 119, 97, 118) || bytes_are4(
        b,
        102,
        108,
        97,
        99,
    ) || bytes_are3(b, 111, 103, 103) || bytes_are3(b, 109, 52, 97) {
        MediaType::Audio
    } else if bytes_are3(b, 106, 112, 103) || bytes_are4(b, 106, 112, 101, 103) || bytes_are3(
        b,
        112,
        110,
        103,
    ) || bytes_are3(b, 103, 105, 102) || bytes_are4(b, 119, 101, 98, 112) {
        MediaType::Image
    } else {
        MediaType::Video
    }
}

/// The decimal digit character for a value below ten.
pub open spec fn spec_digit_char(d: int) -> char {
    (48 + d) as char
}

/// The decimal rendering of a natural number, most significant digit first.
pub open spec fn spec_decimal(n: int) -> Seq<char>
    decreases n,
{
    if n < 10 {
        seq![spec_digit_char(n)]
    } else {
        spec_decimal(n / 10) + seq![spec_digit_char(n % 10)]
    }
}

/// Append one decimal digit to a string.
fn push_digit(s: &mut String, d: u64)
    requires
        d < 10,
    ensures
        final(s)@ == old(s)@ + seq![spec_digit_char(d as int)],
{
    let digit: &str = match d {
        0 => "0",
        1 => "1",
        2 => "2",
        3 => "3",
        4 => "4",
        5 => "5",
        6 => "6",
        7 => "7",
        8 => "8",
        _ => "9",
    };
    proof {
        reveal_strlit("0");
        reveal_strlit("1");
        reveal_strlit("2");
        reveal_strlit("3");
        reveal_strlit("4");
        reveal_strlit("5");
        reveal_strlit("6");
        reveal_strlit("7");
        reveal_strlit("8");
        reveal_strlit("9");
        assert(digit@ =~= seq![spec_digit_char(d as int)]);
    }
    s.append(digit);
}

/// Append the decimal rendering of `n` to a string.
fn append_decimal(s: &mut String, n: u64)
    ensures
        final(s)@ == old(s)@ + spec_decimal(n as int),
    decreases n,
{
    if n < 10 {
        push_digit(s, n);
    } else {
        append_decimal(s, n / 10);
        push_digit(s, n % 10);
        proof {
            assert(old(s)@ + spec_decimal((n / 10) as int) + seq![
                spec_digit_char((n % 10) as int),
            ] =~= old(s)@ + spec_decimal(n as int));
        }
    }
}

/// The decimal rendering of a number as a fresh string.
pub fn decimal_string(n: u64) -> (r: String)
    ensures
        r@ == spec_decimal(n as int),
{
    let mut s = String::new();
    append_decimal(&mut s, n);
    proof {
        assert(Seq::<char>::empty() + spec_decimal(n as int) =~= spec_decimal(n as int));
    }
    s
}

/// Relies on `std::time::SystemTime::now`: the seconds elapsed since the Unix
/// epoch, or zero when the clock reads earlier than the epoch.  The value
/// depends on the wall clock, so nothing is promised of it.
#[verifier::external_body]
fn now_unix_secs() -> u64 {
    match std::time::SystemTime::now().duration_since(std::time::UNIX_EPOCH) {
        Ok(d) => d.as_secs(),
        Err(_) => 0,
    }
}

/// The current timestamp: seconds since the Unix epoch rendered in decimal.
pub fn chrono_now() -> (r: String)
    ensures
        exists|n: int| 0 <= n && r@ == spec_decimal(n),
{
    let secs = now_unix_secs();
    let r = decimal_string(secs);
    proof {
        assert(r@ == spec_decimal(secs as int));
    }
    r
}

} // verus!
