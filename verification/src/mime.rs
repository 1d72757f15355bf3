//! The MIME type under which an audio file is embedded.

use crate::chars::{chars_of, ends_with, has_suffix};
use vstd::prelude::*;

verus! {

/// The MIME type of compressed audio.
pub const MIME_MPEG: &'static str = "audio/mpeg";

/// The MIME type of a waveform.
pub const MIME_WAV: &'static str = "audio/wav";

/// The MIME type of the platform's own audio format.
pub const MIME_AIFF: &'static str = "audio/aiff";

/// The extension of a file of compressed audio.
pub const MPEG_EXTENSION: &'static str = ".mp3";

/// The extension of a waveform file.
pub const WAV_EXTENSION: &'static str = ".wav";

/// The MIME type of the audio file at `path`. It is decided by the file
/// extension alone: compressed audio, a waveform, and the platform's own
/// format for anything else.
pub open spec fn mime_of(path: Seq<char>) -> Seq<char> {
    if ends_with(path, MPEG_EXTENSION@) {
        MIME_MPEG@
    } else if ends_with(path, WAV_EXTENSION@) {
        MIME_WAV@
    } else {
        MIME_AIFF@
    }
}

/// The MIME type under which the audio file at `path` is embedded.
pub fn mime_for_path(path: &str) -> (mime: &'static str)
    ensures
        mime@ == mime_of(path@),
{
    let chars = chars_of(path);
    if has_suffix(&chars, &chars_of(MPEG_EXTENSION)) {
        MIME_MPEG
    } else if has_suffix(&chars, &chars_of(WAV_EXTENSION)) {
        MIME_WAV
    } else {
        MIME_AIFF
    }
}

/// The MIME type is decided by the last four characters of the path: two
/// paths that end alike are embedded alike.
pub proof fn lemma_mime_depends_on_extension(first: Seq<char>, second: Seq<char>)
    requires
        first.len() >= 4,
        second.len() >= 4,
        first.subrange(first.len() - 4, first.len() as int) == second.subrange(
            second.len() - 4,
            second.len() as int,
        ),
    ensures
        mime_of(first) == mime_of(second),
{
    reveal_strlit(".mp3");
    reveal_strlit(".wav");
}

/// A path that ends in `.mp3` is compressed audio, one that ends in `.wav`
/// is a waveform, and every other path is taken for the platform's format,
/// among them every path that is shorter than an extension.
pub proof fn lemma_mime_by_extension(path: Seq<char>)
    ensures
        ends_with(path, ".mp3"@) ==> mime_of(path) == "audio/mpeg"@,
        ends_with(path, ".wav"@) ==> mime_of(path) == "audio/wav"@,
        !ends_with(path, ".mp3"@) && !ends_with(path, ".wav"@) ==> mime_of(path) == "audio/aiff"@,
        path.len() < 4 ==> mime_of(path) == "audio/aiff"@,
{
    reveal_strlit(".mp3");
    reveal_strlit(".wav");
    if ends_with(path, ".wav"@) && ends_with(path, ".mp3"@) {
        let tail = path.subrange(path.len() - 4, path.len() as int);
        assert(tail[1] == 'w');
        assert(tail[1] == 'm');
    }
}

} // verus!
