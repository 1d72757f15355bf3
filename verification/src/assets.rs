//! The fixed places of the audio files, and the artifact that a finished
//! cascade hands to the post.

use crate::cascade::{Backend, Verdict};
use crate::chars::ends_with;
use crate::mime::{mime_for_path, mime_of};
use vstd::prelude::*;
use vstd::string::*;

verus! {

/// Where the site keeps the output of the hosted backend, and the
/// placeholder.
pub const HOSTED_REFERENCE: &'static str = "static/audio/overview.mp3";

/// Where the site keeps the output of the phonetic synthesizer.
pub const PHONETIC_REFERENCE: &'static str = "static/audio/overview.wav";

/// Where the site keeps the output of the platform voice.
pub const PLATFORM_VOICE_REFERENCE: &'static str = "static/audio/overview.aiff";

/// The way from the directory in which the generator runs to the root of
/// the site.
pub const SITE_ROOT: &'static str = "../";

/// The scratch file that carries the text to a backend, as seen from the
/// directory in which the generator runs.
pub const SCRATCH_FILE: &'static str = "../static/audio/text_input.txt";

/// An audio file that a post can embed. Its MIME type is always the one
/// that goes with the extension of its path.
#[derive(Debug, PartialEq, Eq)]
pub struct AudioArtifact {
    path: String,
    mime: String,
}

/// An audio artifact as contracts see it.
pub struct AudioReference {
    /// The place of the file, relative to the root of the site.
    pub path: Seq<char>,
    /// The MIME type under which the file is embedded.
    pub mime: Seq<char>,
}

impl View for AudioArtifact {
    type V = AudioReference;

    closed spec fn view(&self) -> AudioReference {
        AudioReference { path: self.path@, mime: self.mime@ }
    }
}

impl AudioArtifact {
    #[verifier::type_invariant]
    spec fn mime_goes_with_path(&self) -> bool {
        self.mime@ == mime_of(self.path@)
    }

    /// The artifact for the audio file at `path`, relative to the root of
    /// the site.
    pub fn at(path: &str) -> (artifact: AudioArtifact)
        ensures
            artifact@.path == path@,
            artifact@.mime == mime_of(path@),
    {
        AudioArtifact { path: String::from_str(path), mime: String::from_str(mime_for_path(path)) }
    }

    /// The place of the file, relative to the root of the site.
    pub fn path(&self) -> (path: &str)
        ensures
            path@ == self@.path,
    {
        self.path.as_str()
    }

    /// The MIME type under which the file is embedded.
    pub fn mime(&self) -> (mime: &str)
        ensures
            mime@ == self@.mime,
            mime@ == mime_of(self@.path),
    {
        proof {
            use_type_invariant(self);
        }
        self.mime.as_str()
    }
}

impl Clone for AudioArtifact {
    fn clone(&self) -> (copy: AudioArtifact)
        ensures
            copy@ == self@,
    {
        proof {
            use_type_invariant(self);
        }
        AudioArtifact { path: self.path.clone(), mime: self.mime.clone() }
    }
}

/// The contract view of an artifact that may be absent.
pub open spec fn reference_of(artifact: Option<AudioArtifact>) -> Option<AudioReference> {
    match artifact {
        Some(present) => Some(present@),
        None => None,
    }
}

impl Backend {
    /// The place of this backend's output, relative to the root of the site.
    pub open spec fn reference_path(self) -> Seq<char> {
        match self {
            Backend::Hosted => HOSTED_REFERENCE@,
            Backend::Phonetic => PHONETIC_REFERENCE@,
            Backend::PlatformVoice => PLATFORM_VOICE_REFERENCE@,
        }
    }

    /// The file that this backend writes, as seen from the directory in
    /// which the generator runs.
    pub open spec fn output_file_path(self) -> Seq<char> {
        SITE_ROOT@ + self.reference_path()
    }

    /// The place of this backend's output, relative to the root of the site.
    pub fn reference(self) -> (path: &'static str)
        ensures
            path@ == self.reference_path(),
    {
        match self {
            Backend::Hosted => HOSTED_REFERENCE,
            Backend::Phonetic => PHONETIC_REFERENCE,
            Backend::PlatformVoice => PLATFORM_VOICE_REFERENCE,
        }
    }

    /// The file that this backend writes, as seen from the directory in
    /// which the generator runs.
    pub fn output_file(self) -> (path: String)
        ensures
            path@ == self.output_file_path(),
    {
        let mut path = String::from_str(SITE_ROOT);
        path.append(self.reference());
        path
    }
}

impl Verdict {
    /// The backend whose output file the verdict points at, if it points at
    /// one. The placeholder lies where the hosted backend writes.
    pub open spec fn source(self) -> Option<Backend> {
        match self {
            Verdict::Produced(backend) => Some(backend),
            Verdict::Placeholder => Some(Backend::Hosted),
            Verdict::Unavailable => None,
        }
    }

    /// The artifact that the verdict stands for: the fixed place of one
    /// backend's output with the MIME type of its extension, or nothing.
    pub open spec fn reference(self) -> Option<AudioReference> {
        match self.source() {
            Some(backend) => Some(
                AudioReference {
                    path: backend.reference_path(),
                    mime: mime_of(backend.reference_path()),
                },
            ),
            None => None,
        }
    }

    /// The artifact that the verdict stands for, or `None` when there is no
    /// audio to embed.
    pub fn artifact(self) -> (artifact: Option<AudioArtifact>)
        ensures
            reference_of(artifact) == self.reference(),
    {
        let backend = match self {
            Verdict::Produced(backend) => backend,
            Verdict::Placeholder => Backend::Hosted,
            Verdict::Unavailable => {
                return None;
            },
        };
        Some(AudioArtifact::at(backend.reference()))
    }
}

/// Each backend's output is embedded under the MIME type of its format:
/// compressed audio for the hosted backend, a waveform for the phonetic
/// synthesizer, the platform's format for the platform voice.
pub proof fn lemma_mime_of_fixed_paths()
    ensures
        mime_of(Backend::Hosted.reference_path()) == "audio/mpeg"@,
        mime_of(Backend::Phonetic.reference_path()) == "audio/wav"@,
        mime_of(Backend::PlatformVoice.reference_path()) == "audio/aiff"@,
        ends_with(Backend::Hosted.reference_path(), ".mp3"@),
        ends_with(Backend::Phonetic.reference_path(), ".wav"@),
        ends_with(Backend::PlatformVoice.reference_path(), ".aiff"@),
{
    reveal_strlit(".mp3");
    reveal_strlit(".wav");
    reveal_strlit(".aiff");
    reveal_strlit("static/audio/overview.mp3");
    reveal_strlit("static/audio/overview.wav");
    reveal_strlit("static/audio/overview.aiff");
    let mp3 = HOSTED_REFERENCE@;
    let wav = PHONETIC_REFERENCE@;
    let aiff = PLATFORM_VOICE_REFERENCE@;
    assert(mp3.subrange(mp3.len() - 4, mp3.len() as int) =~= ".mp3"@);
    assert(wav.subrange(wav.len() - 4, wav.len() as int) =~= ".wav"@);
    assert(aiff.subrange(aiff.len() - 5, aiff.len() as int) =~= ".aiff"@);
    assert(wav.subrange(wav.len() - 4, wav.len() as int)[1] == 'w');
    assert(aiff.subrange(aiff.len() - 4, aiff.len() as int)[0] == 'a');
}

/// The three fixed places differ from one another, so a verdict names its
/// backend's file and no other.
pub proof fn lemma_fixed_paths_differ(first: Backend, second: Backend)
    requires
        first != second,
    ensures
        first.reference_path() != second.reference_path(),
{
    reveal_strlit("static/audio/overview.mp3");
    reveal_strlit("static/audio/overview.wav");
    reveal_strlit("static/audio/overview.aiff");
    assert(HOSTED_REFERENCE@[22] == 'm');
    assert(PHONETIC_REFERENCE@[22] == 'w');
    assert(PLATFORM_VOICE_REFERENCE@[22] == 'a');
}

} // verus!
