use blog_generator::assets::{
    AudioArtifact, HOSTED_REFERENCE, PHONETIC_REFERENCE, PLATFORM_VOICE_REFERENCE, SCRATCH_FILE,
    SITE_ROOT,
};
use blog_generator::cascade::{Backend, Verdict};

#[test]
fn the_fixed_places_are_under_the_audio_directory() {
    assert_eq!(HOSTED_REFERENCE, "static/audio/overview.mp3");
    assert_eq!(PHONETIC_REFERENCE, "static/audio/overview.wav");
    assert_eq!(PLATFORM_VOICE_REFERENCE, "static/audio/overview.aiff");
    assert_eq!(SCRATCH_FILE, "../static/audio/text_input.txt");
    assert_eq!(SITE_ROOT, "../");
}

#[test]
fn each_backend_has_its_own_file() {
    assert_eq!(Backend::Hosted.reference(), "static/audio/overview.mp3");
    assert_eq!(Backend::Phonetic.reference(), "static/audio/overview.wav");
    assert_eq!(Backend::PlatformVoice.reference(), "static/audio/overview.aiff");
    assert_eq!(Backend::Hosted.output_file(), "../static/audio/overview.mp3");
    assert_eq!(Backend::Phonetic.output_file(), "../static/audio/overview.wav");
    assert_eq!(Backend::PlatformVoice.output_file(), "../static/audio/overview.aiff");
}

#[test]
fn an_artifact_has_the_mime_type_of_its_extension() {
    let mp3 = AudioArtifact::at("static/audio/overview.mp3");
    assert_eq!(mp3.path(), "static/audio/overview.mp3");
    assert_eq!(mp3.mime(), "audio/mpeg");
    assert_eq!(AudioArtifact::at("somewhere/else.wav").mime(), "audio/wav");
    assert_eq!(AudioArtifact::at("somewhere/else.flac").mime(), "audio/aiff");
    assert_eq!(AudioArtifact::at("").mime(), "audio/aiff");
}

#[test]
fn a_copy_of_an_artifact_equals_it() {
    let artifact = AudioArtifact::at("static/audio/overview.wav");
    let copy = artifact.clone();
    assert_eq!(copy, artifact);
    assert_eq!(copy.path(), "static/audio/overview.wav");
    assert_eq!(copy.mime(), "audio/wav");
}

#[test]
fn a_verdict_stands_for_its_backends_file() {
    let hosted = Verdict::Produced(Backend::Hosted).artifact().unwrap();
    assert_eq!((hosted.path(), hosted.mime()), ("static/audio/overview.mp3", "audio/mpeg"));
    let phonetic = Verdict::Produced(Backend::Phonetic).artifact().unwrap();
    assert_eq!((phonetic.path(), phonetic.mime()), ("static/audio/overview.wav", "audio/wav"));
    let platform = Verdict::Produced(Backend::PlatformVoice).artifact().unwrap();
    assert_eq!((platform.path(), platform.mime()), ("static/audio/overview.aiff", "audio/aiff"));
}

#[test]
fn the_placeholder_lies_where_the_hosted_backend_writes() {
    assert_eq!(Verdict::Placeholder.artifact(), Verdict::Produced(Backend::Hosted).artifact());
    assert_eq!(Verdict::Placeholder.artifact().unwrap().path(), "static/audio/overview.mp3");
}

#[test]
fn no_audio_is_no_artifact() {
    assert_eq!(Verdict::Unavailable.artifact(), None);
}
