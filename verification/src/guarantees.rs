//! What holds of every run of the cascade.

use crate::assets::{
    lemma_fixed_paths_differ, lemma_mime_of_fixed_paths, HOSTED_REFERENCE,
    PLATFORM_VOICE_REFERENCE,
};
use crate::cascade::{
    Action, AttemptOutcome, Backend, Report, Stage, Verdict, MIN_AUDIO_BYTES,
};
use crate::chars::ends_with;
use crate::runs::{
    action_at, attempt_outcome, attempt_start, is_complete_run, lemma_attempt,
    lemma_complete_run_shape, lemma_stage_after_step, placeholder_at, stage_after, verdict_after,
};
use vstd::prelude::*;

verus! {

/// Whether the actions that `reports` answer leave the scratch file behind:
/// the last of them that touched the file was a write. A write counts
/// whether or not it succeeded, since a failed write may leave a file too.
pub open spec fn scratch_left_behind(reports: Seq<Report>) -> bool
    decreases reports.len(),
{
    if reports.len() == 0 {
        false
    } else {
        match action_at(reports, reports.len() - 1) {
            Some(Action::WriteScratch) => true,
            Some(Action::RemoveScratch) => false,
            _ => scratch_left_behind(reports.drop_last()),
        }
    }
}

/// The scratch file is in use exactly while a backend is about to run on
/// it or its removal is pending. A cascade that is over has asked for the
/// removal of every scratch file that it asked to be written.
pub proof fn lemma_scratch_is_removed(reports: Seq<Report>)
    ensures
        scratch_left_behind(reports) == stage_after(reports).scratch_in_use(),
        stage_after(reports) is Finished ==> !scratch_left_behind(reports),
    decreases reports.len(),
{
    if reports.len() > 0 {
        let before = reports.drop_last();
        lemma_scratch_is_removed(before);
        assert(reports.take(reports.len() - 1) =~= before);
        assert(action_at(before, before.len() as int) == stage_after(before).pending()) by {
            assert(before.take(before.len() as int) =~= before);
        }
        assert(action_at(reports, reports.len() - 1) == stage_after(before).pending());
    }
}

/// A backend runs on a scratch file that was written just before: the
/// action before the backend's is the write, and it succeeded.
pub proof fn lemma_backend_runs_on_fresh_scratch(
    reports: Seq<Report>,
    index: int,
    backend: Backend,
)
    requires
        0 <= index <= reports.len(),
        action_at(reports, index) == Some(Action::Invoke(backend)),
    ensures
        index >= 1,
        action_at(reports, index - 1) == Some(Action::WriteScratch),
        reports[index - 1].ok,
{
    if index == 0 {
        assert(reports.take(0) =~= Seq::<Report>::empty());
    } else {
        lemma_stage_after_step(reports, index - 1);
    }
}

/// The scratch file does not outlive the run of a backend: whatever the
/// backend reports, the next action is the removal of the scratch file.
pub proof fn lemma_scratch_is_removed_after_each_run(
    reports: Seq<Report>,
    index: int,
    backend: Backend,
)
    requires
        0 <= index < reports.len(),
        action_at(reports, index) == Some(Action::Invoke(backend)),
    ensures
        action_at(reports, index + 1) == Some(Action::RemoveScratch),
{
    lemma_stage_after_step(reports, index);
}

/// The cascade only moves forward: the bound on the actions that are left
/// never grows along a run, and shrinks while the cascade is under way.
pub proof fn lemma_actions_left_shrinks(reports: Seq<Report>, earlier: int, later: int)
    requires
        0 <= earlier <= later <= reports.len(),
    ensures
        stage_after(reports.take(later)).actions_left() <= stage_after(
            reports.take(earlier),
        ).actions_left(),
        earlier < later && !(stage_after(reports.take(earlier)) is Finished) ==> stage_after(
            reports.take(later),
        ).actions_left() < stage_after(reports.take(earlier)).actions_left(),
    decreases later - earlier,
{
    if earlier < later {
        lemma_actions_left_shrinks(reports, earlier, later - 1);
        lemma_stage_after_step(reports, later - 1);
    }
}

/// Backends run in the order of priority, and none runs twice: of two
/// backends that were run, the one that ran first comes first in that order.
pub proof fn lemma_backends_run_in_order(
    reports: Seq<Report>,
    earlier: int,
    later: int,
    first: Backend,
    second: Backend,
)
    requires
        0 <= earlier < later <= reports.len(),
        action_at(reports, earlier) == Some(Action::Invoke(first)),
        action_at(reports, later) == Some(Action::Invoke(second)),
    ensures
        first.rank_from_last() > second.rank_from_last(),
        first != second,
{
    lemma_actions_left_shrinks(reports, earlier, later);
}

/// An accepted attempt is final: once a backend's audio is accepted, the
/// cascade ends with that backend's verdict and accepts no other.
pub proof fn lemma_accepted_attempt_is_final(
    reports: Seq<Report>,
    index: int,
    later: int,
    backend: Backend,
)
    requires
        0 <= index < later <= reports.len(),
        stage_after(reports.take(index)) == Stage::Clearing(backend, AttemptOutcome::Produced),
    ensures
        stage_after(reports.take(later)) == Stage::Finished(Verdict::Produced(backend)),
    decreases later - index,
{
    lemma_stage_after_step(reports, later - 1);
    if index + 1 < later {
        lemma_accepted_attempt_is_final(reports, index, later - 1, backend);
    }
}

/// A verdict points at the fixed place of one backend's output and at no
/// other, or at nothing; and it points at nothing only when the placeholder
/// could not be created.
pub proof fn lemma_verdict_names_one_file(verdict: Verdict, other: Backend)
    ensures
        verdict.reference() is None <==> verdict == Verdict::Unavailable,
        verdict.reference() matches Some(reference) ==> {
            &&& verdict.source() matches Some(source)
            &&& reference.path == source.reference_path()
            &&& other != source ==> reference.path != other.reference_path()
        },
{
    if let Some(source) = verdict.source() {
        if other != source {
            lemma_fixed_paths_differ(source, other);
        }
    }
}

/// When the scratch file is written and the hosted backend succeeds with an
/// output larger than the threshold, the run is over after the removal of
/// the scratch file: no other backend is run, and the result is the
/// compressed audio.
pub proof fn lemma_accepted_hosted_audio_ends_the_run(reports: Seq<Report>)
    requires
        is_complete_run(reports),
        reports[0].ok,
        reports[1].ok,
        reports[1].output_bytes matches Some(bytes) && bytes > MIN_AUDIO_BYTES,
    ensures
        reports.len() == 3,
        action_at(reports, 0) == Some(Action::WriteScratch),
        action_at(reports, 1) == Some(Action::Invoke(Backend::Hosted)),
        action_at(reports, 2) == Some(Action::RemoveScratch),
        verdict_after(reports) == Verdict::Produced(Backend::Hosted),
        verdict_after(reports).reference() matches Some(reference) && reference.path
            == HOSTED_REFERENCE@ && ends_with(reference.path, ".mp3"@) && reference.mime
            == "audio/mpeg"@,
{
    lemma_complete_run_shape(reports);
    assert(reports.take(0) =~= Seq::<Report>::empty());
    lemma_attempt(reports, Backend::Hosted, 0);
    lemma_mime_of_fixed_paths();
}

/// When the hosted backend leaves an output that is not larger than the
/// threshold, or none, its attempt is declined whatever it reported, and
/// the cascade goes on to the phonetic synthesizer: the scratch file is
/// written anew, and if that succeeds the synthesizer is run.
pub proof fn lemma_small_hosted_audio_is_declined(reports: Seq<Report>)
    requires
        is_complete_run(reports),
        reports[0].ok,
        reports[1].output_bytes matches Some(bytes) ==> bytes <= MIN_AUDIO_BYTES,
    ensures
        attempt_outcome(reports, Backend::Hosted) is Failed,
        reports.len() >= 6,
        stage_after(reports.take(3)) == Stage::Staging(Backend::Phonetic),
        action_at(reports, 3) == Some(Action::WriteScratch),
        reports[3].ok ==> action_at(reports, 4) == Some(Action::Invoke(Backend::Phonetic)),
{
    lemma_complete_run_shape(reports);
    assert(reports.take(0) =~= Seq::<Report>::empty());
    lemma_attempt(reports, Backend::Hosted, 0);
    lemma_attempt(reports, Backend::Phonetic, 3);
}

/// When the hosted backend and the phonetic synthesizer decline and the
/// platform voice succeeds, the result is the waveform that the platform
/// voice wrote.
pub proof fn lemma_platform_voice_is_the_last_resort(reports: Seq<Report>)
    requires
        is_complete_run(reports),
        attempt_outcome(reports, Backend::Hosted) is Failed,
        attempt_outcome(reports, Backend::Phonetic) is Failed,
        attempt_outcome(reports, Backend::PlatformVoice) is Produced,
    ensures
        reports.len() == attempt_start(reports, Backend::PlatformVoice) + 3,
        verdict_after(reports) == Verdict::Produced(Backend::PlatformVoice),
        verdict_after(reports).reference() matches Some(reference) && reference.path
            == PLATFORM_VOICE_REFERENCE@ && ends_with(reference.path, ".aiff"@) && reference.mime
            == "audio/aiff"@,
{
    lemma_complete_run_shape(reports);
    lemma_mime_of_fixed_paths();
}

/// When every backend declines, the last action of the run is the creation
/// of the placeholder. If the placeholder was created, the result points at
/// it, where the hosted backend would have written; if not, there is no
/// audio.
pub proof fn lemma_placeholder_after_total_failure(reports: Seq<Report>)
    requires
        is_complete_run(reports),
        attempt_outcome(reports, Backend::Hosted) is Failed,
        attempt_outcome(reports, Backend::Phonetic) is Failed,
        attempt_outcome(reports, Backend::PlatformVoice) is Failed,
    ensures
        reports.len() == placeholder_at(reports) + 1,
        action_at(reports, reports.len() - 1) == Some(Action::CreatePlaceholder),
        reports.last().ok ==> verdict_after(reports) == Verdict::Placeholder,
        reports.last().ok ==> (verdict_after(reports).reference() matches Some(reference)
            && reference.path == HOSTED_REFERENCE@ && reference.mime == "audio/mpeg"@),
        !reports.last().ok ==> verdict_after(reports) == Verdict::Unavailable,
        !reports.last().ok ==> verdict_after(reports).reference() is None,
{
    lemma_complete_run_shape(reports);
    lemma_mime_of_fixed_paths();
    assert(reports.take(0) =~= Seq::<Report>::empty());
    let phonetic = attempt_start(reports, Backend::Phonetic);
    let platform = attempt_start(reports, Backend::PlatformVoice);
    lemma_attempt(reports, Backend::Hosted, 0);
    lemma_attempt(reports, Backend::Phonetic, phonetic);
    lemma_attempt(reports, Backend::PlatformVoice, platform);
}

} // verus!
