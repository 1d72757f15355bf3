//! Whole runs of the cascade: what a sequence of reports leads to.
//!
//! A run is told by the reports that the caller gave, in order. The first
//! report answers the first action of the initial stage, and each further
//! report answers the action of the stage that the reports before it led to.

use crate::cascade::{Action, AttemptOutcome, Backend, Decline, Report, Stage, Verdict};
use vstd::prelude::*;

verus! {

/// The stage that the cascade has reached when the caller has given
/// `reports`, in order, starting from the initial stage.
pub open spec fn stage_after(reports: Seq<Report>) -> Stage
    decreases reports.len(),
{
    if reports.len() == 0 {
        Stage::initial()
    } else {
        stage_after(reports.drop_last()).after(reports.last())
    }
}

/// The action that the report at `index` answers, if the cascade was not
/// over by then.
pub open spec fn action_at(reports: Seq<Report>, index: int) -> Option<Action> {
    stage_after(reports.take(index)).pending()
}

/// Whether `reports` tells a run from its beginning to its end: the cascade
/// is over after the last report and was not over before it.
pub open spec fn is_complete_run(reports: Seq<Report>) -> bool {
    &&& stage_after(reports) is Finished
    &&& forall|index: int|
        0 <= index < reports.len() ==> !(#[trigger] stage_after(reports.take(index)) is Finished)
}

/// The verdict that a complete run has reached.
pub open spec fn verdict_after(reports: Seq<Report>) -> Verdict
    recommends
        stage_after(reports) is Finished,
{
    stage_after(reports)->Finished_0
}

/// One more report moves the cascade by one step.
pub proof fn lemma_stage_after_step(reports: Seq<Report>, index: int)
    requires
        0 <= index < reports.len(),
    ensures
        stage_after(reports.take(index + 1)) == stage_after(reports.take(index)).after(
            reports[index],
        ),
{
    let longer = reports.take(index + 1);
    assert(longer.drop_last() =~= reports.take(index));
    assert(longer.last() == reports[index]);
}

/// A report that is added to a run moves the cascade by one step.
pub proof fn lemma_stage_after_push(reports: Seq<Report>, report: Report)
    ensures
        stage_after(reports.push(report)) == stage_after(reports).after(report),
        forall|index: int|
            0 <= index <= reports.len() ==> #[trigger] reports.push(report).take(index)
                == reports.take(index),
{
    assert(reports.push(report).drop_last() =~= reports);
    assert forall|index: int| 0 <= index <= reports.len() implies #[trigger] reports.push(
        report,
    ).take(index) == reports.take(index) by {
        assert(reports.push(report).take(index) =~= reports.take(index));
    }
}

/// Every cascade ends: each report uses up one of at most ten actions, so
/// a cascade that is still under way has had fewer than ten reports.
pub proof fn lemma_run_is_bounded(reports: Seq<Report>)
    ensures
        !(stage_after(reports) is Finished) ==> reports.len() + stage_after(
            reports,
        ).actions_left() <= 10,
        reports.len() >= 10 ==> stage_after(reports) is Finished,
    decreases reports.len(),
{
    if reports.len() > 0 {
        lemma_run_is_bounded(reports.drop_last());
    }
}

/// The number of reports that the attempt beginning at `at` takes: one on
/// the scratch write, one on the backend if the write succeeded, and one on
/// the removal of the scratch file.
pub open spec fn attempt_span(reports: Seq<Report>, at: int) -> int {
    if reports[at].ok {
        3
    } else {
        2
    }
}

/// The index of the report on the scratch write for `backend`, in a run in
/// which every backend before it declined.
pub open spec fn attempt_start(reports: Seq<Report>, backend: Backend) -> int {
    match backend {
        Backend::Hosted => 0,
        Backend::Phonetic => attempt_span(reports, 0),
        Backend::PlatformVoice => attempt_span(reports, 0) + attempt_span(
            reports,
            attempt_span(reports, 0),
        ),
    }
}

/// The index of the report on the placeholder, in a run in which every
/// backend declined.
pub open spec fn placeholder_at(reports: Seq<Report>) -> int {
    attempt_start(reports, Backend::PlatformVoice) + attempt_span(
        reports,
        attempt_start(reports, Backend::PlatformVoice),
    )
}

/// How the attempt of `backend` ended, in a run in which every backend
/// before it declined: it was not run if the scratch file could not be
/// written, and was judged by its report otherwise.
pub open spec fn attempt_outcome(reports: Seq<Report>, backend: Backend) -> AttemptOutcome {
    let at = attempt_start(reports, backend);
    if reports[at].ok {
        backend.verdict_on(reports[at + 1])
    } else {
        AttemptOutcome::Failed(Decline::ScratchNotWritten)
    }
}

/// The verdict of the run that `reports` tells: the first backend in the
/// order of priority whose attempt was accepted, and if there is none, the
/// placeholder if it could be created.
pub open spec fn verdict_of(reports: Seq<Report>) -> Verdict {
    if attempt_outcome(reports, Backend::Hosted) is Produced {
        Verdict::Produced(Backend::Hosted)
    } else if attempt_outcome(reports, Backend::Phonetic) is Produced {
        Verdict::Produced(Backend::Phonetic)
    } else if attempt_outcome(reports, Backend::PlatformVoice) is Produced {
        Verdict::Produced(Backend::PlatformVoice)
    } else if reports[placeholder_at(reports)].ok {
        Verdict::Placeholder
    } else {
        Verdict::Unavailable
    }
}

/// The number of reports in the run that `reports` tells: the attempts up
/// to the first that was accepted, or all of them and the placeholder.
pub open spec fn length_of_run(reports: Seq<Report>) -> int {
    if attempt_outcome(reports, Backend::Hosted) is Produced {
        3
    } else if attempt_outcome(reports, Backend::Phonetic) is Produced {
        attempt_start(reports, Backend::Phonetic) + 3
    } else if attempt_outcome(reports, Backend::PlatformVoice) is Produced {
        attempt_start(reports, Backend::PlatformVoice) + 3
    } else {
        placeholder_at(reports) + 1
    }
}

/// The stage that follows the attempt of `backend` when it ended with
/// `outcome`: the end of the cascade if the attempt was accepted, the next
/// backend in line if it was not, and the placeholder after the last one.
pub open spec fn stage_after_attempt(backend: Backend, outcome: AttemptOutcome) -> Stage {
    match outcome {
        AttemptOutcome::Produced => Stage::Finished(Verdict::Produced(backend)),
        AttemptOutcome::Failed(_) => match backend.successor() {
            Some(following) => Stage::Staging(following),
            None => Stage::Placeholding,
        },
    }
}

/// How the cascade passes through one attempt. From the stage in which the
/// scratch file is to be written for `backend`, reached after `at` reports,
/// the cascade is under way until the report on the removal of the scratch
/// file, and then stands where the outcome of the attempt leads.
pub proof fn lemma_attempt(reports: Seq<Report>, backend: Backend, at: int)
    requires
        0 <= at <= reports.len(),
        stage_after(reports.take(at)) == Stage::Staging(backend),
    ensures
        at + 1 <= reports.len() ==> !(stage_after(reports.take(at + 1)) is Finished),
        at + 1 <= reports.len() ==> stage_after(reports.take(at + 1)).scratch_in_use(),
        at + 2 <= reports.len() && reports[at].ok ==> stage_after(reports.take(at + 2))
            == Stage::Clearing(backend, backend.verdict_on(reports[at + 1])),
        at + 1 <= reports.len() && reports[at].ok ==> action_at(reports, at + 1) == Some(
            Action::Invoke(backend),
        ),
        at + attempt_span(reports, at) <= reports.len() ==> action_at(
            reports,
            at + attempt_span(reports, at) - 1,
        ) == Some(Action::RemoveScratch),
        at + attempt_span(reports, at) <= reports.len() ==> stage_after(
            reports.take(at + attempt_span(reports, at)),
        ) == stage_after_attempt(
            backend,
            if reports[at].ok {
                backend.verdict_on(reports[at + 1])
            } else {
                AttemptOutcome::Failed(Decline::ScratchNotWritten)
            },
        ),
{
    if at + 1 <= reports.len() {
        lemma_stage_after_step(reports, at);
    }
    if at + 2 <= reports.len() {
        lemma_stage_after_step(reports, at + 1);
    }
    if at + 3 <= reports.len() {
        lemma_stage_after_step(reports, at + 2);
    }
}

/// The shape of every complete run. The backends are tried in the order of
/// priority, the run ends with the first attempt that is accepted, and the
/// placeholder is created only when every backend declined.
pub proof fn lemma_complete_run_shape(reports: Seq<Report>)
    requires
        is_complete_run(reports),
    ensures
        reports.len() == length_of_run(reports),
        verdict_after(reports) == verdict_of(reports),
{
    let n = reports.len() as int;
    assert(reports.take(n) =~= reports);
    assert(reports.take(0) =~= Seq::<Report>::empty());
    let hosted = attempt_start(reports, Backend::Hosted);
    let phonetic = attempt_start(reports, Backend::Phonetic);
    let platform = attempt_start(reports, Backend::PlatformVoice);
    let placeholder = placeholder_at(reports);
    lemma_attempt(reports, Backend::Hosted, hosted);
    if phonetic <= n && attempt_outcome(reports, Backend::Hosted) is Failed {
        lemma_attempt(reports, Backend::Phonetic, phonetic);
        if platform <= n && attempt_outcome(reports, Backend::Phonetic) is Failed {
            lemma_attempt(reports, Backend::PlatformVoice, platform);
            if placeholder < n && attempt_outcome(reports, Backend::PlatformVoice) is Failed {
                lemma_stage_after_step(reports, placeholder);
            }
        }
    }
}

/// Every cascade ends, and in one way only. Of reports enough for the
/// longest cascade, the first `length_of_run` tell a complete run, and no
/// other number of them does.
pub proof fn lemma_every_run_completes(reports: Seq<Report>)
    requires
        reports.len() >= 10,
    ensures
        3 <= length_of_run(reports) <= 10,
        is_complete_run(reports.take(length_of_run(reports))),
        forall|length: int|
            0 <= length <= reports.len() && #[trigger] is_complete_run(reports.take(length))
                ==> length == length_of_run(reports),
{
    let n = length_of_run(reports);
    let run = reports.take(n);
    assert(reports.take(0) =~= Seq::<Report>::empty());
    let phonetic = attempt_start(reports, Backend::Phonetic);
    let platform = attempt_start(reports, Backend::PlatformVoice);
    let placeholder = placeholder_at(reports);
    lemma_attempt(reports, Backend::Hosted, 0);
    if attempt_outcome(reports, Backend::Hosted) is Failed {
        lemma_attempt(reports, Backend::Phonetic, phonetic);
        if attempt_outcome(reports, Backend::Phonetic) is Failed {
            lemma_attempt(reports, Backend::PlatformVoice, platform);
            if attempt_outcome(reports, Backend::PlatformVoice) is Failed {
                lemma_stage_after_step(reports, placeholder);
            }
        }
    }
    assert(stage_after(reports.take(n)) is Finished);
    assert forall|index: int| 0 <= index < n implies !(#[trigger] stage_after(
        reports.take(index),
    ) is Finished) by {
        lemma_stage_after_step(reports, index);
    }
    assert forall|index: int| 0 <= index <= n implies #[trigger] run.take(index) == reports.take(
        index,
    ) by {
        assert(run.take(index) =~= reports.take(index));
    }
    assert forall|length: int|
        0 <= length <= reports.len() && #[trigger] is_complete_run(
            reports.take(length),
        ) implies length == n by {
        let other = reports.take(length);
        if length < n {
            assert(!(stage_after(reports.take(length)) is Finished));
        } else if length > n {
            assert(other.take(n) =~= reports.take(n));
            assert(stage_after(other.take(n)) is Finished);
        }
    }
}

} // verus!
