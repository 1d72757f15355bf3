use blog_generator::cascade::{
    Action, AttemptOutcome, Backend, Decline, Report, Stage, Verdict, MIN_AUDIO_BYTES,
};

fn ok() -> Report {
    Report { ok: true, output_bytes: None }
}

fn failed() -> Report {
    Report { ok: false, output_bytes: None }
}

fn wrote(bytes: u64) -> Report {
    Report { ok: true, output_bytes: Some(bytes) }
}

#[test]
fn a_cascade_begins_with_the_scratch_file() {
    assert_eq!(Stage::start(), Stage::Staging(Backend::Hosted));
    assert_eq!(Stage::start().next_action(), Some(Action::WriteScratch));
    assert_eq!(Stage::start().verdict(), None);
}

#[test]
fn the_threshold_is_a_thousand_bytes() {
    assert_eq!(MIN_AUDIO_BYTES, 1000);
}

#[test]
fn backends_follow_one_another_in_priority() {
    assert_eq!(Backend::Hosted.next(), Some(Backend::Phonetic));
    assert_eq!(Backend::Phonetic.next(), Some(Backend::PlatformVoice));
    assert_eq!(Backend::PlatformVoice.next(), None);
}

#[test]
fn the_hosted_backend_is_judged_by_status_and_size() {
    assert_eq!(Backend::Hosted.judge(wrote(1001)), AttemptOutcome::Produced);
    assert_eq!(Backend::Hosted.judge(wrote(250_000)), AttemptOutcome::Produced);
    assert_eq!(
        Backend::Hosted.judge(wrote(1000)),
        AttemptOutcome::Failed(Decline::OutputTooSmall)
    );
    assert_eq!(
        Backend::Hosted.judge(wrote(500)),
        AttemptOutcome::Failed(Decline::OutputTooSmall)
    );
    assert_eq!(Backend::Hosted.judge(wrote(0)), AttemptOutcome::Failed(Decline::OutputTooSmall));
    assert_eq!(Backend::Hosted.judge(ok()), AttemptOutcome::Failed(Decline::OutputMissing));
    assert_eq!(Backend::Hosted.judge(failed()), AttemptOutcome::Failed(Decline::CallFailed));
    assert_eq!(
        Backend::Hosted.judge(Report { ok: false, output_bytes: Some(50_000) }),
        AttemptOutcome::Failed(Decline::CallFailed)
    );
}

#[test]
fn the_local_backends_are_judged_by_status_alone() {
    for backend in [Backend::Phonetic, Backend::PlatformVoice] {
        assert_eq!(backend.judge(ok()), AttemptOutcome::Produced);
        assert_eq!(backend.judge(wrote(0)), AttemptOutcome::Produced);
        assert_eq!(backend.judge(wrote(500)), AttemptOutcome::Produced);
        assert_eq!(backend.judge(failed()), AttemptOutcome::Failed(Decline::CallFailed));
        assert_eq!(
            backend.judge(Report { ok: false, output_bytes: Some(50_000) }),
            AttemptOutcome::Failed(Decline::CallFailed)
        );
    }
}

#[test]
fn each_stage_asks_for_its_action() {
    for backend in [Backend::Hosted, Backend::Phonetic, Backend::PlatformVoice] {
        assert_eq!(Stage::Staging(backend).next_action(), Some(Action::WriteScratch));
        assert_eq!(Stage::Running(backend).next_action(), Some(Action::Invoke(backend)));
        assert_eq!(
            Stage::Clearing(backend, AttemptOutcome::Produced).next_action(),
            Some(Action::RemoveScratch)
        );
        assert_eq!(
            Stage::Clearing(backend, AttemptOutcome::Failed(Decline::CallFailed)).next_action(),
            Some(Action::RemoveScratch)
        );
        assert_eq!(Stage::Finished(Verdict::Produced(backend)).next_action(), None);
    }
    assert_eq!(Stage::Placeholding.next_action(), Some(Action::CreatePlaceholder));
    assert_eq!(Stage::Finished(Verdict::Placeholder).next_action(), None);
    assert_eq!(Stage::Finished(Verdict::Unavailable).next_action(), None);
}

#[test]
fn a_written_scratch_file_lets_the_backend_run() {
    for backend in [Backend::Hosted, Backend::Phonetic, Backend::PlatformVoice] {
        assert_eq!(Stage::Staging(backend).observe(ok()), Stage::Running(backend));
    }
}

#[test]
fn a_scratch_file_that_cannot_be_written_skips_the_backend() {
    for backend in [Backend::Hosted, Backend::Phonetic, Backend::PlatformVoice] {
        assert_eq!(
            Stage::Staging(backend).observe(failed()),
            Stage::Clearing(backend, AttemptOutcome::Failed(Decline::ScratchNotWritten))
        );
    }
}

#[test]
fn the_scratch_file_is_removed_after_every_run() {
    assert_eq!(
        Stage::Running(Backend::Hosted).observe(wrote(2048)),
        Stage::Clearing(Backend::Hosted, AttemptOutcome::Produced)
    );
    assert_eq!(
        Stage::Running(Backend::Hosted).observe(wrote(500)),
        Stage::Clearing(Backend::Hosted, AttemptOutcome::Failed(Decline::OutputTooSmall))
    );
    assert_eq!(
        Stage::Running(Backend::Phonetic).observe(failed()),
        Stage::Clearing(Backend::Phonetic, AttemptOutcome::Failed(Decline::CallFailed))
    );
    assert_eq!(
        Stage::Running(Backend::PlatformVoice).observe(ok()),
        Stage::Clearing(Backend::PlatformVoice, AttemptOutcome::Produced)
    );
}

#[test]
fn an_accepted_attempt_ends_the_cascade() {
    for backend in [Backend::Hosted, Backend::Phonetic, Backend::PlatformVoice] {
        for report in [ok(), failed()] {
            assert_eq!(
                Stage::Clearing(backend, AttemptOutcome::Produced).observe(report),
                Stage::Finished(Verdict::Produced(backend))
            );
        }
    }
}

#[test]
fn a_declined_attempt_hands_over_to_the_next_backend() {
    for reason in [
        Decline::ScratchNotWritten,
        Decline::CallFailed,
        Decline::OutputMissing,
        Decline::OutputTooSmall,
    ] {
        for report in [ok(), failed()] {
            assert_eq!(
                Stage::Clearing(Backend::Hosted, AttemptOutcome::Failed(reason)).observe(report),
                Stage::Staging(Backend::Phonetic)
            );
            assert_eq!(
                Stage::Clearing(Backend::Phonetic, AttemptOutcome::Failed(reason)).observe(report),
                Stage::Staging(Backend::PlatformVoice)
            );
            assert_eq!(
                Stage::Clearing(Backend::PlatformVoice, AttemptOutcome::Failed(reason))
                    .observe(report),
                Stage::Placeholding
            );
        }
    }
}

#[test]
fn the_placeholder_decides_the_last_verdict() {
    assert_eq!(Stage::Placeholding.observe(ok()), Stage::Finished(Verdict::Placeholder));
    assert_eq!(Stage::Placeholding.observe(failed()), Stage::Finished(Verdict::Unavailable));
}

#[test]
fn a_finished_cascade_stays_finished() {
    for verdict in [
        Verdict::Produced(Backend::Hosted),
        Verdict::Produced(Backend::Phonetic),
        Verdict::Produced(Backend::PlatformVoice),
        Verdict::Placeholder,
        Verdict::Unavailable,
    ] {
        for report in [ok(), failed(), wrote(5000)] {
            assert_eq!(Stage::Finished(verdict).observe(report), Stage::Finished(verdict));
        }
        assert_eq!(Stage::Finished(verdict).verdict(), Some(verdict));
    }
}

#[test]
fn the_longest_cascade_takes_ten_actions() {
    let reports = [
        ok(),
        failed(),
        ok(),
        ok(),
        failed(),
        ok(),
        ok(),
        failed(),
        ok(),
        ok(),
    ];
    let mut stage = Stage::start();
    let mut actions = Vec::new();
    for report in reports {
        actions.push(stage.next_action().unwrap());
        stage = stage.observe(report);
    }
    assert_eq!(
        actions,
        vec![
            Action::WriteScratch,
            Action::Invoke(Backend::Hosted),
            Action::RemoveScratch,
            Action::WriteScratch,
            Action::Invoke(Backend::Phonetic),
            Action::RemoveScratch,
            Action::WriteScratch,
            Action::Invoke(Backend::PlatformVoice),
            Action::RemoveScratch,
            Action::CreatePlaceholder,
        ]
    );
    assert_eq!(stage, Stage::Finished(Verdict::Placeholder));
    assert_eq!(stage.next_action(), None);
}
