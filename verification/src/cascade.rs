//! The text-to-speech cascade as a state machine.
//!
//! The cascade tries three backends in a fixed order and stops at the first
//! attempt that is accepted. It does no work itself: in every stage it names
//! one action for the caller to perform, and the caller's report on that
//! action decides the next stage. The scratch file that carries the text to
//! a backend is written anew before each attempt and removed after it.

use vstd::prelude::*;

verus! {

/// An accepted output of the hosted backend is larger than this many bytes.
pub const MIN_AUDIO_BYTES: u64 = 1000;

/// A text-to-speech backend. The variants stand in the order of priority.
#[derive(Clone, Copy, Debug, PartialEq, Eq, Structural)]
pub enum Backend {
    /// The hosted service, reached over the network. It writes compressed
    /// audio.
    Hosted,
    /// The local phonetic synthesizer. It writes a waveform.
    Phonetic,
    /// The voice that the platform ships. It writes a waveform, and is the
    /// last resort.
    PlatformVoice,
}

/// What the caller is asked to do.
#[derive(Clone, Copy, Debug, PartialEq, Eq, Structural)]
pub enum Action {
    /// Write the text into the scratch file, replacing what the file held.
    WriteScratch,
    /// Run the backend on the scratch file. The backend writes to its own
    /// fixed output file.
    Invoke(Backend),
    /// Remove the scratch file. A failure to do so is not an error.
    RemoveScratch,
    /// Create an empty file where the hosted backend would have written.
    CreatePlaceholder,
}

/// What the caller saw when it performed an action.
#[derive(Clone, Copy, Debug, PartialEq, Eq, Structural)]
pub struct Report {
    /// Whether the action succeeded. For a backend: whether it could be
    /// started and ended with a success status.
    pub ok: bool,
    /// After a backend ran: the size in bytes of its output file, if that
    /// file exists. `None` after any other action.
    pub output_bytes: Option<u64>,
}

/// Why an attempt was not accepted.
#[derive(Clone, Copy, Debug, PartialEq, Eq, Structural)]
pub enum Decline {
    /// The scratch file could not be written, so the backend was not run.
    ScratchNotWritten,
    /// The backend could not be started or ended with a failure status.
    CallFailed,
    /// The backend reported success but left no output file.
    OutputMissing,
    /// The output file is not larger than `MIN_AUDIO_BYTES`.
    OutputTooSmall,
}

/// How the attempt of one backend ended.
#[derive(Clone, Copy, Debug, PartialEq, Eq, Structural)]
pub enum AttemptOutcome {
    /// The backend wrote audio that is accepted.
    Produced,
    /// The backend declined.
    Failed(Decline),
}

/// How the whole cascade ended.
#[derive(Clone, Copy, Debug, PartialEq, Eq, Structural)]
pub enum Verdict {
    /// The attempt of this backend was accepted.
    Produced(Backend),
    /// Every backend declined, and the empty placeholder was created.
    Placeholder,
    /// Every backend declined, and the placeholder could not be created.
    Unavailable,
}

/// Where the cascade stands.
#[derive(Clone, Copy, Debug, PartialEq, Eq, Structural)]
pub enum Stage {
    /// The scratch file is to be written for the attempt of this backend.
    Staging(Backend),
    /// The scratch file is written and this backend is to run on it.
    Running(Backend),
    /// The attempt of this backend ended as given, and the scratch file is
    /// to be removed.
    Clearing(Backend, AttemptOutcome),
    /// Every backend declined, and the placeholder is to be created.
    Placeholding,
    /// The cascade is over.
    Finished(Verdict),
}

impl Backend {
    /// The backend that is tried when this one declined.
    pub open spec fn successor(self) -> Option<Backend> {
        match self {
            Backend::Hosted => Some(Backend::Phonetic),
            Backend::Phonetic => Some(Backend::PlatformVoice),
            Backend::PlatformVoice => None,
        }
    }

    /// The number of backends that come after this one.
    pub open spec fn rank_from_last(self) -> nat {
        match self {
            Backend::Hosted => 2,
            Backend::Phonetic => 1,
            Backend::PlatformVoice => 0,
        }
    }

    /// How a run of this backend is judged from the caller's report.
    ///
    /// Every backend has to report success. The hosted backend is known to
    /// report success on stub files, so its output must also exist and be
    /// larger than `MIN_AUDIO_BYTES`.
    pub open spec fn verdict_on(self, report: Report) -> AttemptOutcome {
        if !report.ok {
            AttemptOutcome::Failed(Decline::CallFailed)
        } else if self != Backend::Hosted {
            AttemptOutcome::Produced
        } else {
            match report.output_bytes {
                None => AttemptOutcome::Failed(Decline::OutputMissing),
                Some(bytes) => if bytes > MIN_AUDIO_BYTES {
                    AttemptOutcome::Produced
                } else {
                    AttemptOutcome::Failed(Decline::OutputTooSmall)
                },
            }
        }
    }

    /// The backend that is tried when this one declined, if there is one.
    pub fn next(self) -> (following: Option<Backend>)
        ensures
            following == self.successor(),
    {
        match self {
            Backend::Hosted => Some(Backend::Phonetic),
            Backend::Phonetic => Some(Backend::PlatformVoice),
            Backend::PlatformVoice => None,
        }
    }

    /// Judges a run of this backend from the caller's report.
    pub fn judge(self, report: Report) -> (outcome: AttemptOutcome)
        ensures
            outcome == self.verdict_on(report),
    {
        if !report.ok {
            return AttemptOutcome::Failed(Decline::CallFailed);
        }
        match self {
            Backend::Hosted => match report.output_bytes {
                None => AttemptOutcome::Failed(Decline::OutputMissing),
                Some(bytes) => if bytes > MIN_AUDIO_BYTES {
                    AttemptOutcome::Produced
                } else {
                    AttemptOutcome::Failed(Decline::OutputTooSmall)
                },
            },
            Backend::Phonetic => AttemptOutcome::Produced,
            Backend::PlatformVoice => AttemptOutcome::Produced,
        }
    }
}

impl Stage {
    /// The stage in which every cascade begins.
    pub open spec fn initial() -> Stage {
        Stage::Staging(Backend::Hosted)
    }

    /// The action that the caller is asked to perform in this stage. There
    /// is none when the cascade is over.
    pub open spec fn pending(self) -> Option<Action> {
        match self {
            Stage::Staging(_) => Some(Action::WriteScratch),
            Stage::Running(backend) => Some(Action::Invoke(backend)),
            Stage::Clearing(_, _) => Some(Action::RemoveScratch),
            Stage::Placeholding => Some(Action::CreatePlaceholder),
            Stage::Finished(_) => None,
        }
    }

    /// The stage that follows this one when the caller reports `report` on
    /// the pending action.
    pub open spec fn after(self, report: Report) -> Stage {
        match self {
            Stage::Staging(backend) => if report.ok {
                Stage::Running(backend)
            } else {
                Stage::Clearing(backend, AttemptOutcome::Failed(Decline::ScratchNotWritten))
            },
            Stage::Running(backend) => Stage::Clearing(backend, backend.verdict_on(report)),
            Stage::Clearing(backend, AttemptOutcome::Produced) => Stage::Finished(
                Verdict::Produced(backend),
            ),
            Stage::Clearing(backend, AttemptOutcome::Failed(_)) => match backend.successor() {
                Some(following) => Stage::Staging(following),
                None => Stage::Placeholding,
            },
            Stage::Placeholding => if report.ok {
                Stage::Finished(Verdict::Placeholder)
            } else {
                Stage::Finished(Verdict::Unavailable)
            },
            Stage::Finished(verdict) => Stage::Finished(verdict),
        }
    }

    /// A bound on the number of actions that are still to be performed.
    pub open spec fn actions_left(self) -> nat {
        match self {
            Stage::Staging(backend) => 4 + 3 * backend.rank_from_last(),
            Stage::Running(backend) => 3 + 3 * backend.rank_from_last(),
            Stage::Clearing(backend, _) => 2 + 3 * backend.rank_from_last(),
            Stage::Placeholding => 1,
            Stage::Finished(_) => 0,
        }
    }

    /// Whether the scratch file may be on disk in this stage: it has been
    /// written, or a write was tried, and it has not been removed since.
    pub open spec fn scratch_in_use(self) -> bool {
        self is Running || self is Clearing
    }

    /// The stage in which every cascade begins.
    pub fn start() -> (stage: Stage)
        ensures
            stage == Stage::initial(),
    {
        Stage::Staging(Backend::Hosted)
    }

    /// The action to perform in this stage, or `None` when the cascade is
    /// over.
    pub fn next_action(self) -> (action: Option<Action>)
        ensures
            action == self.pending(),
    {
        match self {
            Stage::Staging(_) => Some(Action::WriteScratch),
            Stage::Running(backend) => Some(Action::Invoke(backend)),
            Stage::Clearing(_, _) => Some(Action::RemoveScratch),
            Stage::Placeholding => Some(Action::CreatePlaceholder),
            Stage::Finished(_) => None,
        }
    }

    /// How the cascade ended, or `None` while it is under way.
    pub fn verdict(self) -> (verdict: Option<Verdict>)
        ensures
            verdict == (match self {
                Stage::Finished(reached) => Some(reached),
                _ => None,
            }),
    {
        match self {
            Stage::Finished(reached) => Some(reached),
            _ => None,
        }
    }

    /// Moves on from this stage, given the caller's report on the pending
    /// action. Every report brings the cascade nearer to its end, and a
    /// cascade that is over stays as it is.
    pub fn observe(self, report: Report) -> (next: Stage)
        ensures
            next == self.after(report),
            self is Finished ==> next == self,
            !(self is Finished) ==> next.actions_left() < self.actions_left(),
    {
        match self {
            Stage::Staging(backend) => {
                if report.ok {
                    Stage::Running(backend)
                } else {
                    Stage::Clearing(backend, AttemptOutcome::Failed(Decline::ScratchNotWritten))
                }
            },
            Stage::Running(backend) => Stage::Clearing(backend, backend.judge(report)),
            Stage::Clearing(backend, outcome) => match outcome {
                AttemptOutcome::Produced => Stage::Finished(Verdict::Produced(backend)),
                AttemptOutcome::Failed(_) => match backend.next() {
                    Some(following) => Stage::Staging(following),
                    None => Stage::Placeholding,
                },
            },
            Stage::Placeholding => {
                if report.ok {
                    Stage::Finished(Verdict::Placeholder)
                } else {
                    Stage::Finished(Verdict::Unavailable)
                }
            },
            Stage::Finished(verdict) => Stage::Finished(verdict),
        }
    }
}

} // verus!
