//! Running the cascade to its end.

use crate::assets::{reference_of, AudioArtifact};
use crate::cascade::{Action, Report, Stage};
use crate::runs::{
    action_at, is_complete_run, lemma_run_is_bounded, lemma_stage_after_push, stage_after,
    verdict_after,
};
use vstd::prelude::*;

verus! {

/// Whether `perform` was called once for each of `reports` and no more: the
/// call at `index` took the world `worlds[index]` and the action that the
/// cascade asked for at that point, together with `text`, and gave back the
/// world `worlds[index + 1]` and the report `reports[index]`.
pub open spec fn performed_by<W, F: Fn(W, Action, &str) -> (W, Report)>(
    perform: F,
    text: &str,
    worlds: Seq<W>,
    reports: Seq<Report>,
) -> bool {
    &&& worlds.len() == reports.len() + 1
    &&& forall|index: int|
        0 <= index < reports.len() ==> (#[trigger] action_at(reports, index) matches Some(action)
            && call_ensures(
            perform,
            (worlds[index], action, text),
            (worlds[index + 1], reports[index]),
        ))
}

/// Produces the spoken rendition of `text`.
///
/// The cascade is run from its first stage to its end. Each action that it
/// asks for is handed to `perform` together with `text`, and what `perform`
/// reports decides how the cascade goes on. The cascade is over after ten
/// actions at most. The first part of the result is the artifact of the
/// verdict that it reached: it never fails, and `None` says that there is
/// no audio to embed.
///
/// `world` stands for everything that `perform` works on. It is handed to
/// each call and taken back from it, so the world that is returned has seen
/// the calls of the run, in their order, and no other call.
pub fn synthesize<W, F: Fn(W, Action, &str) -> (W, Report)>(text: &str, world: W, perform: F) -> (
    result: (Option<AudioArtifact>, W)
)
    requires
        forall|before: W, action: Action| call_requires(perform, (before, action, text)),
    ensures
        exists|worlds: Seq<W>, reports: Seq<Report>|
            {
                &&& is_complete_run(reports)
                &&& reports.len() <= 10
                &&& #[trigger] performed_by(perform, text, worlds, reports)
                &&& worlds.first() == world
                &&& worlds.last() == result.1
                &&& reference_of(result.0) == verdict_after(reports).reference()
            },
{
    let mut stage = Stage::start();
    let mut current = world;
    let ghost mut worlds: Seq<W> = seq![world];
    let ghost mut reports: Seq<Report> = Seq::empty();
    loop
        invariant
            forall|before: W, action: Action| call_requires(perform, (before, action, text)),
            stage == stage_after(reports),
            performed_by(perform, text, worlds, reports),
            worlds.first() == world,
            worlds.last() == current,
            forall|index: int|
                0 <= index < reports.len() ==> !(#[trigger] stage_after(reports.take(index))
                    is Finished),
        decreases stage.actions_left(),
    {
        match stage.next_action() {
            None => {
                proof {
                    if reports.len() > 0 {
                        lemma_run_is_bounded(reports.drop_last());
                        assert(reports.drop_last() =~= reports.take(reports.len() - 1));
                    }
                }
                let verdict = stage.verdict();
                let artifact = verdict.unwrap().artifact();
                return (artifact, current);
            },
            Some(action) => {
                let (next_world, report) = perform(current, action, text);
                let ghost reports_before = reports;
                let ghost worlds_before = worlds;
                proof {
                    lemma_stage_after_push(reports_before, report);
                    reports = reports_before.push(report);
                    worlds = worlds_before.push(next_world);
                    assert(reports.take(reports_before.len() as int) =~= reports_before);
                    assert forall|index: int| 0 <= index < reports.len() implies (
                    #[trigger] action_at(reports, index) matches Some(asked) && call_ensures(
                        perform,
                        (worlds[index], asked, text),
                        (worlds[index + 1], reports[index]),
                    )) by {
                        if index < reports_before.len() {
                            assert(action_at(reports_before, index) == action_at(reports, index));
                        }
                    }
                }
                current = next_world;
                stage = stage.observe(report);
            },
        }
    }
}

} // verus!
