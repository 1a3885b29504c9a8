//! Whole runs of the orchestrator: what holds of every sequence of events.

use crate::error::{is_fault, ErrorModel};
use crate::gate::command_verdict;
use crate::orchestrator::{
    ask_package_manager, ask_runtime, bin_dir, next, ActionModel, ConfigModel, DirectiveModel,
    EventModel, StageModel,
};
use vstd::prelude::*;

verus! {

/// The stage that a run is in after `events`, taken in one after another
/// from the start.
pub open spec fn stage_after<M>(events: Seq<EventModel<M>>) -> StageModel<M>
    decreases events.len(),
{
    if events.len() == 0 {
        StageModel::InstallingReporter
    } else {
        next(stage_after(events.drop_last()), events.last()).0
    }
}

/// What the program is asked to do in answer to the last of `events`, and at
/// the start, where there are none: to install the crash reporter.
pub open spec fn action_after<M>(events: Seq<EventModel<M>>) -> Option<ActionModel<M>> {
    if events.len() == 0 {
        Some(ActionModel::InstallReporter)
    } else {
        next(stage_after(events.drop_last()), events.last()).1
    }
}

/// The event is the runtime's answer, and the version gate lets it pass.
pub open spec fn passes_gate<M>(event: EventModel<M>) -> bool {
    event matches EventModel::CommandFinished(output) && command_verdict(output) is Ok
}

/// The action is work: anything but installing the crash reporter, asking
/// the runtime for its version, and ending with a failure.
pub open spec fn is_work<M>(action: ActionModel<M>) -> bool {
    !(action is InstallReporter) && !(action is Fail) && action != ask_runtime::<M>()
}

/// Among `events` is one by which the runtime passed the version gate.
pub open spec fn gate_was_passed<M>(events: Seq<EventModel<M>>) -> bool {
    exists|j: int| 0 <= j < events.len() && passes_gate(#[trigger] events[j])
}

/// Among `events` is the given one.
pub open spec fn happened<M>(events: Seq<EventModel<M>>, event: EventModel<M>) -> bool {
    exists|j: int| 0 <= j < events.len() && #[trigger] events[j] == event
}

/// Among `events` is the package manager's answer, and it names this
/// directory.
pub open spec fn bin_dir_was_found<M>(events: Seq<EventModel<M>>, npm_bin_dir: Seq<char>) -> bool {
    exists|j: int|
        0 <= j < events.len() && (#[trigger] events[j] matches EventModel::CommandFinished(output)
            && bin_dir(output) == Ok::<Seq<char>, ErrorModel>(npm_bin_dir))
}

/// Among `events` is the news that the directories are there.
pub open spec fn directories_were_created<M>(events: Seq<EventModel<M>>) -> bool {
    exists|j: int|
        0 <= j < events.len() && #[trigger] events[j] matches EventModel::DirectoriesCreated(Ok(_))
}

/// The run is past the version gate and has not failed.
spec fn beyond_gate<M>(stage: StageModel<M>) -> bool {
    !(stage is InstallingReporter || stage is CheckingRuntime || stage is Failed)
}

/// What a stage holds is what the events brought.
spec fn keeps_track<M>(stage: StageModel<M>, events: Seq<EventModel<M>>) -> bool {
    match stage {
        StageModel::AwaitingDirective { npm_bin_dir } => bin_dir_was_found(events, npm_bin_dir),
        StageModel::ReadingImportMap { npm_bin_dir, directive } => {
            &&& bin_dir_was_found(events, npm_bin_dir)
            &&& happened(events, EventModel::DirectiveGiven(directive))
        },
        StageModel::ParsingImportMap { npm_bin_dir, directive, content } => {
            &&& bin_dir_was_found(events, npm_bin_dir)
            &&& happened(events, EventModel::DirectiveGiven(directive))
            &&& happened(events, EventModel::FileRead(Ok(content)))
        },
        StageModel::CreatingOutputDir { npm_bin_dir, debug, input_dir, import_map } => {
            &&& bin_dir_was_found(events, npm_bin_dir)
            &&& happened(
                events,
                EventModel::DirectiveGiven(
                    DirectiveModel::Incremental { debug, input_dir, output_dir: None },
                ),
            )
            &&& happened(events, EventModel::ImportMapParsed(Ok(import_map)))
        },
        StageModel::ResolvingOutputDir { npm_bin_dir, debug, input_dir, import_map } => {
            &&& bin_dir_was_found(events, npm_bin_dir)
            &&& happened(
                events,
                EventModel::DirectiveGiven(
                    DirectiveModel::Incremental { debug, input_dir, output_dir: None },
                ),
            )
            &&& happened(events, EventModel::ImportMapParsed(Ok(import_map)))
            &&& directories_were_created(events)
        },
        _ => true,
    }
}

/// What happened among the first events of a run has happened in the run.
proof fn lemma_events_stay<M>(events: Seq<EventModel<M>>)
    requires
        events.len() > 0,
    ensures
        gate_was_passed(events.drop_last()) ==> gate_was_passed(events),
        forall|e: EventModel<M>| #[trigger] happened(events.drop_last(), e) ==> happened(events, e),
        forall|d: Seq<char>| #[trigger]
            bin_dir_was_found(events.drop_last(), d) ==> bin_dir_was_found(events, d),
        passes_gate(events.last()) ==> gate_was_passed(events),
        happened(events, events.last()),
        directories_were_created(events.drop_last()) ==> directories_were_created(events),
        events.last() matches EventModel::DirectoriesCreated(Ok(_)) ==> directories_were_created(
            events,
        ),
        forall|d: Seq<char>|
            (events.last() matches EventModel::CommandFinished(output) && bin_dir(output) == Ok::<
                Seq<char>,
                ErrorModel,
            >(d)) ==> #[trigger] bin_dir_was_found(events, d),
{
    let before = events.drop_last();
    let n = events.len() - 1;
    assert(events[n] == events.last());
    if gate_was_passed(before) {
        let j = choose|j: int| 0 <= j < before.len() && passes_gate(#[trigger] before[j]);
        assert(passes_gate(events[j]));
    }
    if directories_were_created(before) {
        let j = choose|j: int|
            0 <= j < before.len() && #[trigger] before[j] matches EventModel::DirectoriesCreated(
                Ok(_),
            );
        assert(events[j] == before[j]);
    }
    assert forall|e: EventModel<M>| #[trigger] happened(before, e) implies happened(events, e) by {
        let j = choose|j: int| 0 <= j < before.len() && #[trigger] before[j] == e;
        assert(events[j] == e);
    }
    assert forall|d: Seq<char>| #[trigger] bin_dir_was_found(before, d) implies bin_dir_was_found(
        events,
        d,
    ) by {
        let j = choose|j: int|
            0 <= j < before.len() && (#[trigger] before[j] matches EventModel::CommandFinished(
                output,
            ) && bin_dir(output) == Ok::<Seq<char>, ErrorModel>(d));
        assert(events[j] == before[j]);
    }
}

/// Every stage of a run holds what the events brought, and a run that is
/// past the version gate has seen the runtime pass it.
proof fn lemma_run_keeps_track<M>(events: Seq<EventModel<M>>)
    ensures
        keeps_track(stage_after(events), events),
        beyond_gate(stage_after(events)) ==> gate_was_passed(events),
    decreases events.len(),
{
    if events.len() > 0 {
        let before = events.drop_last();
        let stage = stage_after(before);
        let event = events.last();
        lemma_run_keeps_track(before);
        lemma_events_stay(events);
        match stage {
            StageModel::AwaitingDirective { npm_bin_dir } => {
                assert(bin_dir_was_found(events, npm_bin_dir));
            },
            StageModel::ReadingImportMap { npm_bin_dir, directive } => {
                assert(bin_dir_was_found(events, npm_bin_dir));
                assert(happened(events, EventModel::DirectiveGiven(directive)));
            },
            StageModel::ParsingImportMap { npm_bin_dir, directive, content } => {
                assert(bin_dir_was_found(events, npm_bin_dir));
                assert(happened(events, EventModel::DirectiveGiven(directive)));
                assert(happened(events, EventModel::FileRead(Ok(content))));
            },
            StageModel::CreatingOutputDir { npm_bin_dir, debug, input_dir, import_map } => {
                assert(bin_dir_was_found(events, npm_bin_dir));
                assert(happened(
                    events,
                    EventModel::DirectiveGiven(
                        DirectiveModel::Incremental { debug, input_dir, output_dir: None },
                    ),
                ));
                assert(happened(events, EventModel::ImportMapParsed(Ok(import_map))));
            },
            StageModel::ResolvingOutputDir { npm_bin_dir, debug, input_dir, import_map } => {
                assert(bin_dir_was_found(events, npm_bin_dir));
                assert(happened(
                    events,
                    EventModel::DirectiveGiven(
                        DirectiveModel::Incremental { debug, input_dir, output_dir: None },
                    ),
                ));
                assert(happened(events, EventModel::ImportMapParsed(Ok(import_map))));
                assert(directories_were_created(events));
            },
            _ => {},
        }
    }
}

/// The crash reporter is installed first, and once: installing it is what
/// every run starts with, and no event is answered with it.
pub proof fn lemma_reporter_is_installed_first_and_once<M>(events: Seq<EventModel<M>>)
    ensures
        action_after(Seq::<EventModel<M>>::empty()) == Some(ActionModel::<M>::InstallReporter),
        events.len() > 0 ==> action_after(events) != Some(ActionModel::<M>::InstallReporter),
{
}

/// Asking the package manager is work, and so is everything that comes
/// after it.
pub proof fn lemma_asking_package_manager_is_work<M>()
    ensures
        is_work(ask_package_manager::<M>()),
{
    reveal_strlit("node");
    reveal_strlit("npm");
    assert("node"@.len() != "npm"@.len());
}

/// No work before the version gate: whenever the program is asked to do
/// work, the runtime has passed the version gate earlier in the run.
pub proof fn lemma_no_work_before_gate<M>(events: Seq<EventModel<M>>)
    ensures
        (action_after(events) matches Some(action) && is_work(action)) ==> gate_was_passed(events),
{
    if events.len() > 0 {
        lemma_run_keeps_track(events.drop_last());
        lemma_events_stay(events);
    }
}

/// Of the failures that end a run, those of the discovery of the package
/// manager's directory are faults, and no others.
pub proof fn lemma_only_discovery_faults<M>(stage: StageModel<M>, event: EventModel<M>)
    ensures
        next(stage, event).1 matches Some(ActionModel::Fail(e)) ==> (is_fault(e)
            <==> stage is FindingPackageManager),
{
}

/// A run that has ended stays as it is: once the engine has its
/// configuration, or the run has failed, no event changes the stage or asks
/// for anything.
pub proof fn lemma_ended_runs_stay_ended<M>(stage: StageModel<M>, event: EventModel<M>)
    requires
        stage is Compiling || stage is Failed,
    ensures
        next(stage, event) == (stage, None::<ActionModel<M>>),
{
}

/// The engine is handed what the run has gathered, and nothing else. The
/// directory of executables is the one that the package manager named, the
/// import map is the one that parsed, and flag and project root are those of
/// the directive. The output directory is the one that the directive asked
/// for, as it was given; or, where it asked for none, the canonical path
/// that the last event brought, after the default directory had been
/// created.
pub proof fn lemma_config_holds_what_was_gathered<M>(
    events: Seq<EventModel<M>>,
    config: ConfigModel<M>,
)
    ensures
        action_after(events) == Some(ActionModel::Compile(config)) ==> {
            &&& gate_was_passed(events)
            &&& bin_dir_was_found(events, config.npm_bin_dir)
            &&& happened(events, EventModel::ImportMapParsed(Ok(config.import_map)))
            &&& {
                ||| happened(
                    events,
                    EventModel::DirectiveGiven(
                        DirectiveModel::Incremental {
                            debug: config.debug,
                            input_dir: config.project_root_dir,
                            output_dir: Some(config.output_dir),
                        },
                    ),
                )
                ||| {
                    &&& happened(
                        events,
                        EventModel::DirectiveGiven(
                            DirectiveModel::Incremental {
                                debug: config.debug,
                                input_dir: config.project_root_dir,
                                output_dir: None,
                            },
                        ),
                    )
                    &&& directories_were_created(events)
                    &&& events.last() == EventModel::<M>::PathCanonicalized(Ok(config.output_dir))
                }
            }
        },
{
    if events.len() > 0 {
        lemma_run_keeps_track(events.drop_last());
        lemma_events_stay(events);
    }
}

} // verus!
