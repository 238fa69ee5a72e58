//! Properties of whole runs of the orchestrator, proved over its model.
use crate::actions::{ActionView, ErrorKind, EventView, LinkageRequestView};
use crate::paths::lib_dir_of;
use crate::pipeline::{
    after, aggregated_includes, following, initial, planned, runtime_path_lines, step_succeeds,
    OrchestratorView, Stage,
};
use vstd::prelude::*;

verus! {

/// The state after the outcomes `events` were reported, one per action, from `v`.
pub open spec fn run(v: OrchestratorView, events: Seq<EventView>) -> OrchestratorView
    decreases events.len(),
{
    if events.len() == 0 {
        v
    } else {
        after(run(v, events.drop_last()), events.last())
    }
}

/// The stage a run stands in after `i` successful steps.
pub open spec fn success_stage(i: int) -> Stage {
    if i <= 0 {
        Stage::Announce
    } else if i == 1 {
        Stage::Install
    } else if i == 2 {
        Stage::InstallDirectives
    } else if i == 3 {
        Stage::Build
    } else if i == 4 {
        Stage::Package
    } else if i == 5 {
        Stage::PackageNote
    } else if i == 6 {
        Stage::LinkPreCopy
    } else if i == 7 {
        Stage::Bridge
    } else if i == 8 {
        Stage::CopyLibs
    } else if i == 9 {
        Stage::CopyIncludes
    } else if i == 10 {
        Stage::LinkPostCopy
    } else if i == 11 {
        Stage::RuntimePath
    } else {
        Stage::Finished
    }
}

/// The number of steps in a successful run.
pub open spec fn run_length() -> int {
    12
}

/// The output and copy roots never change during a run.
pub proof fn lemma_run_keeps_roots(v: OrchestratorView, events: Seq<EventView>)
    ensures
        run(v, events).out_dir == v.out_dir,
        run(v, events).runtime_dir == v.runtime_dir,
        run(v, events).debug == v.debug,
        run(v, events).profile == v.profile,
    decreases events.len(),
{
    if events.len() > 0 {
        lemma_run_keeps_roots(v, events.drop_last());
    }
}

/// Once failed, a run stays as it is whatever is reported.
proof fn lemma_failed_is_final(w: OrchestratorView, rest: Seq<EventView>)
    requires
        w.stage == Stage::Failed,
    ensures
        run(w, rest) == w,
    decreases rest.len(),
{
    if rest.len() > 0 {
        lemma_failed_is_final(w, rest.drop_last());
    }
}

proof fn lemma_success_prefix(v: OrchestratorView, events: Seq<EventView>, i: int)
    requires
        v.stage == Stage::Announce,
        events.len() == run_length(),
        forall|k: int| 0 <= k < run_length() ==> step_succeeds(success_stage(k), #[trigger] events[k]),
        0 <= i <= run_length(),
    ensures
        run(v, events.take(i)).stage == success_stage(i),
        i >= 2 ==> run(v, events.take(i)).include_paths == aggregated_includes(
            v.out_dir,
            events[1]->Installed_0,
        ),
        run(v, events.take(i)).out_dir == v.out_dir,
    decreases i,
{
    if i > 0 {
        lemma_success_prefix(v, events, i - 1);
        assert(events.take(i).drop_last() =~= events.take(i - 1));
        assert(events.take(i).last() == events[i - 1]);
        assert(step_succeeds(success_stage(i - 1), events[i - 1]));
        assert(following(success_stage(i - 1)) == success_stage(i));
    }
}

/// A run whose every action succeeds installs, builds and packages the
/// dependency, emits its linkage, generates the bridge, copies both artifact
/// trees, emits the linkage again and finishes, in that order; the bridge
/// searches the packaged include directory first, then each dependency's.
pub proof fn lemma_successful_run(
    out_dir: Seq<char>,
    runtime_dir: Option<Seq<char>>,
    profile_override: Option<Seq<char>>,
    debug: bool,
    events: Seq<EventView>,
)
    requires
        events.len() == run_length(),
        forall|k: int| 0 <= k < run_length() ==> step_succeeds(success_stage(k), #[trigger] events[k]),
    ensures
        forall|i: int|
            0 <= i <= run_length() ==> (#[trigger] run(
                initial(Some(out_dir), runtime_dir, profile_override, debug),
                events.take(i),
            )).stage == success_stage(i),
        run(initial(Some(out_dir), runtime_dir, profile_override, debug), events).stage
            == Stage::Finished,
        run(initial(Some(out_dir), runtime_dir, profile_override, debug), events.take(7)).stage
            == Stage::Bridge,
        run(
            initial(Some(out_dir), runtime_dir, profile_override, debug),
            events.take(7),
        ).include_paths == aggregated_includes(out_dir, events[1]->Installed_0),
{
    let v = initial(Some(out_dir), runtime_dir, profile_override, debug);
    assert forall|i: int| 0 <= i <= run_length() implies (#[trigger] run(
        v,
        events.take(i),
    )).stage == success_stage(i) by {
        lemma_success_prefix(v, events, i);
    }
    lemma_success_prefix(v, events, 7);
    lemma_success_prefix(v, events, run_length());
    assert(events.take(run_length()) =~= events);
}

/// When install fails, which is also how an unknown profile or a missing
/// recipe shows, the run stops there: it fails with the package manager's
/// status, and whatever is reported later it issues no build, package or
/// bridge step again, only that failure.
pub proof fn lemma_install_failure_stops(
    v: OrchestratorView,
    e: EventView,
    rest: Seq<EventView>,
)
    requires
        v.stage == Stage::Install,
        !(e is Installed),
    ensures
        after(v, e).stage == Stage::Failed,
        after(v, e).failure.kind == ErrorKind::ExternalTool,
        after(v, e).failure.exit_code == 1,
        planned(run(after(v, e), rest)) == ActionView::Fail(after(v, e).failure),
{
    lemma_failed_is_final(after(v, e), rest);
}

/// A tree is copied over what a former run left, never onto itself.
pub proof fn lemma_copies_merge(v: OrchestratorView)
    ensures
        planned(v) is CopyTree ==> planned(v)->CopyTree_0.overwrite_existing,
        planned(v) is CopyTree ==> planned(v)->CopyTree_0.source
            != planned(v)->CopyTree_0.destination,
{
}

/// The linkage emitted after the copy scans the same library subdirectory
/// as the one emitted before it, under the root the artifacts were copied
/// to; where that is the output root itself, both requests are identical.
pub proof fn lemma_linkage_twice(v: OrchestratorView, events: Seq<EventView>)
    requires
        v.stage == Stage::LinkPreCopy,
        run(v, events).stage == Stage::LinkPostCopy,
    ensures
        planned(v) == ActionView::EmitLinkage(
            LinkageRequestView { package_dir: v.out_dir, lib_subdir: "lib"@ },
        ),
        planned(run(v, events)) == ActionView::EmitLinkage(
            LinkageRequestView { package_dir: v.runtime_dir, lib_subdir: "lib"@ },
        ),
        v.runtime_dir == v.out_dir ==> planned(run(v, events)) == planned(v),
{
    lemma_run_keeps_roots(v, events);
}

/// In a debug build the run-time library search directive names the library
/// directory of the output root, where the package step put the libraries;
/// in any other build nothing is emitted at that step.
pub proof fn lemma_runtime_path(
    out_dir: Seq<char>,
    runtime_dir: Option<Seq<char>>,
    profile_override: Option<Seq<char>>,
    debug: bool,
    events: Seq<EventView>,
)
    requires
        run(initial(Some(out_dir), runtime_dir, profile_override, debug), events).stage
            == Stage::RuntimePath,
    ensures
        planned(run(initial(Some(out_dir), runtime_dir, profile_override, debug), events))
            == ActionView::Emit(runtime_path_lines(debug, lib_dir_of(out_dir))),
        debug ==> runtime_path_lines(debug, lib_dir_of(out_dir)).len() == 1,
        !debug ==> runtime_path_lines(debug, lib_dir_of(out_dir)).len() == 0,
{
    lemma_run_keeps_roots(initial(Some(out_dir), runtime_dir, profile_override, debug), events);
}

} // verus!
