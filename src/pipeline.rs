//! The orchestration as a state machine: from the current stage and the
//! outcome of its action to the next stage and the next action.
use crate::actions::{
    strings_view, Action, ActionView, BridgeRequest, BridgeRequestView, BuildPolicy,
    BuildRequest, BuildRequestView, CopyRequest, CopyRequestView, ErrorKind, Event, EventView,
    Failure, FailureView, InstallRequest, InstallRequestView, LinkageRequest, LinkageRequestView,
    PackageRequest, PackageRequestView,
};
use crate::paths::{include_dir_of, lib_dir_of, ArtifactLayout};
use vstd::prelude::*;

verus! {

broadcast use vstd::seq_lib::group_seq_properties;

/// The steps of one run, in the order they are taken.
#[derive(PartialEq, Eq, Structural, Clone, Copy, Debug)]
pub enum Stage {
    /// Declare the watched inputs and the artifact locations.
    Announce,
    Install,
    /// Propagate the package manager's own linker directives.
    InstallDirectives,
    Build,
    Package,
    /// Log the package step's status, if it reported one.
    PackageNote,
    LinkPreCopy,
    Bridge,
    CopyLibs,
    CopyIncludes,
    LinkPostCopy,
    /// In a debug build, point the runtime library search at the libraries.
    RuntimePath,
    Finished,
    Failed,
}

// ---------------------------------------------------------------------------
// Fixed inputs of the run.

pub open spec fn recipe_path() -> Seq<char> {
    "../../../conanfile.py"@
}

pub open spec fn build_dir() -> Seq<char> {
    "../../../build/"@
}

pub open spec fn default_profile() -> Seq<char> {
    "default"@
}

pub open spec fn build_options() -> Seq<Seq<char>> {
    seq!["shared=False"@, "fPIC=False"@]
}

pub open spec fn bridge_entry() -> Seq<char> {
    "src/ext.rs"@
}

pub open spec fn bridge_std_flag() -> Seq<char> {
    "-std=c++14"@
}

pub open spec fn bridge_library() -> Seq<char> {
    "kms"@
}

/// The directive that asks for a rerun when `path` changes.
pub open spec fn watch_directive(path: Seq<char>) -> Seq<char> {
    "cargo:rerun-if-changed="@ + path
}

/// The lines printed before any step: the watched inputs (this orchestration,
/// the recipe and the bridge declaration) and the two artifact locations.
pub open spec fn announce_lines(out_dir: Seq<char>) -> Seq<Seq<char>> {
    seq![
        watch_directive("build.rs"@),
        watch_directive(recipe_path()),
        watch_directive(bridge_entry()),
        "cargo:libs="@ + lib_dir_of(out_dir),
        "cargo:includes="@ + include_dir_of(out_dir),
    ]
}

/// The runtime-library-search directive for `lib_dir`.
pub open spec fn runtime_path_directive(lib_dir: Seq<char>) -> Seq<char> {
    "cargo:rustc-link-arg=-Wl,-rpath,"@ + lib_dir
}

/// Present in a debug build only.
pub open spec fn runtime_path_lines(debug: bool, lib_dir: Seq<char>) -> Seq<Seq<char>> {
    if debug {
        seq![runtime_path_directive(lib_dir)]
    } else {
        Seq::empty()
    }
}

/// The profile handed to install: the override where one is given.
pub open spec fn selected_profile(profile_override: Option<Seq<char>>) -> Seq<char> {
    match profile_override {
        Some(p) => p,
        None => default_profile(),
    }
}

/// Headers are searched in the packaged include directory first, then in each
/// resolved dependency's include directories, in dependency order.
pub open spec fn aggregated_includes(out_dir: Seq<char>, deps: Seq<Seq<Seq<char>>>) -> Seq<
    Seq<char>,
> {
    seq![include_dir_of(out_dir)] + deps.flatten()
}

/// A tree is copied with overwriting, unless it is already where it belongs.
pub open spec fn copy_action(source: Seq<char>, destination: Seq<char>) -> ActionView {
    if source == destination {
        ActionView::Emit(Seq::empty())
    } else {
        ActionView::CopyTree(
            CopyRequestView { source, destination, overwrite_existing: true },
        )
    }
}

// ---------------------------------------------------------------------------
// The model.

pub struct OrchestratorView {
    pub stage: Stage,
    /// The output root the package step fills.
    pub out_dir: Seq<char>,
    /// The root the artifacts are copied under.
    pub runtime_dir: Seq<char>,
    pub profile: Seq<char>,
    pub debug: bool,
    /// The header search paths, once install has succeeded.
    pub include_paths: Seq<Seq<char>>,
    /// What the package step's status is logged as.
    pub package_lines: Seq<Seq<char>>,
    /// Why the run stopped, once it has failed.
    pub failure: FailureView,
}

pub open spec fn no_failure() -> FailureView {
    FailureView { kind: ErrorKind::Environment, message: Seq::empty(), exit_code: 0 }
}

pub open spec fn missing_out_dir() -> FailureView {
    FailureView {
        kind: ErrorKind::Environment,
        message: "OUT_DIR environment variable is not set"@,
        exit_code: 1,
    }
}

/// The state a run starts in.
pub open spec fn initial(
    out_dir: Option<Seq<char>>,
    runtime_dir: Option<Seq<char>>,
    profile_override: Option<Seq<char>>,
    debug: bool,
) -> OrchestratorView {
    match out_dir {
        None => OrchestratorView {
            stage: Stage::Failed,
            out_dir: Seq::empty(),
            runtime_dir: Seq::empty(),
            profile: selected_profile(profile_override),
            debug,
            include_paths: Seq::empty(),
            package_lines: Seq::empty(),
            failure: missing_out_dir(),
        },
        Some(o) => OrchestratorView {
            stage: Stage::Announce,
            out_dir: o,
            runtime_dir: match runtime_dir {
                Some(r) => r,
                None => o,
            },
            profile: selected_profile(profile_override),
            debug,
            include_paths: Seq::empty(),
            package_lines: Seq::empty(),
            failure: no_failure(),
        },
    }
}

/// The action issued on entering a stage.
pub open spec fn planned(v: OrchestratorView) -> ActionView {
    match v.stage {
        Stage::Announce => ActionView::Emit(announce_lines(v.out_dir)),
        Stage::Install => ActionView::Install(
            InstallRequestView {
                recipe_path: recipe_path(),
                output_dir: build_dir(),
                profile: v.profile,
                policy: BuildPolicy::Missing,
                options: build_options(),
                update_check: true,
            },
        ),
        Stage::InstallDirectives => ActionView::EmitInstallDirectives,
        Stage::Build => ActionView::Build(
            BuildRequestView { recipe_path: recipe_path(), build_dir: build_dir() },
        ),
        Stage::Package => ActionView::Package(
            PackageRequestView {
                recipe_path: recipe_path(),
                build_dir: build_dir(),
                package_dir: v.out_dir,
            },
        ),
        Stage::PackageNote => ActionView::Emit(v.package_lines),
        Stage::LinkPreCopy => ActionView::EmitLinkage(
            LinkageRequestView { package_dir: v.out_dir, lib_subdir: "lib"@ },
        ),
        Stage::Bridge => ActionView::GenerateBridge(
            BridgeRequestView {
                entry_source: bridge_entry(),
                include_paths: v.include_paths,
                std_flag: bridge_std_flag(),
                library_name: bridge_library(),
            },
        ),
        Stage::CopyLibs => copy_action(lib_dir_of(v.out_dir), lib_dir_of(v.runtime_dir)),
        Stage::CopyIncludes => copy_action(
            include_dir_of(v.out_dir),
            include_dir_of(v.runtime_dir),
        ),
        Stage::LinkPostCopy => ActionView::EmitLinkage(
            LinkageRequestView { package_dir: v.runtime_dir, lib_subdir: "lib"@ },
        ),
        Stage::RuntimePath => ActionView::Emit(runtime_path_lines(v.debug, lib_dir_of(v.out_dir))),
        Stage::Finished => ActionView::Finish,
        Stage::Failed => ActionView::Fail(v.failure),
    }
}

/// The stage that follows a successful one.
pub open spec fn following(s: Stage) -> Stage {
    match s {
        Stage::Announce => Stage::Install,
        Stage::Install => Stage::InstallDirectives,
        Stage::InstallDirectives => Stage::Build,
        Stage::Build => Stage::Package,
        Stage::Package => Stage::PackageNote,
        Stage::PackageNote => Stage::LinkPreCopy,
        Stage::LinkPreCopy => Stage::Bridge,
        Stage::Bridge => Stage::CopyLibs,
        Stage::CopyLibs => Stage::CopyIncludes,
        Stage::CopyIncludes => Stage::LinkPostCopy,
        Stage::LinkPostCopy => Stage::RuntimePath,
        Stage::RuntimePath => Stage::Finished,
        Stage::Finished => Stage::Finished,
        Stage::Failed => Stage::Failed,
    }
}

/// Whether `e` reports success of the action of stage `s`. Printing cannot
/// fail, and the package step's status is only logged.
pub open spec fn step_succeeds(s: Stage, e: EventView) -> bool {
    match s {
        Stage::Install => e is Installed,
        Stage::Build => match e {
            EventView::Exited(Some(code), _) => code == 0,
            _ => false,
        },
        Stage::LinkPreCopy | Stage::Bridge | Stage::CopyLibs | Stage::CopyIncludes
        | Stage::LinkPostCopy => e is Done,
        _ => true,
    }
}

/// The tool's detail carried by a failure report.
pub open spec fn detail(e: EventView) -> Seq<char> {
    match e {
        EventView::Failed(d) => d,
        _ => Seq::empty(),
    }
}

/// The failure recorded when the action of stage `s` did not succeed.
pub open spec fn failure_for(s: Stage, e: EventView) -> FailureView {
    match s {
        Stage::Install => FailureView {
            kind: ErrorKind::ExternalTool,
            message: "failed to run conan install"@,
            exit_code: 1,
        },
        Stage::Build => match e {
            EventView::Exited(code, status) => FailureView {
                kind: ErrorKind::ExternalTool,
                message: "conan build failed: "@ + status,
                exit_code: match code {
                    Some(c) => c,
                    None => 1,
                },
            },
            _ => FailureView {
                kind: ErrorKind::ExternalTool,
                message: "conan build reported no exit status"@,
                exit_code: 1,
            },
        },
        Stage::LinkPreCopy | Stage::LinkPostCopy => FailureView {
            kind: ErrorKind::ArtifactDiscovery,
            message: "unable to emit cargo linkage: "@ + detail(e),
            exit_code: 1,
        },
        Stage::Bridge => FailureView {
            kind: ErrorKind::BridgeGeneration,
            message: "unable to generate bindings: "@ + detail(e),
            exit_code: 1,
        },
        _ => FailureView {
            kind: ErrorKind::Copy,
            message: "unable to copy artifacts: "@ + detail(e),
            exit_code: 1,
        },
    }
}

/// The log line for the package step's status, if it reported one.
pub open spec fn package_report(e: EventView) -> Seq<Seq<char>> {
    match e {
        EventView::Exited(_, status) => seq!["conan package exited with "@ + status],
        _ => Seq::empty(),
    }
}

/// The state after the action of `v.stage` was performed with outcome `e`.
pub open spec fn after(v: OrchestratorView, e: EventView) -> OrchestratorView {
    if step_succeeds(v.stage, e) {
        OrchestratorView {
            stage: following(v.stage),
            include_paths: match e {
                EventView::Installed(deps) if v.stage == Stage::Install => aggregated_includes(
                    v.out_dir,
                    deps,
                ),
                _ => v.include_paths,
            },
            package_lines: if v.stage == Stage::Package {
                package_report(e)
            } else {
                v.package_lines
            },
            ..v
        }
    } else {
        OrchestratorView { stage: Stage::Failed, failure: failure_for(v.stage, e), ..v }
    }
}

// ---------------------------------------------------------------------------
// Executable parts.

/// The contents of an optional string.
pub open spec fn option_view(o: Option<String>) -> Option<Seq<char>> {
    match o {
        Some(s) => Some(s@),
        None => None,
    }
}

/// `prefix` followed by `value`.
fn prefixed(prefix: &str, value: &str) -> (r: String)
    ensures
        r@ == prefix@ + value@,
{
    String::from_str(prefix).concat(value)
}

proof fn lemma_strings_view_push(a: Seq<String>, x: String)
    ensures
        strings_view(a.push(x)) == strings_view(a).push(x@),
{
    assert(strings_view(a.push(x)) =~= strings_view(a).push(x@));
}

/// A copy of a list of strings.
fn copy_strings(v: &Vec<String>) -> (r: Vec<String>)
    ensures
        strings_view(r@) == strings_view(v@),
{
    let mut r: Vec<String> = Vec::new();
    let mut i: usize = 0;
    while i < v.len()
        invariant
            i <= v.len(),
            strings_view(r@) == strings_view(v@.subrange(0, i as int)),
        decreases v.len() - i,
    {
        let ghost before = r@;
        r.push(v[i].clone());
        proof {
            lemma_strings_view_push(before, v@[i as int]);
            assert(v@.subrange(0, i + 1) =~= v@.subrange(0, i as int).push(v@[i as int]));
            lemma_strings_view_push(v@.subrange(0, i as int), v@[i as int]);
        }
        i = i + 1;
    }
    assert(v@.subrange(0, v.len() as int) =~= v@);
    r
}

/// The profile handed to install: `profile_override` where given, else the
/// default profile.
pub fn select_profile(profile_override: Option<String>) -> (r: String)
    ensures
        r@ == selected_profile(option_view(profile_override)),
{
    match profile_override {
        Some(p) => p,
        None => String::from_str("default"),
    }
}

/// The header search paths for the bridge: `include_dir`, then the include
/// directories of each dependency in order.
pub fn aggregate_includes(include_dir: &str, deps: &Vec<Vec<String>>) -> (r: Vec<String>)
    ensures
        strings_view(r@) == seq![include_dir@] + deps@.map_values(
            |d: Vec<String>| strings_view(d@),
        ).flatten(),
{
    let ghost dv = deps@.map_values(|d: Vec<String>| strings_view(d@));
    let mut r: Vec<String> = Vec::new();
    r.push(String::from_str(include_dir));
    assert(dv.subrange(0, 0).flatten() =~= Seq::<Seq<char>>::empty());
    assert(strings_view(r@) =~= seq![include_dir@] + dv.subrange(0, 0).flatten());
    let mut i: usize = 0;
    while i < deps.len()
        invariant
            i <= deps.len(),
            dv == deps@.map_values(|d: Vec<String>| strings_view(d@)),
            strings_view(r@) == seq![include_dir@] + dv.subrange(0, i as int).flatten(),
        decreases deps.len() - i,
    {
        let dep = &deps[i];
        let ghost base = strings_view(r@);
        let mut j: usize = 0;
        while j < dep.len()
            invariant
                j <= dep.len(),
                i < deps.len(),
                dep == deps@[i as int],
                strings_view(r@) == base + strings_view(dep@.subrange(0, j as int)),
            decreases dep.len() - j,
        {
            let ghost before = r@;
            r.push(dep[j].clone());
            proof {
                lemma_strings_view_push(before, dep@[j as int]);
                assert(dep@.subrange(0, j + 1) =~= dep@.subrange(0, j as int).push(dep@[j as int]));
                lemma_strings_view_push(dep@.subrange(0, j as int), dep@[j as int]);
                assert(strings_view(r@) =~= base + strings_view(dep@.subrange(0, j + 1)));
            }
            j = j + 1;
        }
        proof {
            assert(dep@.subrange(0, dep.len() as int) =~= dep@);
            assert(dv.subrange(0, i + 1) =~= dv.subrange(0, i as int).push(dv[i as int]));
            dv.subrange(0, i as int).lemma_flatten_push(dv[i as int]);
        }
        i = i + 1;
    }
    assert(dv.subrange(0, deps.len() as int) =~= dv);
    r
}

/// The stage that follows a successful `s`.
fn next_stage(s: Stage) -> (r: Stage)
    ensures
        r == following(s),
{
    match s {
        Stage::Announce => Stage::Install,
        Stage::Install => Stage::InstallDirectives,
        Stage::InstallDirectives => Stage::Build,
        Stage::Build => Stage::Package,
        Stage::Package => Stage::PackageNote,
        Stage::PackageNote => Stage::LinkPreCopy,
        Stage::LinkPreCopy => Stage::Bridge,
        Stage::Bridge => Stage::CopyLibs,
        Stage::CopyLibs => Stage::CopyIncludes,
        Stage::CopyIncludes => Stage::LinkPostCopy,
        Stage::LinkPostCopy => Stage::RuntimePath,
        Stage::RuntimePath => Stage::Finished,
        Stage::Finished => Stage::Finished,
        Stage::Failed => Stage::Failed,
    }
}

/// Whether `e` reports success of the action of stage `s`.
fn succeeds(s: Stage, e: &Event) -> (r: bool)
    ensures
        r == step_succeeds(s, e@),
{
    match s {
        Stage::Install => matches!(e, Event::Installed(_)),
        Stage::Build => match e {
            Event::Exited(Some(code), _) => *code == 0,
            _ => false,
        },
        Stage::LinkPreCopy | Stage::Bridge | Stage::CopyLibs | Stage::CopyIncludes
        | Stage::LinkPostCopy => matches!(e, Event::Done),
        _ => true,
    }
}

/// The tool's detail carried by a failure report.
fn detail_of(e: &Event) -> (r: String)
    ensures
        r@ == detail(e@),
{
    match e {
        Event::Failed(d) => d.clone(),
        _ => String::new(),
    }
}

/// The failure recorded when the action of stage `s` did not succeed.
fn failure_of(s: Stage, e: &Event) -> (f: Failure)
    ensures
        f@ == failure_for(s, e@),
{
    match s {
        Stage::Install => Failure {
            kind: ErrorKind::ExternalTool,
            message: String::from_str("failed to run conan install"),
            exit_code: 1,
        },
        Stage::Build => match e {
            Event::Exited(code, status) => Failure {
                kind: ErrorKind::ExternalTool,
                message: prefixed("conan build failed: ", status.as_str()),
                exit_code: match code {
                    Some(c) => *c,
                    None => 1,
                },
            },
            _ => Failure {
                kind: ErrorKind::ExternalTool,
                message: String::from_str("conan build reported no exit status"),
                exit_code: 1,
            },
        },
        Stage::LinkPreCopy | Stage::LinkPostCopy => Failure {
            kind: ErrorKind::ArtifactDiscovery,
            message: prefixed("unable to emit cargo linkage: ", detail_of(e).as_str()),
            exit_code: 1,
        },
        Stage::Bridge => Failure {
            kind: ErrorKind::BridgeGeneration,
            message: prefixed("unable to generate bindings: ", detail_of(e).as_str()),
            exit_code: 1,
        },
        _ => Failure {
            kind: ErrorKind::Copy,
            message: prefixed("unable to copy artifacts: ", detail_of(e).as_str()),
            exit_code: 1,
        },
    }
}

/// The log line for the package step's status, if it reported one.
fn package_report_lines(e: &Event) -> (r: Vec<String>)
    ensures
        strings_view(r@) == package_report(e@),
{
    let mut r: Vec<String> = Vec::new();
    match e {
        Event::Exited(_, status) => {
            r.push(prefixed("conan package exited with ", status.as_str()));
        },
        _ => {},
    }
    assert(strings_view(r@) =~= package_report(e@));
    r
}

/// The action for a tree that belongs under `destination`.
fn copy_step(source: &String, destination: &String) -> (a: Action)
    ensures
        a@ == copy_action(source@, destination@),
{
    if source.eq(destination) {
        let none: Vec<String> = Vec::new();
        assert(strings_view(none@) =~= Seq::empty());
        Action::Emit(none)
    } else {
        Action::CopyTree(
            CopyRequest {
                source: source.clone(),
                destination: destination.clone(),
                overwrite_existing: true,
            },
        )
    }
}

/// The orchestrator of one run: where it stands and what it has learnt.
pub struct Orchestrator {
    stage: Stage,
    layout: ArtifactLayout,
    runtime: ArtifactLayout,
    profile: String,
    debug: bool,
    include_paths: Vec<String>,
    package_lines: Vec<String>,
    failure: Failure,
}

impl View for Orchestrator {
    type V = OrchestratorView;

    closed spec fn view(&self) -> OrchestratorView {
        OrchestratorView {
            stage: self.stage,
            out_dir: self.layout.root@,
            runtime_dir: self.runtime.root@,
            profile: self.profile@,
            debug: self.debug,
            include_paths: strings_view(self.include_paths@),
            package_lines: strings_view(self.package_lines@),
            failure: self.failure@,
        }
    }
}

impl Orchestrator {
    /// The artifact locations agree with the two roots.
    pub closed spec fn wf(&self) -> bool {
        self.layout.wf() && self.runtime.wf()
    }

    /// Begins a run over the output root `out_dir`, copying the artifacts
    /// under `runtime_dir` (by default `out_dir` itself), with the profile
    /// override if one is given; returns the first action. Without an output
    /// root the run has failed already.
    pub fn start(
        out_dir: Option<String>,
        runtime_dir: Option<String>,
        profile_override: Option<String>,
        debug: bool,
    ) -> (r: (Orchestrator, Action))
        ensures
            r.0.wf(),
            r.0@ == initial(
                option_view(out_dir),
                option_view(runtime_dir),
                option_view(profile_override),
                debug,
            ),
            r.1@ == planned(r.0@),
    {
        let profile = select_profile(profile_override);
        let none: Vec<String> = Vec::new();
        let also_none: Vec<String> = Vec::new();
        assert(strings_view(none@) =~= Seq::empty());
        assert(strings_view(also_none@) =~= Seq::empty());
        let o = match out_dir {
            None => {
                let empty = "";
                proof {
                    reveal_strlit("");
                }
                assert(empty@ =~= Seq::<char>::empty());
                Orchestrator {
                    stage: Stage::Failed,
                    layout: ArtifactLayout::locate(empty),
                    runtime: ArtifactLayout::locate(empty),
                    profile,
                    debug,
                    include_paths: none,
                    package_lines: also_none,
                    failure: Failure {
                        kind: ErrorKind::Environment,
                        message: String::from_str("OUT_DIR environment variable is not set"),
                        exit_code: 1,
                    },
                }
            },
            Some(out) => {
                let runtime = match runtime_dir {
                    Some(r) => ArtifactLayout::locate(r.as_str()),
                    None => ArtifactLayout::locate(out.as_str()),
                };
                let nothing = "";
                proof {
                    reveal_strlit("");
                }
                assert(nothing@ =~= Seq::<char>::empty());
                Orchestrator {
                    stage: Stage::Announce,
                    layout: ArtifactLayout::locate(out.as_str()),
                    runtime,
                    profile,
                    debug,
                    include_paths: none,
                    package_lines: also_none,
                    failure: Failure {
                        kind: ErrorKind::Environment,
                        message: String::from_str(nothing),
                        exit_code: 0,
                    },
                }
            },
        };
        let a = o.action();
        (o, a)
    }

    /// Takes the outcome of the last action and returns the next one.
    pub fn step(&mut self, event: Event) -> (a: Action)
        requires
            old(self).wf(),
        ensures
            final(self).wf(),
            final(self)@ == after(old(self)@, event@),
            a@ == planned(final(self)@),
    {
        if succeeds(self.stage, &event) {
            if self.stage == Stage::Package {
                self.package_lines = package_report_lines(&event);
            }
            if self.stage == Stage::Install {
                match &event {
                    Event::Installed(deps) => {
                        self.include_paths = aggregate_includes(
                            self.layout.include_dir.as_str(),
                            deps,
                        );
                    },
                    _ => {},
                }
            }
            self.stage = next_stage(self.stage);
        } else {
            self.failure = failure_of(self.stage, &event);
            self.stage = Stage::Failed;
        }
        self.action()
    }

    /// The action of the current stage.
    fn action(&self) -> (a: Action)
        requires
            self.wf(),
        ensures
            a@ == planned(self@),
    {
        match self.stage {
            Stage::Announce => {
                let mut lines: Vec<String> = Vec::new();
                lines.push(prefixed("cargo:rerun-if-changed=", "build.rs"));
                lines.push(prefixed("cargo:rerun-if-changed=", "../../../conanfile.py"));
                lines.push(prefixed("cargo:rerun-if-changed=", "src/ext.rs"));
                lines.push(prefixed("cargo:libs=", self.layout.lib_dir.as_str()));
                lines.push(prefixed("cargo:includes=", self.layout.include_dir.as_str()));
                assert(strings_view(lines@) =~= announce_lines(self.layout.root@));
                Action::Emit(lines)
            },
            Stage::Install => {
                let mut options: Vec<String> = Vec::new();
                options.push(String::from_str("shared=False"));
                options.push(String::from_str("fPIC=False"));
                assert(strings_view(options@) =~= build_options());
                Action::Install(
                    InstallRequest {
                        recipe_path: String::from_str("../../../conanfile.py"),
                        output_dir: String::from_str("../../../build/"),
                        profile: self.profile.clone(),
                        policy: BuildPolicy::Missing,
                        options,
                        update_check: true,
                    },
                )
            },
            Stage::InstallDirectives => Action::EmitInstallDirectives,
            Stage::Build => Action::Build(
                BuildRequest {
                    recipe_path: String::from_str("../../../conanfile.py"),
                    build_dir: String::from_str("../../../build/"),
                },
            ),
            Stage::Package => Action::Package(
                PackageRequest {
                    recipe_path: String::from_str("../../../conanfile.py"),
                    build_dir: String::from_str("../../../build/"),
                    package_dir: self.layout.root.clone(),
                },
            ),
            Stage::PackageNote => Action::Emit(copy_strings(&self.package_lines)),
            Stage::LinkPreCopy => Action::EmitLinkage(
                LinkageRequest {
                    package_dir: self.layout.root.clone(),
                    lib_subdir: String::from_str("lib"),
                },
            ),
            Stage::Bridge => Action::GenerateBridge(
                BridgeRequest {
                    entry_source: String::from_str("src/ext.rs"),
                    include_paths: copy_strings(&self.include_paths),
                    std_flag: String::from_str("-std=c++14"),
                    library_name: String::from_str("kms"),
                },
            ),
            Stage::CopyLibs => copy_step(&self.layout.lib_dir, &self.runtime.lib_dir),
            Stage::CopyIncludes => copy_step(&self.layout.include_dir, &self.runtime.include_dir),
            Stage::LinkPostCopy => Action::EmitLinkage(
                LinkageRequest {
                    package_dir: self.runtime.root.clone(),
                    lib_subdir: String::from_str("lib"),
                },
            ),
            Stage::RuntimePath => {
                let mut lines: Vec<String> = Vec::new();
                if self.debug {
                    lines.push(
                        prefixed("cargo:rustc-link-arg=-Wl,-rpath,", self.layout.lib_dir.as_str()),
                    );
                }
                assert(strings_view(lines@) =~= runtime_path_lines(
                    self.debug,
                    lib_dir_of(self.layout.root@),
                ));
                Action::Emit(lines)
            },
            Stage::Finished => Action::Finish,
            Stage::Failed => Action::Fail(self.failure.clone_failure()),
        }
    }
}

} // verus!
