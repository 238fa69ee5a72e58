//! What the orchestrator asks a driver to do, and what the driver reports back.
use vstd::prelude::*;

verus! {

/// The contents of a list of strings.
pub open spec fn strings_view(v: Seq<String>) -> Seq<Seq<char>> {
    v.map_values(|s: String| s@)
}

/// When the package manager rebuilds a dependency from source.
#[derive(PartialEq, Eq, Structural, Clone, Copy, Debug)]
pub enum BuildPolicy {
    /// Only when no prebuilt binary is available.
    Missing,
    /// On every install.
    Always,
}

/// The package manager's install step.
pub struct InstallRequest {
    pub recipe_path: String,
    pub output_dir: String,
    pub profile: String,
    pub policy: BuildPolicy,
    pub options: Vec<String>,
    pub update_check: bool,
}

pub struct InstallRequestView {
    pub recipe_path: Seq<char>,
    pub output_dir: Seq<char>,
    pub profile: Seq<char>,
    pub policy: BuildPolicy,
    pub options: Seq<Seq<char>>,
    pub update_check: bool,
}

impl View for InstallRequest {
    type V = InstallRequestView;

    open spec fn view(&self) -> InstallRequestView {
        InstallRequestView {
            recipe_path: self.recipe_path@,
            output_dir: self.output_dir@,
            profile: self.profile@,
            policy: self.policy,
            options: strings_view(self.options@),
            update_check: self.update_check,
        }
    }
}

/// The package manager's build step, in the directory that install used.
pub struct BuildRequest {
    pub recipe_path: String,
    pub build_dir: String,
}

pub struct BuildRequestView {
    pub recipe_path: Seq<char>,
    pub build_dir: Seq<char>,
}

impl View for BuildRequest {
    type V = BuildRequestView;

    open spec fn view(&self) -> BuildRequestView {
        BuildRequestView { recipe_path: self.recipe_path@, build_dir: self.build_dir@ }
    }
}

/// The package manager's package step, collecting artifacts into `package_dir`.
pub struct PackageRequest {
    pub recipe_path: String,
    pub build_dir: String,
    pub package_dir: String,
}

pub struct PackageRequestView {
    pub recipe_path: Seq<char>,
    pub build_dir: Seq<char>,
    pub package_dir: Seq<char>,
}

impl View for PackageRequest {
    type V = PackageRequestView;

    open spec fn view(&self) -> PackageRequestView {
        PackageRequestView {
            recipe_path: self.recipe_path@,
            build_dir: self.build_dir@,
            package_dir: self.package_dir@,
        }
    }
}

/// Scan `package_dir/lib_subdir` and emit a search path and one link-library
/// directive per linkable artifact found there.
pub struct LinkageRequest {
    pub package_dir: String,
    pub lib_subdir: String,
}

pub struct LinkageRequestView {
    pub package_dir: Seq<char>,
    pub lib_subdir: Seq<char>,
}

impl View for LinkageRequest {
    type V = LinkageRequestView;

    open spec fn view(&self) -> LinkageRequestView {
        LinkageRequestView { package_dir: self.package_dir@, lib_subdir: self.lib_subdir@ }
    }
}

/// Generate the bridge declared in `entry_source`, searching headers in
/// `include_paths` in order, and compile it as the static library
/// `library_name`, with `std_flag` where the compiler accepts it.
pub struct BridgeRequest {
    pub entry_source: String,
    pub include_paths: Vec<String>,
    pub std_flag: String,
    pub library_name: String,
}

pub struct BridgeRequestView {
    pub entry_source: Seq<char>,
    pub include_paths: Seq<Seq<char>>,
    pub std_flag: Seq<char>,
    pub library_name: Seq<char>,
}

impl View for BridgeRequest {
    type V = BridgeRequestView;

    open spec fn view(&self) -> BridgeRequestView {
        BridgeRequestView {
            entry_source: self.entry_source@,
            include_paths: strings_view(self.include_paths@),
            std_flag: self.std_flag@,
            library_name: self.library_name@,
        }
    }
}

/// Copy the tree `source` into `destination`, creating missing directories;
/// with `overwrite_existing`, files already there are replaced.
pub struct CopyRequest {
    pub source: String,
    pub destination: String,
    pub overwrite_existing: bool,
}

pub struct CopyRequestView {
    pub source: Seq<char>,
    pub destination: Seq<char>,
    pub overwrite_existing: bool,
}

impl View for CopyRequest {
    type V = CopyRequestView;

    open spec fn view(&self) -> CopyRequestView {
        CopyRequestView {
            source: self.source@,
            destination: self.destination@,
            overwrite_existing: self.overwrite_existing,
        }
    }
}

/// The class of a fatal failure.
#[derive(PartialEq, Eq, Structural, Clone, Copy, Debug)]
pub enum ErrorKind {
    /// A required variable or directory is missing.
    Environment,
    /// An install, build or package step failed.
    ExternalTool,
    /// The packaged libraries could not be read.
    ArtifactDiscovery,
    /// Header parsing, binding synthesis or compilation of the bridge failed.
    BridgeGeneration,
    /// Copying the artifacts into place failed.
    Copy,
}

/// A fatal failure: one diagnostic line and the status to exit with.
pub struct Failure {
    pub kind: ErrorKind,
    pub message: String,
    pub exit_code: i32,
}

pub struct FailureView {
    pub kind: ErrorKind,
    pub message: Seq<char>,
    pub exit_code: i32,
}

impl View for Failure {
    type V = FailureView;

    open spec fn view(&self) -> FailureView {
        FailureView { kind: self.kind, message: self.message@, exit_code: self.exit_code }
    }
}

impl Failure {
    pub fn clone_failure(&self) -> (r: Failure)
        ensures
            r@ == self@,
    {
        Failure { kind: self.kind, message: self.message.clone(), exit_code: self.exit_code }
    }
}

/// One thing for the driver to do.
pub enum Action {
    /// Print each line to the host build system, in order.
    Emit(Vec<String>),
    Install(InstallRequest),
    /// Print the linker directives that the install step's descriptor prescribes.
    EmitInstallDirectives,
    Build(BuildRequest),
    Package(PackageRequest),
    EmitLinkage(LinkageRequest),
    GenerateBridge(BridgeRequest),
    CopyTree(CopyRequest),
    /// Every step succeeded.
    Finish,
    /// Print the diagnostic and exit with the failure's status.
    Fail(Failure),
}

pub enum ActionView {
    Emit(Seq<Seq<char>>),
    Install(InstallRequestView),
    EmitInstallDirectives,
    Build(BuildRequestView),
    Package(PackageRequestView),
    EmitLinkage(LinkageRequestView),
    GenerateBridge(BridgeRequestView),
    CopyTree(CopyRequestView),
    Finish,
    Fail(FailureView),
}

impl View for Action {
    type V = ActionView;

    open spec fn view(&self) -> ActionView {
        match self {
            Action::Emit(lines) => ActionView::Emit(strings_view(lines@)),
            Action::Install(r) => ActionView::Install(r@),
            Action::EmitInstallDirectives => ActionView::EmitInstallDirectives,
            Action::Build(r) => ActionView::Build(r@),
            Action::Package(r) => ActionView::Package(r@),
            Action::EmitLinkage(r) => ActionView::EmitLinkage(r@),
            Action::GenerateBridge(r) => ActionView::GenerateBridge(r@),
            Action::CopyTree(r) => ActionView::CopyTree(r@),
            Action::Finish => ActionView::Finish,
            Action::Fail(f) => ActionView::Fail(f@),
        }
    }
}

/// What the driver reports after performing an action.
pub enum Event {
    /// The action completed.
    Done,
    /// The action failed; the text is the underlying tool's detail.
    Failed(String),
    /// Install succeeded; the include directories of each resolved
    /// dependency, in dependency order.
    Installed(Vec<Vec<String>>),
    /// A process exited: its exit code where it has one, and its status as text.
    Exited(Option<i32>, String),
    /// The step produced no status at all.
    NoStatus,
}

pub enum EventView {
    Done,
    Failed(Seq<char>),
    Installed(Seq<Seq<Seq<char>>>),
    Exited(Option<i32>, Seq<char>),
    NoStatus,
}

impl View for Event {
    type V = EventView;

    open spec fn view(&self) -> EventView {
        match self {
            Event::Done => EventView::Done,
            Event::Failed(d) => EventView::Failed(d@),
            Event::Installed(deps) => EventView::Installed(
                deps@.map_values(|d: Vec<String>| strings_view(d@)),
            ),
            Event::Exited(c, s) => EventView::Exited(*c, s@),
            Event::NoStatus => EventView::NoStatus,
        }
    }
}

} // verus!
