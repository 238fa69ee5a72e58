use bridge_build::actions::{Action, BuildPolicy, ErrorKind, Event, Failure};
use bridge_build::paths::{join_path, ArtifactLayout};
use bridge_build::pipeline::{aggregate_includes, select_profile, Orchestrator};

fn s(x: &str) -> String {
    x.to_string()
}

fn installed() -> Event {
    Event::Installed(vec![
        vec![s("/deps/a/include"), s("/deps/a/include/extra")],
        vec![],
        vec![s("/deps/b/include")],
    ])
}

fn emitted(a: &Action) -> Vec<String> {
    match a {
        Action::Emit(lines) => lines.clone(),
        _ => panic!("expected lines to print"),
    }
}

fn failure(a: Action) -> Failure {
    match a {
        Action::Fail(f) => f,
        _ => panic!("expected a failure"),
    }
}

/// Runs from a fresh start up to the build step and returns the machine.
fn at_build(debug: bool, runtime: Option<String>) -> Orchestrator {
    let (mut o, _) = Orchestrator::start(Some(s("/out")), runtime, None, debug);
    o.step(Event::Done);
    o.step(installed());
    let a = o.step(Event::Done);
    assert!(matches!(a, Action::Build(_)));
    o
}

/// Reports success for every action of a run and collects the actions.
fn full_run(debug: bool, runtime: Option<String>) -> Vec<Action> {
    let (mut o, first) = Orchestrator::start(Some(s("/out")), runtime, None, debug);
    let mut actions = vec![first];
    loop {
        let event = match actions.last().unwrap() {
            Action::Install(_) => installed(),
            Action::Build(_) => Event::Exited(Some(0), s("exit status: 0")),
            Action::Package(_) => Event::Exited(Some(0), s("exit status: 0")),
            Action::Finish | Action::Fail(_) => break,
            _ => Event::Done,
        };
        actions.push(o.step(event));
        assert!(actions.len() < 40);
    }
    actions
}

#[test]
fn join_adds_one_separator() {
    assert_eq!(join_path("/out", "lib"), "/out/lib");
    assert_eq!(join_path("/out/", "lib"), "/out/lib");
    assert_eq!(join_path("", "lib"), "lib");
}

#[test]
fn layout_derives_both_roots() {
    let l = ArtifactLayout::locate("/tmp/out");
    assert_eq!(l.root, "/tmp/out");
    assert_eq!(l.lib_dir, "/tmp/out/lib");
    assert_eq!(l.include_dir, "/tmp/out/include");
}

#[test]
fn profile_defaults_unless_overridden() {
    assert_eq!(select_profile(None), "default");
    assert_eq!(select_profile(Some(s("clang-release"))), "clang-release");
}

#[test]
fn includes_put_packaged_headers_first() {
    let deps = vec![vec![s("a1"), s("a2")], vec![], vec![s("b1")]];
    assert_eq!(aggregate_includes("/out/include", &deps), vec!["/out/include", "a1", "a2", "b1"]);
    assert_eq!(aggregate_includes("/out/include", &vec![]), vec!["/out/include"]);
}

#[test]
fn announce_lists_watched_inputs_and_locations() {
    let (_, a) = Orchestrator::start(Some(s("/out")), None, None, false);
    assert_eq!(
        emitted(&a),
        vec![
            "cargo:rerun-if-changed=build.rs",
            "cargo:rerun-if-changed=../../../conanfile.py",
            "cargo:rerun-if-changed=src/ext.rs",
            "cargo:libs=/out/lib",
            "cargo:includes=/out/include",
        ]
    );
}

#[test]
fn install_request_is_fixed_but_for_profile() {
    let (mut o, _) = Orchestrator::start(Some(s("/out")), None, Some(s("gcc13")), false);
    match o.step(Event::Done) {
        Action::Install(r) => {
            assert_eq!(r.recipe_path, "../../../conanfile.py");
            assert_eq!(r.output_dir, "../../../build/");
            assert_eq!(r.profile, "gcc13");
            assert_eq!(r.policy, BuildPolicy::Missing);
            assert_eq!(r.options, vec!["shared=False", "fPIC=False"]);
            assert!(r.update_check);
        },
        _ => panic!("expected install"),
    }
}

#[test]
fn missing_out_dir_is_an_environment_error() {
    let (mut o, a) = Orchestrator::start(None, None, None, false);
    let f = failure(a);
    assert_eq!(f.kind, ErrorKind::Environment);
    assert_eq!(f.exit_code, 1);
    assert_eq!(f.message, "OUT_DIR environment variable is not set");
    assert!(matches!(o.step(Event::Done), Action::Fail(_)));
}

#[test]
fn successful_run_takes_every_step_in_order() {
    let actions = full_run(false, Some(s("/host")));
    let kinds: Vec<&str> = actions
        .iter()
        .map(|a| match a {
            Action::Emit(_) => "emit",
            Action::Install(_) => "install",
            Action::EmitInstallDirectives => "directives",
            Action::Build(_) => "build",
            Action::Package(_) => "package",
            Action::EmitLinkage(_) => "linkage",
            Action::GenerateBridge(_) => "bridge",
            Action::CopyTree(_) => "copy",
            Action::Finish => "finish",
            Action::Fail(_) => "fail",
        })
        .collect();
    assert_eq!(
        kinds,
        vec![
            "emit", "install", "directives", "build", "package", "emit", "linkage", "bridge",
            "copy", "copy", "linkage", "emit", "finish"
        ]
    );
    match &actions[4] {
        Action::Package(p) => assert_eq!(p.package_dir, "/out"),
        _ => panic!(),
    }
    assert_eq!(emitted(&actions[5]), vec!["conan package exited with exit status: 0"]);
    match &actions[7] {
        Action::GenerateBridge(b) => {
            assert_eq!(b.entry_source, "src/ext.rs");
            assert_eq!(
                b.include_paths,
                vec!["/out/include", "/deps/a/include", "/deps/a/include/extra", "/deps/b/include"]
            );
            assert_eq!(b.std_flag, "-std=c++14");
            assert_eq!(b.library_name, "kms");
        },
        _ => panic!(),
    }
}

#[test]
fn copies_overwrite_into_runtime_root() {
    let actions = full_run(false, Some(s("/host")));
    match (&actions[8], &actions[9]) {
        (Action::CopyTree(l), Action::CopyTree(i)) => {
            assert_eq!((l.source.as_str(), l.destination.as_str()), ("/out/lib", "/host/lib"));
            assert_eq!((i.source.as_str(), i.destination.as_str()), ("/out/include", "/host/include"));
            assert!(l.overwrite_existing && i.overwrite_existing);
        },
        _ => panic!("expected two copies"),
    }
}

#[test]
fn copy_onto_itself_is_skipped() {
    let actions = full_run(false, None);
    assert!(emitted(&actions[8]).is_empty());
    assert!(emitted(&actions[9]).is_empty());
    assert!(matches!(actions.last().unwrap(), Action::Finish));
}

#[test]
fn rerun_issues_the_same_actions() {
    let first = full_run(true, Some(s("/host")));
    let second = full_run(true, Some(s("/host")));
    assert_eq!(first.len(), second.len());
    assert_eq!(emitted(&first[11]), emitted(&second[11]));
    for (a, b) in first.iter().zip(second.iter()) {
        if let (Action::CopyTree(x), Action::CopyTree(y)) = (a, b) {
            assert_eq!((&x.source, &x.destination), (&y.source, &y.destination));
            assert!(x.overwrite_existing && y.overwrite_existing);
        }
    }
}

#[test]
fn linkage_before_and_after_copy_agree() {
    let actions = full_run(false, None);
    match (&actions[6], &actions[10]) {
        (Action::EmitLinkage(a), Action::EmitLinkage(b)) => {
            assert_eq!(a.package_dir, "/out");
            assert_eq!(a.lib_subdir, "lib");
            assert_eq!((&a.package_dir, &a.lib_subdir), (&b.package_dir, &b.lib_subdir));
        },
        _ => panic!("expected two linkage steps"),
    }
    let relocated = full_run(false, Some(s("/host")));
    match &relocated[10] {
        Action::EmitLinkage(b) => assert_eq!((b.package_dir.as_str(), b.lib_subdir.as_str()), ("/host", "lib")),
        _ => panic!(),
    }
}

#[test]
fn debug_build_adds_runtime_search_path() {
    let actions = full_run(true, Some(s("/host")));
    assert_eq!(emitted(&actions[11]), vec!["cargo:rustc-link-arg=-Wl,-rpath,/out/lib"]);
}

#[test]
fn release_build_has_no_runtime_search_path() {
    let actions = full_run(false, Some(s("/host")));
    assert!(emitted(&actions[11]).is_empty());
    for a in &actions {
        if let Action::Emit(lines) = a {
            assert!(lines.iter().all(|l| !l.contains("rpath")));
        }
    }
}

#[test]
fn failed_install_stops_before_build() {
    let (mut o, _) = Orchestrator::start(Some(s("/out")), None, Some(s("no-such-profile")), false);
    assert!(matches!(o.step(Event::Done), Action::Install(_)));
    let f = failure(o.step(Event::NoStatus));
    assert_eq!(f.kind, ErrorKind::ExternalTool);
    assert_eq!(f.exit_code, 1);
    assert_eq!(f.message, "failed to run conan install");
    for e in [Event::Done, installed(), Event::Exited(Some(0), s("ok"))] {
        assert!(matches!(o.step(e), Action::Fail(_)));
    }
}

#[test]
fn failed_build_propagates_exit_code() {
    let mut o = at_build(false, None);
    let f = failure(o.step(Event::Exited(Some(3), s("exit status: 3"))));
    assert_eq!(f.kind, ErrorKind::ExternalTool);
    assert_eq!(f.exit_code, 3);
    assert_eq!(f.message, "conan build failed: exit status: 3");
    assert!(matches!(o.step(Event::Done), Action::Fail(_)));
}

#[test]
fn build_killed_by_signal_fails_with_one() {
    let mut o = at_build(false, None);
    let f = failure(o.step(Event::Exited(None, s("signal: 9 (SIGKILL)"))));
    assert_eq!(f.exit_code, 1);
    assert_eq!(f.message, "conan build failed: signal: 9 (SIGKILL)");
}

#[test]
fn build_without_status_fails() {
    let mut o = at_build(false, None);
    let f = failure(o.step(Event::NoStatus));
    assert_eq!(f.exit_code, 1);
    assert_eq!(f.message, "conan build reported no exit status");
}

#[test]
fn package_without_status_is_not_fatal() {
    let mut o = at_build(false, None);
    assert!(matches!(o.step(Event::Exited(Some(0), s("exit status: 0"))), Action::Package(_)));
    let a = o.step(Event::NoStatus);
    assert!(emitted(&a).is_empty());
    assert!(matches!(o.step(Event::Done), Action::EmitLinkage(_)));
}

#[test]
fn linkage_bridge_and_copy_failures_carry_detail() {
    let mut o = at_build(false, Some(s("/host")));
    o.step(Event::Exited(Some(0), s("exit status: 0")));
    o.step(Event::NoStatus);
    o.step(Event::Done);
    let f = failure(o.step(Event::Failed(s("no such directory"))));
    assert_eq!(f.kind, ErrorKind::ArtifactDiscovery);
    assert_eq!(f.message, "unable to emit cargo linkage: no such directory");

    let mut o = at_build(false, Some(s("/host")));
    o.step(Event::Exited(Some(0), s("exit status: 0")));
    o.step(Event::NoStatus);
    o.step(Event::Done);
    assert!(matches!(o.step(Event::Done), Action::GenerateBridge(_)));
    let f = failure(o.step(Event::Failed(s("parse error"))));
    assert_eq!(f.kind, ErrorKind::BridgeGeneration);
    assert_eq!(f.message, "unable to generate bindings: parse error");
    assert_eq!(f.exit_code, 1);

    let mut o = at_build(false, Some(s("/host")));
    o.step(Event::Exited(Some(0), s("exit status: 0")));
    o.step(Event::NoStatus);
    o.step(Event::Done);
    o.step(Event::Done);
    assert!(matches!(o.step(Event::Done), Action::CopyTree(_)));
    let f = failure(o.step(Event::Failed(s("permission denied"))));
    assert_eq!(f.kind, ErrorKind::Copy);
    assert_eq!(f.message, "unable to copy artifacts: permission denied");
}
