use somebuild::command::{run, BuildOutcome, Phase, PhaseExecutor};

fn executor(setup: &str, build: &str, install: &str) -> PhaseExecutor {
    PhaseExecutor::new(
        setup.to_string(),
        build.to_string(),
        install.to_string(),
        ".".to_string(),
        "/tmp/somebuild-dest".to_string(),
    )
}

#[test]
fn setup_failure_stops_the_run() {
    let mut e = executor("exit 2", "echo built", "echo installed");
    e.run_to_end().expect("commands should launch");
    assert_eq!(e.codes(), &vec![2]);
    match e.into_outcome() {
        Some(BuildOutcome::Failed(rep)) => {
            assert!(matches!(rep.phase, Phase::Setup));
            assert_eq!(rep.exit_code, 2);
        },
        _ => panic!("expected a setup failure"),
    }
}

#[test]
fn all_phases_succeed_in_order() {
    let mut e = executor("echo setup", "echo build", "echo install");
    e.run_to_end().expect("commands should launch");
    assert_eq!(e.codes(), &vec![0, 0, 0]);
    assert!(matches!(e.into_outcome(), Some(BuildOutcome::Success)));
}

#[test]
fn build_failure_names_the_build_phase() {
    let mut e = executor("echo setup", "exit 3", "echo install");
    e.run_to_end().expect("commands should launch");
    assert_eq!(e.codes(), &vec![0, 3]);
    match e.into_outcome() {
        Some(BuildOutcome::Failed(rep)) => {
            assert!(matches!(rep.phase, Phase::Build));
            assert_eq!(rep.exit_code, 3);
        },
        _ => panic!("expected a build failure"),
    }
}

#[test]
fn install_failure_names_the_install_phase() {
    let mut e = executor("echo setup", "echo build", "exit 7");
    e.run_to_end().expect("commands should launch");
    assert_eq!(e.codes(), &vec![0, 0, 7]);
    match e.into_outcome() {
        Some(BuildOutcome::Failed(rep)) => {
            assert!(matches!(rep.phase, Phase::Install));
            assert_eq!(rep.exit_code, 7);
        },
        _ => panic!("expected an install failure"),
    }
}

#[test]
fn stepping_walks_the_phases() {
    let mut e = executor("echo a", "echo b", "echo c");
    assert_eq!(e.current_phase(), Some(Phase::Setup));
    assert!(!e.is_finished());
    e.step().expect("setup should launch");
    assert_eq!(e.current_phase(), Some(Phase::Build));
    e.step().expect("build should launch");
    assert_eq!(e.current_phase(), Some(Phase::Install));
    e.step().expect("install should launch");
    assert!(e.is_finished());
    assert_eq!(e.current_phase(), None);
    // Stepping a finished executor changes nothing.
    e.step().expect("no-op step");
    assert_eq!(e.codes(), &vec![0, 0, 0]);
}

#[test]
fn run_captures_streams_and_substitutes() {
    let rep = run(Phase::Setup, "echo out-text && echo err-text 1>&2", ".", "/d")
        .expect("command should launch");
    assert!(matches!(rep.phase, Phase::Setup));
    assert_eq!(rep.exit_code, 0);
    assert!(rep.stdout.contains("out-text"));
    assert!(rep.stderr.contains("err-text"));
    assert_eq!(rep.command, "echo out-text && echo err-text 1>&2");
}

#[test]
fn run_substitutes_placeholders_in_command() {
    let rep = run(Phase::Build, "echo %make", ".", "/d").expect("command should launch");
    assert_eq!(rep.command, "echo make");
    assert!(rep.stdout.contains("make"));
}

#[test]
fn phase_names() {
    assert_eq!(Phase::Setup.name(), "setup");
    assert_eq!(Phase::Build.name(), "build");
    assert_eq!(Phase::Install.name(), "install");
}
