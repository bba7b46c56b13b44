use eth2fuzz::{
    CommandSpec, FsOp, FsPath, FuzzError, FuzzTarget, FuzzerAfl, FuzzerHfuzz, FuzzerLibfuzzer, LaunchOutcome,
    RunContext, Step,
};

fn path(parts: &[&str]) -> FsPath {
    FsPath { parts: parts.iter().map(|p| p.to_string()).collect() }
}

fn cwd() -> FsPath {
    path(&["", "src", "eth2fuzz"])
}

fn ok() -> LaunchOutcome {
    LaunchOutcome::Exited(Some(0))
}

fn target(name: &str, language: &str) -> FuzzTarget {
    FuzzTarget {
        name: name.to_string(),
        language: language.to_string(),
        corpora: "voluntary_exit".to_string(),
        template: "libfuzzer_template.rs".to_string(),
    }
}

fn ctx(queue_is_dir: bool, queue_has_entry: bool, extra: Option<&str>) -> RunContext {
    RunContext {
        corpora_root: path(&["", "src", "eth2fuzz", "workspace", "corpora"]),
        state_dir: path(&["", "src", "eth2fuzz", "workspace", "corpora", "beaconstate"]),
        extra_run_args: extra.map(|e| e.to_string()),
        queue_is_dir,
        queue_has_entry,
    }
}

fn env_of(cmd: &CommandSpec, key: &str) -> Option<String> {
    cmd.env.iter().find(|v| v.key == key).map(|v| v.value.clone())
}

fn launch(steps: &[Step]) -> CommandSpec {
    match steps.last() {
        Some(Step::Exec { command, must_succeed: true }) => command.clone(),
        other => panic!("plan does not end with a launch: {:?}", other),
    }
}

fn op_paths(op: &FsOp) -> (Vec<String>, Vec<String>) {
    match op {
        FsOp::CreateDirAll(p) => (vec![], p.parts.clone()),
        FsOp::Copy { from, to } => (from.parts.clone(), to.parts.clone()),
        FsOp::CopyTree { from, to } => (from.parts.clone(), to.parts.clone()),
    }
}

#[test]
fn new_fails_when_toolchain_missing() {
    match FuzzerHfuzz::new(LaunchOutcome::SpawnFailed, &cwd(), None, None) {
        Err(FuzzError::Unavailable { hint }) => assert!(hint.contains("cargo install honggfuzz")),
        other => panic!("unexpected {:?}", other),
    }
    assert!(FuzzerAfl::new(LaunchOutcome::Exited(Some(1)), &cwd(), None, None).is_err());
    assert!(FuzzerLibfuzzer::new(LaunchOutcome::Exited(None), &cwd(), None, None).is_err());
}

#[test]
fn new_lays_out_engine_directories() {
    let h = FuzzerHfuzz::new(ok(), &cwd(), Some(30), Some(4)).unwrap();
    assert_eq!(h.name, "Honggfuzz");
    assert_eq!(h.dir.display(), "/src/eth2fuzz/fuzzers/rust-honggfuzz");
    assert_eq!(h.work_dir.display(), "/src/eth2fuzz/workspace/hfuzz");
    assert_eq!(h.workspace_dir.display(), "/src/eth2fuzz/workspace/hfuzz/hfuzz_workspace");
    assert_eq!((h.timeout, h.thread), (Some(30), Some(4)));
    let a = FuzzerAfl::new(ok(), &cwd(), None, None).unwrap();
    assert_eq!(a.name, "Afl++");
    assert_eq!(a.workspace_dir.display(), "/src/eth2fuzz/workspace/afl/afl_workspace");
    let l = FuzzerLibfuzzer::new(ok(), &cwd(), None, None).unwrap();
    assert_eq!(l.name, "Libfuzzer");
    assert_eq!(l.dir.display(), "/src/eth2fuzz/fuzzers/rust-libfuzzer");
    assert_eq!(l.workspace_dir.display(), "/src/eth2fuzz/workspace/libfuzzer/libfuzzer_workspace");
}

#[test]
fn probe_commands_name_engine_subcommands() {
    assert_eq!(FuzzerHfuzz::probe_command().args, vec!["hfuzz", "version"]);
    assert_eq!(FuzzerAfl::probe_command().args, vec!["afl", "--version"]);
    let l = FuzzerLibfuzzer::probe_command();
    assert_eq!(l.program, "cargo");
    assert_eq!(l.args, vec!["fuzz", "--version"]);
    assert!(l.current_dir.is_none());
}

#[test]
fn non_compiled_target_is_refused_without_steps() {
    let t = target("process_voluntary_exit", "python");
    let h = FuzzerHfuzz::new(ok(), &cwd(), None, None).unwrap();
    match h.run(&t, &ctx(false, false, None)) {
        Err(FuzzError::TargetIncompatible { engine, target }) => {
            assert_eq!(engine, "Honggfuzz");
            assert_eq!(target, "process_voluntary_exit");
        },
        other => panic!("unexpected {:?}", other),
    }
    let a = FuzzerAfl::new(ok(), &cwd(), None, None).unwrap();
    assert!(matches!(a.run(&t, &ctx(true, true, None)), Err(FuzzError::TargetIncompatible { .. })));
    let l = FuzzerLibfuzzer::new(ok(), &cwd(), None, None).unwrap();
    assert!(matches!(l.run(&t, &ctx(false, false, None)), Err(FuzzError::TargetIncompatible { .. })));
}

#[test]
fn workspace_plan_writes_only_under_work_dir() {
    let h = FuzzerHfuzz::new(ok(), &cwd(), None, None).unwrap();
    let first = h.prepare_fuzzer_workspace();
    let second = h.prepare_fuzzer_workspace();
    assert_eq!(format!("{:?}", first), format!("{:?}", second));
    assert_eq!(first.len(), 6);
    for op in &first {
        let (from, to) = op_paths(op);
        assert!(to.starts_with(&h.work_dir.parts));
        assert!(from.is_empty() || from.starts_with(&h.dir.parts));
    }
    let l = FuzzerLibfuzzer::new(ok(), &cwd(), None, None).unwrap();
    let plan = l.prepare_fuzzer_workspace();
    assert_eq!(plan.len(), 1);
    assert_eq!(op_paths(&plan[0]), (l.dir.parts.clone(), l.work_dir.parts.clone()));
}

#[test]
fn hfuzz_run_passes_arguments_through_environment() {
    let h = FuzzerHfuzz::new(ok(), &cwd(), Some(30), Some(4)).unwrap();
    let steps = h.run(&target("block_header", "rust"), &ctx(false, false, Some("-v"))).unwrap();
    let cmd = launch(&steps);
    assert_eq!(cmd.args, vec!["+nightly", "hfuzz", "run", "block_header"]);
    assert_eq!(env_of(&cmd, "HFUZZ_RUN_ARGS").unwrap(), "--run_time 30 -t 60 -n 4 -v");
    assert_eq!(env_of(&cmd, "HFUZZ_INPUT").unwrap(), "/src/eth2fuzz/workspace/corpora/voluntary_exit");
    assert_eq!(
        env_of(&cmd, "ETH2FUZZ_BEACONSTATE").unwrap(),
        "/src/eth2fuzz/workspace/corpora/beaconstate"
    );
    assert_eq!(cmd.current_dir.unwrap().display(), "/src/eth2fuzz/workspace/hfuzz");

    let plain = FuzzerHfuzz::new(ok(), &cwd(), None, None).unwrap();
    let steps = plain.run(&target("block_header", "rust"), &ctx(false, false, None)).unwrap();
    assert_eq!(env_of(&launch(&steps), "HFUZZ_RUN_ARGS").unwrap(), " -t 60  ");
    match &steps[2] {
        Step::WriteHarness { template, output } => {
            assert_eq!(template.display(), "/src/eth2fuzz/fuzzers/rust-honggfuzz/libfuzzer_template.rs");
            assert_eq!(output.display(), "/src/eth2fuzz/workspace/hfuzz/src/bin/block_header.rs");
        },
        other => panic!("unexpected {:?}", other),
    }
}

#[test]
fn afl_resumes_from_nonempty_queue() {
    let a = FuzzerAfl::new(ok(), &cwd(), Some(60), None).unwrap();
    let t = target("attestation", "rust");
    let resumed = launch(&a.run(&t, &ctx(true, true, None)).unwrap());
    assert_eq!(
        resumed.args,
        vec![
            "+nightly",
            "afl",
            "fuzz",
            "-V 60",
            "-m",
            "none",
            "-i",
            "-",
            "-o",
            "/src/eth2fuzz/workspace/afl/afl_workspace",
            "--",
            "./target/debug/attestation",
        ]
    );
    assert_eq!(env_of(&resumed, "AFL_SKIP_CPUFREQ").unwrap(), "1");
    let fresh = launch(&a.run(&t, &ctx(true, false, None)).unwrap());
    assert_eq!(fresh.args[7], "/src/eth2fuzz/workspace/corpora/voluntary_exit");
    let absent = launch(&a.run(&t, &ctx(false, false, None)).unwrap());
    assert_eq!(absent.args[7], "/src/eth2fuzz/workspace/corpora/voluntary_exit");
}

#[test]
fn afl_build_must_succeed_before_fuzzing() {
    let a = FuzzerAfl::new(ok(), &cwd(), None, None).unwrap();
    let t = target("attestation", "rust");
    let build = a.build_afl(&t);
    assert_eq!(build.len(), 4);
    match build.last() {
        Some(Step::Exec { command, must_succeed: true }) => {
            assert_eq!(command.args, vec!["+nightly", "afl", "build", "--bin", "attestation"]);
        },
        other => panic!("unexpected {:?}", other),
    }
    let steps = a.run(&t, &ctx(false, false, None)).unwrap();
    assert_eq!(steps.len(), 6);
    assert_eq!(launch(&steps).args[3], "-m");
}

#[test]
fn libfuzzer_run_writes_target_harness_and_sets_state_dir() {
    let l = FuzzerLibfuzzer::new(ok(), &cwd(), None, None).unwrap();
    let steps = l.run(&target("process_voluntary_exit", "rust"), &ctx(false, false, None)).unwrap();
    assert_eq!(steps.len(), 7);
    match &steps[4] {
        Step::Exec { command, must_succeed: false } => {
            assert_eq!(command.args, vec!["+nightly", "fuzz", "add", "process_voluntary_exit"]);
        },
        other => panic!("unexpected {:?}", other),
    }
    match &steps[5] {
        Step::WriteHarness { template, output } => {
            assert_eq!(template.display(), "/src/eth2fuzz/workspace/libfuzzer/libfuzzer_template.rs");
            assert_eq!(
                output.display(),
                "/src/eth2fuzz/workspace/libfuzzer/fuzz/fuzz_targets/process_voluntary_exit.rs"
            );
        },
        other => panic!("unexpected {:?}", other),
    }
    let cmd = launch(&steps);
    assert_eq!(
        cmd.args,
        vec![
            "+nightly",
            "fuzz",
            "run",
            "process_voluntary_exit",
            "/src/eth2fuzz/workspace/corpora/voluntary_exit",
        ]
    );
    assert_eq!(
        env_of(&cmd, "ETH2FUZZ_BEACONSTATE").unwrap(),
        "/src/eth2fuzz/workspace/corpora/beaconstate"
    );
    assert_eq!(cmd.current_dir.unwrap().display(), "/src/eth2fuzz/workspace/libfuzzer/fuzz");
    let rendered = eth2fuzz::render_template("fuzz_target!(|d| ###TARGET###(d));", "process_voluntary_exit");
    assert_eq!(rendered, "fuzz_target!(|d| process_voluntary_exit(d));");
}

#[test]
fn libfuzzer_timeout_sets_max_total_time() {
    let l = FuzzerLibfuzzer::new(ok(), &cwd(), Some(120), Some(2)).unwrap();
    let steps = l.run(&target("deposit", "rust"), &ctx(false, false, None)).unwrap();
    let cmd = launch(&steps);
    assert_eq!(cmd.args[5..].to_vec(), vec!["--", "-max_total_time=120"]);
    match &steps[2] {
        Step::RemoveTree(p) => assert_eq!(p.display(), "/src/eth2fuzz/workspace/libfuzzer/fuzz/fuzz_targets"),
        other => panic!("unexpected {:?}", other),
    }
}
