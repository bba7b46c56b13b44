use eth2fuzz::{exec_outcome, probe_outcome, resolve_corpus, CorpusInput, FsPath, FuzzError, LaunchOutcome};

#[test]
fn exit_zero_is_ok() {
    assert!(exec_outcome(true, LaunchOutcome::Exited(Some(0)), "Afl++", "block").is_ok());
}

#[test]
fn exit_nonzero_is_fuzzer_quit() {
    for code in [Some(1), Some(-1), Some(255), None] {
        let r = exec_outcome(true, LaunchOutcome::Exited(code), "Afl++", "block");
        assert!(matches!(r, Err(FuzzError::FuzzerQuit)));
    }
}

#[test]
fn spawn_failure_is_spawn_error_not_quit() {
    match exec_outcome(true, LaunchOutcome::SpawnFailed, "Honggfuzz", "deposit") {
        Err(FuzzError::Spawn { engine, target }) => {
            assert_eq!(engine, "Honggfuzz");
            assert_eq!(target, "deposit");
        },
        other => panic!("unexpected {:?}", other),
    }
}

#[test]
fn wait_failure_is_wait_error() {
    match exec_outcome(true, LaunchOutcome::WaitFailed, "Afl++", "block") {
        Err(FuzzError::Wait { engine, target }) => {
            assert_eq!(engine, "Afl++");
            assert_eq!(target, "block");
        },
        other => panic!("unexpected {:?}", other),
    }
}

#[test]
fn tolerated_step_never_fails() {
    for o in [
        LaunchOutcome::SpawnFailed,
        LaunchOutcome::WaitFailed,
        LaunchOutcome::Exited(Some(101)),
        LaunchOutcome::Exited(None),
        LaunchOutcome::Exited(Some(0)),
    ] {
        assert!(exec_outcome(false, o, "Libfuzzer", "block").is_ok());
    }
}

#[test]
fn probe_failure_carries_hint() {
    assert!(probe_outcome(LaunchOutcome::Exited(Some(0)), "install it").is_ok());
    for o in [LaunchOutcome::SpawnFailed, LaunchOutcome::WaitFailed, LaunchOutcome::Exited(Some(2)), LaunchOutcome::Exited(None)] {
        match probe_outcome(o, "install it") {
            Err(FuzzError::Unavailable { hint }) => assert_eq!(hint, "install it"),
            other => panic!("unexpected {:?}", other),
        }
    }
}

fn corpora() -> FsPath {
    FsPath { parts: vec!["".to_string(), "corpora".to_string(), "block".to_string()] }
}

#[test]
fn nonempty_queue_resumes() {
    assert!(matches!(resolve_corpus(true, true, corpora()), CorpusInput::Resume));
}

#[test]
fn absent_or_empty_queue_seeds_from_corpus() {
    for (is_dir, has_entry) in [(true, false), (false, false), (false, true)] {
        match resolve_corpus(is_dir, has_entry, corpora()) {
            CorpusInput::Fresh(p) => assert_eq!(p.parts, corpora().parts),
            CorpusInput::Resume => panic!("resumed without a queue"),
        }
    }
}
