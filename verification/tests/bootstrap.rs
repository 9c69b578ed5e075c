use bootstrapper::config::{companion_command, plugin_set, Plugin};
use bootstrapper::machine::{next_action, step, Action, Event, Phase};
use bootstrapper::scope::{wildcard_grant, FsScope};

#[test]
fn companion_command_is_fixed() {
    let c = companion_command();
    assert_eq!(c.program, "node");
    assert_eq!(c.arg, "../../server/dist/index.js");
}

#[test]
fn plugin_set_is_exactly_three() {
    let ps = plugin_set();
    assert_eq!(ps, vec![Plugin::Process, Plugin::Opener, Plugin::Fs]);
}

#[test]
fn wildcard_grant_is_non_recursive() {
    let g = wildcard_grant();
    assert_eq!(g.path, "*");
    assert!(!g.recursive);
}

#[test]
fn successful_run_reaches_event_loop() {
    let mut p = Phase::Start;
    match next_action(p) {
        Some(Action::SpawnCompanion(c)) => {
            assert_eq!(c.program, "node");
            assert_eq!(c.arg, "../../server/dist/index.js");
        }
        _ => panic!("expected the companion spawn first"),
    }
    p = step(p, Event::SpawnSucceeded);
    assert_eq!(p, Phase::ProcessSpawned);
    match next_action(p) {
        Some(Action::InitRuntime(ps)) => {
            assert_eq!(ps, vec![Plugin::Process, Plugin::Opener, Plugin::Fs]);
        }
        _ => panic!("expected runtime initialization next"),
    }
    p = step(p, Event::RuntimeReady);
    assert_eq!(p, Phase::RuntimeInitialized);
    match next_action(p) {
        Some(Action::GrantScope(g)) => {
            assert_eq!(g.path, "*");
            assert!(!g.recursive);
        }
        _ => panic!("expected the scope grant next"),
    }
    p = step(p, Event::ScopeGranted);
    assert_eq!(p, Phase::ScopeConfigured);
    assert!(matches!(next_action(p), Some(Action::EnterEventLoop)));
    p = step(p, Event::LoopEntered);
    assert_eq!(p, Phase::EventLoopRunning);
    assert!(next_action(p).is_none());
}

#[test]
fn spawn_issued_exactly_once_per_run() {
    let events = [
        Event::SpawnSucceeded,
        Event::RuntimeReady,
        Event::ScopeGranted,
        Event::LoopEntered,
        Event::AppExited,
    ];
    let mut p = Phase::Start;
    let mut spawns: usize = 0;
    for e in events {
        if matches!(next_action(p), Some(Action::SpawnCompanion(_))) {
            spawns += 1;
        }
        p = step(p, e);
    }
    assert!(!matches!(next_action(p), Some(Action::SpawnCompanion(_))));
    assert_eq!(spawns, 1);
    assert_eq!(p, Phase::Exited);
}

#[test]
fn spawn_failure_aborts_without_retry() {
    let mut p = step(Phase::Start, Event::SpawnFailed);
    assert_eq!(p, Phase::AbortedAtStartup);
    assert!(matches!(next_action(p), Some(Action::Abort)));
    let later = [Event::SpawnSucceeded, Event::RuntimeReady, Event::AppExited];
    for e in later {
        p = step(p, e);
        assert_eq!(p, Phase::AbortedAtStartup);
        assert!(matches!(next_action(p), Some(Action::Abort)));
    }
}

#[test]
fn runtime_failure_aborts() {
    let p = step(Phase::ProcessSpawned, Event::RuntimeFailed);
    assert_eq!(p, Phase::AbortedAtStartup);
    assert!(matches!(next_action(p), Some(Action::Abort)));
}

#[test]
fn companion_not_supervised_after_spawn() {
    let mut p = step(Phase::Start, Event::SpawnSucceeded);
    let events = [
        Event::RuntimeReady,
        Event::ScopeGranted,
        Event::LoopEntered,
        Event::AppCrashed,
    ];
    for e in events {
        assert!(!matches!(next_action(p), Some(Action::SpawnCompanion(_))));
        p = step(p, e);
    }
    assert!(!matches!(next_action(p), Some(Action::SpawnCompanion(_))));
}

#[test]
fn event_loop_holds_until_external_termination() {
    let p = Phase::EventLoopRunning;
    assert!(next_action(p).is_none());
    let not_terminating = [
        Event::SpawnSucceeded,
        Event::SpawnFailed,
        Event::RuntimeReady,
        Event::RuntimeFailed,
        Event::ScopeGranted,
        Event::LoopEntered,
    ];
    for e in not_terminating {
        assert_eq!(step(p, e), Phase::EventLoopRunning);
    }
    assert_eq!(step(p, Event::AppExited), Phase::Exited);
    assert_eq!(step(p, Event::AppCrashed), Phase::Crashed);
}

#[test]
fn crash_in_event_loop_is_fatal() {
    let p = step(Phase::EventLoopRunning, Event::AppCrashed);
    assert_eq!(p, Phase::Crashed);
    assert!(matches!(next_action(p), Some(Action::Abort)));
}

#[test]
fn normal_exit_needs_no_action() {
    let p = step(Phase::EventLoopRunning, Event::AppExited);
    assert_eq!(p, Phase::Exited);
    assert!(next_action(p).is_none());
}

#[test]
fn unawaited_event_changes_nothing() {
    assert_eq!(
        step(Phase::RuntimeInitialized, Event::SpawnSucceeded),
        Phase::RuntimeInitialized
    );
    assert_eq!(step(Phase::ScopeConfigured, Event::AppExited), Phase::ScopeConfigured);
    assert_eq!(step(Phase::Start, Event::ScopeGranted), Phase::Start);
}

#[test]
fn wildcard_scope_allows_any_path() {
    let mut s = FsScope::new();
    let g = wildcard_grant();
    s.allow_directory(g.path, g.recursive);
    assert!(s.allows(&String::from("/")));
    assert!(s.allows(&String::from("/home/someone/documents")));
    assert!(s.allows(&String::from("../../server/dist/index.js")));
    assert!(s.allows(&String::from("")));
}

#[test]
fn empty_scope_allows_nothing() {
    let s = FsScope::new();
    assert!(!s.allows(&String::from("/")));
    assert!(!s.allows(&String::from("")));
}

#[test]
fn concrete_grant_covers_its_path_only() {
    let mut s = FsScope::new();
    s.allow_directory(String::from("/data"), false);
    assert!(s.allows(&String::from("/data")));
    assert!(!s.allows(&String::from("/data/sub")));
    assert!(!s.allows(&String::from("/")));
}

#[test]
fn wildcard_is_not_narrowed_by_later_grants() {
    let mut s = FsScope::new();
    s.allow_directory(String::from("*"), false);
    s.allow_directory(String::from("/data"), true);
    assert!(s.allows(&String::from("/somewhere/else")));
}
