use watchrun::payload::{Payload, StartupError};
use watchrun::plan::{ScriptPath, ShellKind};
use watchrun::supervisor::RunnerV2;

fn path(raw: &str, parent: Option<&str>, name: &str) -> ScriptPath {
    ScriptPath::new(
        raw.to_string(),
        parent.map(|p| p.to_string()),
        name.to_string(),
    )
}

fn payload_with(follow: Option<ScriptPath>) -> Payload {
    Payload::new(
        Some(path("proj/build.sh", Some("proj"), "build.sh")),
        follow,
        Some("/home/me".to_string()),
    )
}

#[test]
fn new_payload_holds_given_values() {
    let p = payload_with(None);
    assert_eq!(p.initial_dir.as_deref(), Some("/home/me"));
    assert_eq!(p.raw_file_path.as_ref().unwrap().raw, "proj/build.sh");
    assert!(p.raw_then_path.is_none());
    assert_eq!(p.start_tick, None);
}

#[test]
fn file_command_prefixes_the_name() {
    let p = payload_with(None);
    assert_eq!(p.file_command(), "./build.sh");
}

#[test]
fn watch_path_returns_the_raw_path() {
    let p = payload_with(None);
    assert_eq!(p.watch_path(), "proj/build.sh");
}

#[test]
fn mark_time_records_the_moment() {
    let mut p = payload_with(None);
    p.mark_time(1234);
    assert_eq!(p.start_tick, Some(1234));
    assert_eq!(p.raw_file_path.as_ref().unwrap().name, "build.sh");
}

#[test]
fn file_cd_returns_initial_then_parent() {
    let p = payload_with(None);
    assert_eq!(p.file_cd(), vec!["/home/me".to_string(), "proj".to_string()]);
}

#[test]
fn file_cd_without_parent_returns_initial_only() {
    let p = Payload::new(
        Some(path("build.sh", None, "build.sh")),
        None,
        Some("/home/me".to_string()),
    );
    assert_eq!(p.file_cd(), vec!["/home/me".to_string()]);
}

#[test]
fn then_cd_uses_the_follow_up_parent() {
    let p = payload_with(Some(path("after/b.sh", Some("after"), "b.sh")));
    assert_eq!(p.then_cd(), vec!["/home/me".to_string(), "after".to_string()]);
}

#[test]
fn file_job_describes_the_primary_command() {
    let p = payload_with(None);
    let c = p.file_job();
    assert_eq!(c.working_dir.as_deref(), Some("proj"));
    assert_eq!(c.invocation, "./build.sh");
    assert_eq!(c.shell, ShellKind::Bash);
}

#[test]
fn then_command_present_when_configured() {
    let p = payload_with(Some(path("b.sh", None, "b.sh")));
    assert_eq!(p.then_command(), Some("./b.sh".to_string()));
}

#[test]
fn then_command_absent_when_not_configured() {
    let p = payload_with(None);
    assert_eq!(p.then_command(), None);
}

#[test]
fn then_job_mirrors_the_follow_up() {
    let p = payload_with(Some(path("after/b.sh", Some("after"), "b.sh")));
    let c = p.then_job().expect("a follow-up was configured");
    assert_eq!(c.working_dir.as_deref(), Some("after"));
    assert_eq!(c.invocation, "./b.sh");
    assert_eq!(c.shell, ShellKind::Bash);
    assert!(payload_with(None).then_job().is_none());
}

#[test]
fn run_plan_holds_primary_and_chained() {
    let p = payload_with(Some(path("b.sh", None, "b.sh")));
    let plan = p.run_plan();
    assert_eq!(plan.primary.invocation, "./build.sh");
    assert_eq!(plan.chained.expect("chained command").invocation, "./b.sh");
    let bare = payload_with(None).run_plan();
    assert!(bare.chained.is_none());
}

#[test]
fn validation_rejects_missing_current_dir() {
    let p = Payload::new(Some(path("a.sh", None, "a.sh")), None, None);
    assert_eq!(p.validate_paths(true, true), Err(StartupError::NoCurrentDir));
}

#[test]
fn validation_rejects_missing_watch_target() {
    let p = payload_with(None);
    assert_eq!(p.validate_paths(false, true), Err(StartupError::MissingFile));
}

#[test]
fn validation_rejects_missing_follow_up() {
    let p = payload_with(Some(path("b.sh", None, "b.sh")));
    assert_eq!(p.validate_paths(true, false), Err(StartupError::MissingThen));
}

#[test]
fn validation_accepts_existing_paths() {
    let p = payload_with(Some(path("b.sh", None, "b.sh")));
    assert_eq!(p.validate_paths(true, true), Ok(()));
}

#[test]
fn runner_starts_idle() {
    let runner = RunnerV2::new(payload_with(None));
    assert_eq!(runner.current, None);
    assert_eq!(runner.pending_then, None);
    assert_eq!(runner.next_job_id, 0);
    assert!(!runner.shutdown);
}

#[test]
fn script_path_keeps_its_parts() {
    let s = path("dir/x.sh", Some("dir"), "x.sh");
    assert_eq!(s.raw, "dir/x.sh");
    assert_eq!(s.parent.as_deref(), Some("dir"));
    assert_eq!(s.name, "x.sh");
}
