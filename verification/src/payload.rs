//! The supervisor's configuration: watched script, optional follow-up
//! script, starting directory, and the start mark of the run in flight.

use vstd::prelude::*;
use vstd::pervasive::unreached;
use crate::plan::{CommandSpec, RunPlan, ScriptPath, ShellKind, clone_dir, invocation_line, spec_invocation};

verus! {

/// A startup validation failure: the supervisor refuses to start watching.
#[derive(Clone, Copy, Debug, PartialEq, Eq, Structural)]
pub enum StartupError {
    /// The current directory could not be determined.
    NoCurrentDir,
    /// The watched script path does not exist.
    MissingFile,
    /// The follow-up script path does not exist.
    MissingThen,
}

/// Everything the supervisor carries from startup through each run: where it
/// started, which script it watches, the optional follow-up script, and when
/// the run in flight was started.
#[derive(Clone, Debug)]
pub struct Payload {
    /// The directory the supervisor was started from; every run's directory
    /// change begins there.
    pub initial_dir: Option<String>,
    /// The watched script.
    pub raw_file_path: Option<ScriptPath>,
    /// The follow-up script, chained after a successful run.
    pub raw_then_path: Option<ScriptPath>,
    /// When the run in flight was started, if one was.
    pub start_tick: Option<u64>,
}

/// The directory changes before a run: first the supervisor's starting
/// directory, then the script's own directory if it has one.
pub open spec fn cd_seq(initial: String, parent: Option<String>) -> Seq<String> {
    match parent {
        Some(p) => seq![initial, p],
        None => seq![initial],
    }
}

impl Payload {
    /// A payload the supervisor can run from: it knows where it started and
    /// what to watch, and every stored path is well formed.
    pub open spec fn runnable(self) -> bool {
        &&& self.initial_dir is Some
        &&& self.raw_file_path matches Some(p) && p.wf()
        &&& (self.raw_then_path matches Some(t) ==> t.wf())
    }

    /// Assemble a payload from already-parsed command-line values. No run is
    /// in flight yet.
    pub fn new(
        raw_file_path: Option<ScriptPath>,
        raw_then_path: Option<ScriptPath>,
        initial_dir: Option<String>,
    ) -> (p: Payload)
        ensures
            p.raw_file_path == raw_file_path,
            p.raw_then_path == raw_then_path,
            p.initial_dir == initial_dir,
            p.start_tick is None,
    {
        Payload { initial_dir, raw_file_path, raw_then_path, start_tick: None }
    }

    /// Which startup validation failure the payload exhibits, given whether
    /// each supplied path exists on disk. The current directory is checked
    /// first, then the watched script, then the follow-up script; the first
    /// failure wins.
    pub fn validate_paths(&self, file_exists: bool, then_exists: bool) -> (r: Result<
        (),
        StartupError,
    >)
        ensures
            self.initial_dir is None ==> r == Err::<(), StartupError>(StartupError::NoCurrentDir),
            self.initial_dir is Some && self.raw_file_path is Some && !file_exists ==> r == Err::<
                (),
                StartupError,
            >(StartupError::MissingFile),
            self.initial_dir is Some && (self.raw_file_path is None || file_exists)
                && self.raw_then_path is Some && !then_exists ==> r == Err::<(), StartupError>(
                StartupError::MissingThen,
            ),
            self.initial_dir is Some && (self.raw_file_path is None || file_exists) && (
            self.raw_then_path is None || then_exists) ==> r == Ok::<(), StartupError>(()),
    {
        if self.initial_dir.is_none() {
            Err(StartupError::NoCurrentDir)
        } else if self.raw_file_path.is_some() && !file_exists {
            Err(StartupError::MissingFile)
        } else if self.raw_then_path.is_some() && !then_exists {
            Err(StartupError::MissingThen)
        } else {
            Ok(())
        }
    }

    /// The directory changes for the watched script.
    pub open spec fn file_cd_seq(self) -> Seq<String> {
        cd_seq(self.initial_dir.unwrap(), self.raw_file_path.unwrap().parent)
    }

    /// The directory changes for the follow-up script.
    pub open spec fn then_cd_seq(self) -> Seq<String> {
        cd_seq(self.initial_dir.unwrap(), self.raw_then_path.unwrap().parent)
    }

    /// The directory changes to apply, in order, before running the watched
    /// script. The sequence is recomputed from the stored paths alone and
    /// always begins at the supervisor's starting directory, so the previous
    /// run's directory change cannot leak into it.
    pub fn file_cd(&self) -> (dirs: Vec<String>)
        requires
            self.initial_dir is Some,
            self.raw_file_path is Some,
        ensures
            dirs@ == self.file_cd_seq(),
    {
        match (&self.initial_dir, &self.raw_file_path) {
            (Some(initial), Some(p)) => {
                let mut dirs: Vec<String> = Vec::new();
                dirs.push(initial.clone());
                match &p.parent {
                    Some(dir) => dirs.push(dir.clone()),
                    None => {},
                }
                proof {
                    assert(dirs@ =~= self.file_cd_seq());
                }
                dirs
            },
            _ => unreached(),
        }
    }

    /// The directory changes to apply, in order, before running the
    /// follow-up script; computed like [`Payload::file_cd`].
    pub fn then_cd(&self) -> (dirs: Vec<String>)
        requires
            self.initial_dir is Some,
            self.raw_then_path is Some,
        ensures
            dirs@ == self.then_cd_seq(),
    {
        match (&self.initial_dir, &self.raw_then_path) {
            (Some(initial), Some(p)) => {
                let mut dirs: Vec<String> = Vec::new();
                dirs.push(initial.clone());
                match &p.parent {
                    Some(dir) => dirs.push(dir.clone()),
                    None => {},
                }
                proof {
                    assert(dirs@ =~= self.then_cd_seq());
                }
                dirs
            },
            _ => unreached(),
        }
    }

    /// The invocation line for the watched script: `./<name>`.
    pub fn file_command(&self) -> (r: String)
        requires
            self.raw_file_path is Some,
        ensures
            r@ == spec_invocation(self.raw_file_path.unwrap().name@),
    {
        match &self.raw_file_path {
            Some(p) => invocation_line(&p.name),
            None => unreached(),
        }
    }

    /// The command to run for the watched script: its invocation line,
    /// through `bash`, in the script's own directory.
    pub fn file_job(&self) -> (c: CommandSpec)
        requires
            self.raw_file_path is Some,
        ensures
            c.working_dir == self.raw_file_path.unwrap().parent,
            c.invocation@ == spec_invocation(self.raw_file_path.unwrap().name@),
            c.shell == ShellKind::Bash,
    {
        match &self.raw_file_path {
            Some(p) => CommandSpec {
                working_dir: clone_dir(&p.parent),
                invocation: invocation_line(&p.name),
                shell: ShellKind::Bash,
            },
            None => unreached(),
        }
    }

    /// The invocation line for the follow-up script, if one was supplied.
    pub fn then_command(&self) -> (r: Option<String>)
        ensures
            self.raw_then_path is Some ==> (r matches Some(s) && s@ == spec_invocation(
                self.raw_then_path.unwrap().name@,
            )),
            self.raw_then_path is None ==> r is None,
    {
        match &self.raw_then_path {
            Some(p) => Some(invocation_line(&p.name)),
            None => None,
        }
    }

    /// The command to run for the follow-up script, if one was supplied.
    pub fn then_job(&self) -> (c: Option<CommandSpec>)
        ensures
            self.raw_then_path is Some ==> (c matches Some(spec) && spec.working_dir
                == self.raw_then_path.unwrap().parent && spec.invocation@ == spec_invocation(
                self.raw_then_path.unwrap().name@,
            ) && spec.shell == ShellKind::Bash),
            self.raw_then_path is None ==> c is None,
    {
        match &self.raw_then_path {
            Some(p) => Some(
                CommandSpec {
                    working_dir: clone_dir(&p.parent),
                    invocation: invocation_line(&p.name),
                    shell: ShellKind::Bash,
                },
            ),
            None => None,
        }
    }

    /// The whole plan for one trigger: the watched script's command, plus the
    /// follow-up command when one was supplied.
    pub fn run_plan(&self) -> (r: RunPlan)
        requires
            self.raw_file_path is Some,
        ensures
            r.primary.working_dir == self.raw_file_path.unwrap().parent,
            r.primary.invocation@ == spec_invocation(self.raw_file_path.unwrap().name@),
            r.primary.shell == ShellKind::Bash,
            self.raw_then_path is Some ==> (r.chained matches Some(spec) && spec.working_dir
                == self.raw_then_path.unwrap().parent && spec.invocation@ == spec_invocation(
                self.raw_then_path.unwrap().name@,
            ) && spec.shell == ShellKind::Bash),
            self.raw_then_path is None ==> r.chained is None,
    {
        RunPlan { primary: self.file_job(), chained: self.then_job() }
    }

    /// Record the moment the run now starting was launched.
    pub fn mark_time(&mut self, now: u64)
        ensures
            final(self).start_tick == Some(now),
            final(self).initial_dir == old(self).initial_dir,
            final(self).raw_file_path == old(self).raw_file_path,
            final(self).raw_then_path == old(self).raw_then_path,
    {
        self.start_tick = Some(now);
    }

    /// The path to register with the filesystem watcher: the watched script,
    /// exactly as it was given.
    pub fn watch_path(&self) -> (r: String)
        requires
            self.raw_file_path is Some,
        ensures
            r == self.raw_file_path.unwrap().raw,
    {
        match &self.raw_file_path {
            Some(p) => p.raw.clone(),
            None => unreached(),
        }
    }
}

} // verus!
