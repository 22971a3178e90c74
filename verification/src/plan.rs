//! Run plans: what to execute for a trigger, and the path model behind it.
//!
//! A script path is held as the plain values the supervisor reads of it: the
//! path as given (what the watcher is pointed at), the directory that holds
//! the script, and the bare file name. Splitting a platform path into those
//! parts follows the platform's own rules and is done by the caller; the
//! supervisor never re-derives one part from another.

use vstd::prelude::*;
use vstd::string::StringExecFns;

verus! {

/// The shell a command line is handed to. The supervisor always runs its
/// scripts through `bash`.
#[derive(Clone, Copy, Debug, PartialEq, Eq, Structural)]
pub enum ShellKind {
    Bash,
}

/// A watched or chained script path, split into the parts the supervisor
/// uses.
#[derive(Clone, Debug)]
pub struct ScriptPath {
    /// The path exactly as it was given.
    pub raw: String,
    /// The directory holding the script, if the path has one.
    pub parent: Option<String>,
    /// The final path component: the script's file name.
    pub name: String,
}

impl ScriptPath {
    /// A script path is well formed when it ends in a non-empty file name.
    pub open spec fn wf(self) -> bool {
        self.name@.len() > 0
    }

    pub fn new(raw: String, parent: Option<String>, name: String) -> (p: ScriptPath)
        requires
            name@.len() > 0,
        ensures
            p.raw == raw,
            p.parent == parent,
            p.name == name,
            p.wf(),
    {
        ScriptPath { raw, parent, name }
    }
}

/// An immutable description of one command to execute: the directory it asks
/// to run in, the invocation line, and the shell to hand it to.
#[derive(Clone, Debug)]
pub struct CommandSpec {
    pub working_dir: Option<String>,
    pub invocation: String,
    pub shell: ShellKind,
}

/// What one trigger executes: the watched script, and the optional follow-up
/// chained after a successful run.
#[derive(Clone, Debug)]
pub struct RunPlan {
    pub primary: CommandSpec,
    pub chained: Option<CommandSpec>,
}

/// The invocation line for a script file name: `./` followed by the name.
pub open spec fn spec_invocation(name: Seq<char>) -> Seq<char> {
    seq!['.', '/'] + name
}

/// Copy an optional directory string.
pub(crate) fn clone_dir(dir: &Option<String>) -> (r: Option<String>)
    ensures
        r == *dir,
{
    match dir {
        Some(d) => Some(d.clone()),
        None => None,
    }
}

/// Build the invocation line `./<name>` for a script file name.
pub fn invocation_line(name: &String) -> (r: String)
    ensures
        r@ == spec_invocation(name@),
{
    let prefix = String::from_str("./");
    proof {
        reveal_strlit("./");
        assert(prefix@ =~= seq!['.', '/']);
    }
    prefix.concat(name.as_str())
}

} // verus!
