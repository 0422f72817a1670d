//! How the backend is started: which entry point, which command line,
//! which working directory and environment.

use vstd::prelude::*;

verus! {

/// The backend's entry point.
#[derive(Debug, PartialEq, Eq)]
pub enum Entry {
    /// An executable script, started with the `mcp` argument.
    Script { path: String },
    /// A module, started through the interpreter with `-m`.
    Module { name: String },
}

/// The command that starts the backend.
#[derive(Debug, PartialEq, Eq)]
pub struct Launch {
    pub program: String,
    pub args: Vec<String>,
    /// The caller's own working directory, where the backend looks for
    /// the project's state.
    pub working_dir: String,
    /// Variables set for the backend on top of the inherited environment.
    pub env: Vec<(String, String)>,
}

/// The entry point, from what was found: an executable named by the
/// configuration (where it exists), one found on the search path (where the
/// lookup printed a non-empty path), the script in the backend's code root
/// (where it exists); failing all three, the backend's server module.
pub open spec fn chosen_entry(
    configured: Option<String>,
    on_path: Option<String>,
    bundled: Option<String>,
    r: Entry,
) -> bool {
    match (configured, on_path, bundled) {
        (Some(p), _, _) => r == Entry::Script { path: p },
        (None, Some(p), _) if p@.len() > 0 => r == Entry::Script { path: p },
        (None, _, Some(p)) => r == Entry::Script { path: p },
        _ => r matches Entry::Module { name } && name@ == "core.desktop.devtools.interface.mcp_server"@,
    }
}

/// Chooses the backend's entry point from what was found on the machine.
pub fn locate_entry(configured: Option<String>, on_path: Option<String>, bundled: Option<String>) -> (r: Entry)
    ensures
        chosen_entry(configured, on_path, bundled, r),
{
    if let Some(p) = configured {
        return Entry::Script { path: p };
    }
    if let Some(p) = on_path {
        if p.unicode_len() > 0 {
            return Entry::Script { path: p };
        }
    }
    match bundled {
        Some(p) => Entry::Script { path: p },
        None => Entry::Module { name: String::from_str("core.desktop.devtools.interface.mcp_server") },
    }
}

/// The interpreter: the first one configured, else `python3`.
pub fn interpreter(configured: Option<String>, alternative: Option<String>) -> (r: String)
    ensures
        match (configured, alternative) {
            (Some(p), _) => r == p,
            (None, Some(p)) => r == p,
            (None, None) => r@ == "python3"@,
        },
{
    match configured {
        Some(p) => p,
        None => match alternative {
            Some(p) => p,
            None => String::from_str("python3"),
        },
    }
}

/// The command for `entry`: a script runs directly with `mcp`, a module
/// through `interpreter -m`. The backend runs in `working_dir`, with its
/// code root on its module search path.
pub fn launch_plan(interpreter: String, entry: Entry, code_root: String, working_dir: String) -> (r: Launch)
    ensures
        match entry {
            Entry::Script { path } => {
                &&& r.program == path
                &&& r.args@.len() == 1
                &&& r.args@[0]@ == "mcp"@
            },
            Entry::Module { name } => {
                &&& r.program == interpreter
                &&& r.args@.len() == 2
                &&& r.args@[0]@ == "-m"@
                &&& r.args@[1] == name
            },
        },
        r.working_dir == working_dir,
        r.env@.len() == 1,
        r.env@[0].0@ == "PYTHONPATH"@,
        r.env@[0].1 == code_root,
{
    let mut args: Vec<String> = Vec::new();
    let program = match entry {
        Entry::Script { path } => {
            args.push(String::from_str("mcp"));
            path
        },
        Entry::Module { name } => {
            args.push(String::from_str("-m"));
            args.push(name);
            interpreter
        },
    };
    let mut env: Vec<(String, String)> = Vec::new();
    env.push((String::from_str("PYTHONPATH"), code_root));
    Launch { program, args, working_dir, env }
}

} // verus!
