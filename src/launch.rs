//! Which command starts a stored shortcut.

use vstd::prelude::*;

verus! {

/// A program to start and the arguments to hand it.
#[derive(Clone, Debug, PartialEq)]
pub struct LaunchCommand {
    pub program: String,
    pub args: Vec<String>,
}

/// The command that starts the shortcut `path` with `args`. Without
/// arguments a Windows host hands the path to `explorer`, which opens it the
/// way the desktop would; in every other case the path itself is run with
/// the arguments.
pub fn launch_command(path: String, args: Vec<String>, windows: bool) -> (c: LaunchCommand)
    ensures
        args@.len() == 0 && windows ==> c.program@ == "explorer"@ && c.args@.len() == 1
            && c.args@[0]@ == path@,
        !(args@.len() == 0 && windows) ==> c.program@ == path@ && c.args@ == args@,
{
    if args.len() == 0 && windows {
        let mut shell_args: Vec<String> = Vec::new();
        shell_args.push(path);
        LaunchCommand { program: "explorer".to_owned(), args: shell_args }
    } else {
        LaunchCommand { program: path, args }
    }
}

} // verus!
