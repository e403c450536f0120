//! The program a container runs and its arguments.

use vstd::prelude::*;
use vstd::string::*;
use crate::container::spec::ProcessConfig;

verus! {

/// The arguments a process runs: `args` of its process when set, else none.
pub open spec fn process_args(process: Option<ProcessConfig>) -> Seq<String> {
    match process {
        Some(p) => match p.args {
            Some(args) => args@,
            None => Seq::empty(),
        },
        None => Seq::empty(),
    }
}

/// A program and its arguments.
#[derive(Debug)]
pub struct Command {
    /// The program.
    pub arg0: String,
    /// Its arguments, after the program.
    pub args: Vec<String>,
}

impl Command {
    /// The command of a process: its first argument is the program and the
    /// rest its arguments; without arguments it runs `sh`.
    pub fn from_process(process: &Option<ProcessConfig>) -> (r: Command)
        ensures
            process_args(*process).len() > 0 ==> r.arg0 == process_args(*process)[0]
                && r.args@ == process_args(*process).subrange(1, process_args(*process).len() as int),
            process_args(*process).len() == 0 ==> r.arg0@ == "sh"@ && r.args@.len() == 0,
    {
        let mut command = Command::default();
        match process {
            Some(p) => match &p.args {
                Some(arguments) => {
                    if arguments.len() > 0 {
                        let mut args: Vec<String> = Vec::new();
                        let mut i: usize = 1;
                        while i < arguments.len()
                            invariant
                                1 <= i <= arguments@.len(),
                                args@ == arguments@.subrange(1, i as int),
                            decreases arguments.len() - i,
                        {
                            args.push(arguments[i].clone());
                            assert(args@ =~= arguments@.subrange(1, i + 1));
                            i = i + 1;
                        }
                        command = Command { arg0: arguments[0].clone(), args };
                    }
                },
                None => {},
            },
            None => {},
        }
        command
    }
}

impl Default for Command {
    /// `sh`, without arguments.
    fn default() -> (r: Command)
        ensures
            r.arg0@ == "sh"@,
            r.args@.len() == 0,
    {
        Command { arg0: String::from_str("sh"), args: Vec::new() }
    }
}

} // verus!
