//! The environment of a container process.

use vstd::prelude::*;
use vstd::string::*;
use crate::container::spec::ProcessConfig;
use crate::text::{find, find_char};

verus! {

/// The name of a `NAME=VALUE` entry: the text before the first `=`.
pub open spec fn var_name(entry: Seq<char>) -> Seq<char> {
    entry.subrange(0, find(entry, '=', 0))
}

/// The value of a `NAME=VALUE` entry: all the text after the first `=`;
/// empty when the entry has no `=`.
pub open spec fn var_value(entry: Seq<char>) -> Seq<char> {
    let first = find(entry, '=', 0);
    if first >= entry.len() {
        Seq::empty()
    } else {
        entry.subrange(first + 1, entry.len() as int)
    }
}

/// The environment entries of a process: `env` when set, else none.
pub open spec fn process_env(process: Option<ProcessConfig>) -> Seq<String> {
    match process {
        Some(p) => match p.env {
            Some(env) => env@,
            None => Seq::empty(),
        },
        None => Seq::empty(),
    }
}

/// Environment variables, as name/value pairs in order.
#[derive(Debug)]
pub struct Environment {
    pub vars: Vec<(String, String)>,
}

/// Splits one `NAME=VALUE` entry.
fn split_var(entry: &str) -> (r: (String, String))
    ensures
        r.0@ == var_name(entry@),
        r.1@ == var_value(entry@),
{
    let n = entry.unicode_len();
    let first = find_char(entry, '=', 0);
    let name = entry.substring_char(0, first).to_string();
    if first >= n {
        return (name, String::new());
    }
    let value = entry.substring_char(first + 1, n).to_string();
    (name, value)
}

impl Environment {
    /// The environment of a process: each `NAME=VALUE` entry of its `env`,
    /// split at its first `=`, in order.
    pub fn from_process(process: &Option<ProcessConfig>) -> (r: Environment)
        ensures
            r.vars@.len() == process_env(*process).len(),
            forall|i: int|
                0 <= i < r.vars@.len() ==> #[trigger] r.vars@[i].0@ == var_name(process_env(*process)[i]@)
                    && r.vars@[i].1@ == var_value(process_env(*process)[i]@),
    {
        let mut vars: Vec<(String, String)> = Vec::new();
        match process {
            Some(p) => match &p.env {
                Some(env) => {
                    let mut i: usize = 0;
                    while i < env.len()
                        invariant
                            i <= env@.len(),
                            vars@.len() == i,
                            env@ == process_env(*process),
                            forall|j: int|
                                0 <= j < i ==> #[trigger] vars@[j].0@ == var_name(env@[j]@)
                                    && vars@[j].1@ == var_value(env@[j]@),
                        decreases env.len() - i,
                    {
                        vars.push(split_var(env[i].as_str()));
                        i = i + 1;
                    }
                },
                None => {},
            },
            None => {},
        }
        Environment { vars }
    }

    /// The variables, as borrowed name/value pairs.
    pub fn get(&self) -> (r: Vec<(&str, &str)>)
        ensures
            r@.len() == self.vars@.len(),
            forall|i: int|
                0 <= i < r@.len() ==> #[trigger] r@[i].0@ == self.vars@[i].0@ && r@[i].1@
                    == self.vars@[i].1@,
    {
        let mut r: Vec<(&str, &str)> = Vec::new();
        let mut i: usize = 0;
        while i < self.vars.len()
            invariant
                i <= self.vars@.len(),
                r@.len() == i,
                forall|j: int|
                    0 <= j < i ==> #[trigger] r@[j].0@ == self.vars@[j].0@ && r@[j].1@
                        == self.vars@[j].1@,
            decreases self.vars.len() - i,
        {
            r.push((self.vars[i].0.as_str(), self.vars[i].1.as_str()));
            i = i + 1;
        }
        r
    }
}

} // verus!
