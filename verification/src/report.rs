//! The outcome of a command: lines for stdout and stderr and an exit code.
use vstd::prelude::*;

use crate::strings::lines;

verus! {

/// What a command prints and the code it exits with.
pub struct CommandReport {
    pub stdout: Vec<String>,
    pub stderr: Vec<String>,
    pub exit_code: i32,
}

impl CommandReport {
    /// The stdout lines as character sequences.
    pub open spec fn out(self) -> Seq<Seq<char>> {
        lines(self.stdout@)
    }

    /// The stderr lines as character sequences.
    pub open spec fn err(self) -> Seq<Seq<char>> {
        lines(self.stderr@)
    }

    /// A successful report printing `stdout`.
    pub fn success(stdout: Vec<String>) -> (r: Self)
        ensures
            r.stdout@ == stdout@,
            r.stderr@.len() == 0,
            r.exit_code == 0,
    {
        CommandReport { stdout, stderr: Vec::new(), exit_code: 0 }
    }

    /// A successful report printing one line.
    pub fn success_one(line: String) -> (r: Self)
        ensures
            r.out() == seq![line@],
            r.stderr@.len() == 0,
            r.exit_code == 0,
    {
        let v = vec![line];
        assert(lines(v@) =~= seq![v@[0]@]);
        CommandReport { stdout: v, stderr: Vec::new(), exit_code: 0 }
    }

    /// A successful report that prints nothing.
    pub fn empty_success() -> (r: Self)
        ensures
            r.stdout@.len() == 0,
            r.stderr@.len() == 0,
            r.exit_code == 0,
    {
        CommandReport { stdout: Vec::new(), stderr: Vec::new(), exit_code: 0 }
    }

    /// A failed report printing `stderr`.
    pub fn failure(stderr: Vec<String>, exit_code: i32) -> (r: Self)
        ensures
            r.stdout@.len() == 0,
            r.stderr@ == stderr@,
            r.exit_code == exit_code,
    {
        CommandReport { stdout: Vec::new(), stderr, exit_code }
    }

    /// A failed report with exit code 1 and one error line.
    pub fn failure_one(line: String) -> (r: Self)
        ensures
            r.stdout@.len() == 0,
            r.err() == seq![line@],
            r.exit_code == 1,
    {
        let v = vec![line];
        assert(lines(v@) =~= seq![v@[0]@]);
        CommandReport { stdout: Vec::new(), stderr: v, exit_code: 1 }
    }
}

} // verus!
