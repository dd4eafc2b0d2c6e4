use vstd::prelude::*;

verus! {

/// What a process that ran left behind. `code` is its exit code, or `None`
/// where it ended without one (killed by a signal).
#[derive(Debug)]
pub struct ProcOutput {
    pub code: Option<i32>,
    pub stdout: Vec<u8>,
    pub stderr: Vec<u8>,
}

/// The result of running one command: the output of the process, or the
/// reason why the shell could not be started.
#[derive(Debug)]
pub struct ProcFinished {
    pub res: Result<ProcOutput, String>,
}

/// Why a finished command does not count as a success.
#[derive(Debug, PartialEq, Eq)]
pub enum ProcFailure {
    /// The process ran and ended with a non-zero code, or with none.
    Exit(Option<i32>),
    /// The shell could not be started.
    Launch(String),
}

/// A process succeeded when it exited with code zero.
pub open spec fn exit_ok(code: Option<i32>) -> bool {
    code == Some(0i32)
}

impl ProcOutput {
    pub fn success(&self) -> (r: bool)
        ensures
            r == exit_ok(self.code),
    {
        match self.code {
            Some(c) => c == 0,
            None => false,
        }
    }
}

impl ProcFinished {
    /// The command was started and exited with code zero.
    pub open spec fn succeeded(&self) -> bool {
        match self.res {
            Ok(o) => exit_ok(o.code),
            Err(_) => false,
        }
    }

    /// Asserts that the command succeeded: it may only be called on an
    /// outcome that did.
    pub fn must_success(&self)
        requires
            self.succeeded(),
    {
    }

    /// Checks whether the command succeeded, and says why not where it did
    /// not.
    pub fn check_success(&self) -> (r: Result<(), ProcFailure>)
        ensures
            r is Ok <==> self.succeeded(),
            self.res is Ok && !self.succeeded() ==> r == Err::<(), ProcFailure>(
                ProcFailure::Exit(self.res->Ok_0.code),
            ),
            self.res is Err ==> r is Err && r->Err_0 is Launch && r->Err_0->Launch_0@
                == self.res->Err_0@,
    {
        match &self.res {
            Ok(o) => {
                if o.success() {
                    Ok(())
                } else {
                    Err(ProcFailure::Exit(o.code))
                }
            },
            Err(e) => Err(ProcFailure::Launch(e.clone())),
        }
    }
}

} // verus!
