use vstd::prelude::*;

verus! {

/// What a `Proc` describes: the command text, whether to wait for it, and
/// the shell that runs it.
pub struct ProcSpec {
    pub command: Seq<char>,
    pub do_wait: bool,
    pub shell: Seq<char>,
}

/// The shell used when none is given.
pub open spec fn default_shell() -> Seq<char> {
    "bash"@
}

/// A shell command to run. It does not change once built.
pub struct Proc {
    command: String,
    do_wait: bool,
    shell: String,
}

impl View for Proc {
    type V = ProcSpec;

    closed spec fn view(&self) -> ProcSpec {
        ProcSpec { command: self.command@, do_wait: self.do_wait, shell: self.shell@ }
    }
}

fn owned(s: &str) -> (r: String)
    ensures
        r@ == s@,
{
    s.to_owned()
}

impl Proc {
    pub fn new(command: &str, do_wait: bool, shell: &str) -> (r: Proc)
        ensures
            r@ == (ProcSpec { command: command@, do_wait: do_wait, shell: shell@ }),
    {
        Proc { command: owned(command), do_wait, shell: owned(shell) }
    }

    pub fn command(&self) -> (r: &str)
        ensures
            r@ == self@.command,
    {
        self.command.as_str()
    }

    pub fn do_wait(&self) -> (r: bool)
        ensures
            r == self@.do_wait,
    {
        self.do_wait
    }

    pub fn shell(&self) -> (r: &str)
        ensures
            r@ == self@.shell,
    {
        self.shell.as_str()
    }

    /// The arguments handed to the shell: `-c` and the command text.
    pub fn shell_args(&self) -> (r: Vec<String>)
        ensures
            r@.len() == 2,
            r@[0]@ == "-c"@,
            r@[1]@ == self@.command,
    {
        let mut args: Vec<String> = Vec::new();
        args.push(String::from_str("-c"));
        args.push(self.command.clone());
        args
    }
}

/// What the builder has gathered so far; `None` where a field was not set.
pub struct ProcBuilderSpec {
    pub command: Option<Seq<char>>,
    pub do_wait: Option<bool>,
    pub shell: Option<Seq<char>>,
}

/// Gathers the fields of a `Proc`. The command text is required; the shell
/// defaults to `bash` and waiting to off.
pub struct ProcBuilder {
    command: Option<String>,
    do_wait: Option<bool>,
    shell: Option<String>,
}

/// The text that an optional string holds, if any.
pub open spec fn opt_view(o: Option<String>) -> Option<Seq<char>> {
    match o {
        Some(s) => Some(s@),
        None => None,
    }
}

impl View for ProcBuilder {
    type V = ProcBuilderSpec;

    closed spec fn view(&self) -> ProcBuilderSpec {
        ProcBuilderSpec {
            command: opt_view(self.command),
            do_wait: self.do_wait,
            shell: opt_view(self.shell),
        }
    }
}

/// Why a builder could not make a `Proc`.
#[derive(Debug, PartialEq, Eq, Structural, Clone, Copy)]
pub enum BuildError {
    MissingCommand,
}

/// The `Proc` that a builder in the given state makes, if any.
pub open spec fn built(b: ProcBuilderSpec) -> Option<ProcSpec> {
    match b.command {
        Some(c) => Some(
            ProcSpec {
                command: c,
                do_wait: match b.do_wait {
                    Some(w) => w,
                    None => false,
                },
                shell: match b.shell {
                    Some(s) => s,
                    None => default_shell(),
                },
            },
        ),
        None => None,
    }
}

impl ProcBuilder {
    pub fn new() -> (r: ProcBuilder)
        ensures
            r@ == (ProcBuilderSpec { command: None, do_wait: None, shell: None }),
    {
        ProcBuilder { command: None, do_wait: None, shell: None }
    }

    pub fn command(self, command: &str) -> (r: ProcBuilder)
        ensures
            r@ == (ProcBuilderSpec { command: Some(command@), ..self@ }),
    {
        ProcBuilder { command: Some(owned(command)), ..self }
    }

    pub fn wait(self) -> (r: ProcBuilder)
        ensures
            r@ == (ProcBuilderSpec { do_wait: Some(true), ..self@ }),
    {
        ProcBuilder { do_wait: Some(true), ..self }
    }

    pub fn shell(self, shell: &str) -> (r: ProcBuilder)
        ensures
            r@ == (ProcBuilderSpec { shell: Some(shell@), ..self@ }),
    {
        ProcBuilder { shell: Some(owned(shell)), ..self }
    }

    /// Makes the `Proc`; fails when no command text was given.
    pub fn build(self) -> (r: Result<Proc, BuildError>)
        ensures
            match built(self@) {
                Some(p) => r is Ok && r->Ok_0@ == p,
                None => r == Err::<Proc, BuildError>(BuildError::MissingCommand),
            },
    {
        match self.command {
            Some(c) => {
                let shell = match self.shell {
                    Some(s) => s,
                    None => String::from_str("bash"),
                };
                let do_wait = match self.do_wait {
                    Some(w) => w,
                    None => false,
                };
                Ok(Proc { command: c, do_wait, shell })
            },
            None => Err(BuildError::MissingCommand),
        }
    }
}

} // verus!
