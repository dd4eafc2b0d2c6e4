use parallel::{BuildError, OnError, Proc, ProcBuilder, ProcFailure, ProcFinished, ProcOutput, Wait};

fn exited(code: Option<i32>, stdout: &[u8]) -> ProcFinished {
    ProcFinished {
        res: Ok(ProcOutput { code, stdout: stdout.to_vec(), stderr: Vec::new() }),
    }
}

#[test]
fn smoke_eval() {
    let proc = Proc::new("echo hello world", true, "bash");
    assert_eq!(proc.shell(), "bash");
    assert_eq!(proc.shell_args(), vec![String::from("-c"), String::from("echo hello world")]);
}

#[test]
fn smoke_builder() {
    let pb = ProcBuilder::new()
        .command("echo hello world")
        .wait();
    let proc = pb.build().unwrap();
    assert_eq!(proc.shell(), String::from("bash"));
    assert_eq!(proc.shell_args(), vec![String::from("-c"), String::from("echo hello world")]);
}

#[test]
fn smoke_builder_shell() {
    let pb = ProcBuilder::new()
        .command("echo hello world")
        .wait()
        .shell("zsh");
    let proc = pb.build().unwrap();
    assert_eq!(proc.shell(), String::from("zsh"));
}

#[test]
fn smoke_finished_success() {
    let pb = ProcBuilder::new()
        .command("echo hello world")
        .wait()
        .shell("bash");
    let proc = pb.build().unwrap();
    assert_eq!(proc.command(), "echo hello world");
    let finished = exited(Some(0), b"hello world\n");
    finished.must_success();
}

#[test]
#[should_panic]
fn smoke_finished_failure() {
    let pb = ProcBuilder::new()
        .command("false")
        .wait()
        .shell("bash");
    let proc = pb.build().unwrap();
    assert_eq!(proc.command(), "false");
    let finished = exited(Some(1), b"");
    finished.check_success().unwrap();
}

#[test]
fn success_keeps_stdout() {
    let finished = exited(Some(0), b"Hello world\n");
    assert_eq!(finished.check_success(), Ok(()));
    let out = finished.res.as_ref().unwrap();
    assert!(out.success());
    assert_eq!(out.stdout.as_slice(), b"Hello world\n");
}

#[test]
fn non_zero_exit_is_reported() {
    let finished = exited(Some(2), b"");
    assert_eq!(finished.check_success(), Err(ProcFailure::Exit(Some(2))));
    assert!(!finished.res.as_ref().unwrap().success());
}

#[test]
fn signal_exit_is_reported() {
    let finished = exited(None, b"");
    assert_eq!(finished.check_success(), Err(ProcFailure::Exit(None)));
}

#[test]
fn launch_failure_is_reported() {
    let finished = ProcFinished { res: Err(String::from("No such file or directory")) };
    assert_eq!(
        finished.check_success(),
        Err(ProcFailure::Launch(String::from("No such file or directory")))
    );
}

#[test]
fn builder_without_command_fails() {
    assert_eq!(ProcBuilder::new().build().err(), Some(BuildError::MissingCommand));
    assert_eq!(ProcBuilder::new().wait().shell("zsh").build().err(), Some(BuildError::MissingCommand));
}

#[test]
fn builder_defaults() {
    let proc = ProcBuilder::new().command("ls").build().unwrap();
    assert_eq!(proc.command(), "ls");
    assert_eq!(proc.shell(), "bash");
    assert!(!proc.do_wait());
    let waited = ProcBuilder::new().command("ls").wait().build().unwrap();
    assert!(waited.do_wait());
}

#[test]
fn builder_last_setting_wins() {
    let proc = ProcBuilder::new().command("a").shell("sh").command("b").shell("zsh").build().unwrap();
    assert_eq!(proc.command(), "b");
    assert_eq!(proc.shell(), "zsh");
}

#[test]
fn wait_words() {
    assert_eq!(Wait::from_str("for-all"), Ok(Wait::ForAll));
    assert_eq!(Wait::from_str("all"), Ok(Wait::ForAll));
    assert_eq!(Wait::from_str("for-any"), Ok(Wait::ForAny));
    assert_eq!(Wait::from_str("any"), Ok(Wait::ForAny));
    assert_eq!(Wait::from_str("some"), Err(String::from("cannot convert from value")));
    assert_eq!(Wait::from_str(""), Err(String::from("cannot convert from value")));
}

#[test]
fn on_error_words() {
    for w in ["int", "interrupt", "break", "stop"] {
        assert_eq!(OnError::from_str(w), Ok(OnError::Interrupt));
    }
    assert_eq!(OnError::from_str("ignore"), Ok(OnError::Ignore));
    assert_eq!(OnError::from_str("Ignore"), Err(String::from("cannot convert from value")));
}
