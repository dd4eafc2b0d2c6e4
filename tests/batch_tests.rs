use parallel::{plan_batch, Batch, ProcFinished, ProcOutput};

fn exited(code: i32, stdout: &str) -> ProcFinished {
    ProcFinished {
        res: Ok(ProcOutput { code: Some(code), stdout: stdout.as_bytes().to_vec(), stderr: Vec::new() }),
    }
}

fn stdout_of(f: &ProcFinished) -> &[u8] {
    f.res.as_ref().unwrap().stdout.as_slice()
}

#[test]
fn plan_batch_waits_in_default_shell() {
    let commands = vec![String::from("echo a"), String::from("false"), String::from("sleep 1")];
    let procs = plan_batch(&commands);
    assert_eq!(procs.len(), 3);
    for (p, c) in procs.iter().zip(commands.iter()) {
        assert_eq!(p.command(), c.as_str());
        assert!(p.do_wait());
        assert_eq!(p.shell(), "bash");
    }
}

#[test]
fn plan_batch_empty() {
    assert!(plan_batch(&Vec::new()).is_empty());
}

#[test]
fn batch_completes_in_any_order() {
    let mut batch = Batch::new(3);
    assert_eq!(batch.len(), 3);
    assert!(!batch.is_complete());
    assert!(batch.record(2, exited(0, "c")));
    assert!(batch.record(0, exited(1, "a")));
    assert!(!batch.is_complete());
    assert!(batch.record(1, exited(0, "b")));
    assert!(batch.is_complete());
    let results = batch.into_results().unwrap();
    assert_eq!(results.len(), 3);
    assert_eq!(stdout_of(&results[0]), b"a");
    assert_eq!(stdout_of(&results[1]), b"b");
    assert_eq!(stdout_of(&results[2]), b"c");
    assert!(results[0].check_success().is_err());
}

#[test]
fn batch_keeps_first_report_only() {
    let mut batch = Batch::new(1);
    assert!(batch.record(0, exited(0, "first")));
    assert!(!batch.record(0, exited(0, "second")));
    let results = batch.into_results().unwrap();
    assert_eq!(results.len(), 1);
    assert_eq!(stdout_of(&results[0]), b"first");
}

#[test]
fn batch_refuses_unknown_command() {
    let mut batch = Batch::new(2);
    assert!(!batch.record(2, exited(0, "x")));
    assert!(!batch.is_complete());
}

#[test]
fn batch_not_done_while_one_runs() {
    let mut batch = Batch::new(2);
    assert!(batch.record(1, exited(0, "b")));
    assert!(batch.into_results().is_none());
}

#[test]
fn empty_batch_is_complete() {
    let batch = Batch::new(0);
    assert!(batch.is_complete());
    assert!(batch.into_results().unwrap().is_empty());
}
