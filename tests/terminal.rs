use fltk::event::{Event, Key};
use fltk::terminal::{CommandPlan, KeyOutcome, Term};

fn typed(t: &mut Term, s: &str) {
    for c in s.chars() {
        let text = c.to_string();
        let r = t.handle_key(Event::KeyDown, Key::Other(c as i32), &text);
        assert!(matches!(r, KeyOutcome::Typed));
    }
}

#[test]
fn new_terminal_shows_prompt() {
    let t = Term::new("/home/user");
    assert_eq!(t.prompt(), "/home/user$ ");
    assert_eq!(t.cmd(), "");
}

#[test]
fn change_dir_to_existing_directory() {
    let mut t = Term::new("/home");
    typed(&mut t, "cd /tmp");
    match t.plan_command() {
        CommandPlan::ChangeDir(p) => assert_eq!(p, "/tmp"),
        other => panic!("unexpected plan {:?}", other),
    }
    let msg = t.change_dir(Some("/tmp"));
    assert_eq!(msg, "");
    assert_eq!(t.prompt(), "/tmp$ ");
    assert!(t.prompt().ends_with("$ "));
}

#[test]
fn change_dir_to_missing_path() {
    let mut t = Term::new("/home");
    typed(&mut t, "cd /no/such/path");
    match t.plan_command() {
        CommandPlan::ChangeDir(p) => assert_eq!(p, "/no/such/path"),
        other => panic!("unexpected plan {:?}", other),
    }
    let msg = t.change_dir(None);
    assert_eq!(msg, "Path does not exist!\n");
    assert_eq!(t.prompt(), "/home$ ");
}

#[test]
fn echo_output_then_prompt() {
    let mut t = Term::new("/home");
    typed(&mut t, "echo hi");
    let plan = match t.handle_key(Event::KeyDown, Key::Enter, "\r") {
        KeyOutcome::Submit(p) => p,
        other => panic!("unexpected outcome {:?}", other),
    };
    match plan {
        CommandPlan::Spawn { program, args } => {
            assert_eq!(program, "echo");
            assert_eq!(args, vec!["hi".to_string()]);
        }
        other => panic!("unexpected plan {:?}", other),
    }
    let out = t.spawn_report(Some("hi\n".to_string()));
    assert_eq!(out, "hi\n");
    let tail = t.finish_command(&out);
    assert_eq!(tail, "hi\n/home$ ");
    assert_eq!(t.cmd(), "");
}

#[test]
fn backspace_on_empty_command_is_noop() {
    let mut t = Term::new("/home");
    let r = t.handle_key(Event::KeyDown, Key::BackSpace, "");
    assert!(matches!(r, KeyOutcome::Unhandled));
    assert_eq!(t.cmd(), "");
    assert_eq!(t.prompt(), "/home$ ");
    assert!(!t.backspace());
}

#[test]
fn backspace_removes_last_character() {
    let mut t = Term::new("/home");
    typed(&mut t, "lsé");
    let r = t.handle_key(Event::KeyDown, Key::BackSpace, "");
    assert!(matches!(r, KeyOutcome::Erased));
    assert_eq!(t.cmd(), "ls");
}

#[test]
fn other_events_are_not_consumed() {
    let mut t = Term::new("/home");
    typed(&mut t, "ls");
    let r = t.handle_key(Event::KeyUp, Key::Other(97), "a");
    assert!(matches!(r, KeyOutcome::Unhandled));
    assert_eq!(t.cmd(), "ls");
}

#[test]
fn blank_command_plans_nothing() {
    let mut t = Term::new("/home");
    assert!(matches!(t.plan_command(), CommandPlan::Nothing));
    typed(&mut t, "   ");
    assert!(matches!(t.plan_command(), CommandPlan::Nothing));
}

#[test]
fn words_split_on_any_whitespace() {
    let mut t = Term::new("/home");
    typed(&mut t, "  ls\t-l   /tmp ");
    match t.plan_command() {
        CommandPlan::Spawn { program, args } => {
            assert_eq!(program, "ls");
            assert_eq!(args, vec!["-l".to_string(), "/tmp".to_string()]);
        }
        other => panic!("unexpected plan {:?}", other),
    }
}

#[test]
fn bare_cd_is_spawned() {
    let mut t = Term::new("/home");
    typed(&mut t, "cd");
    match t.plan_command() {
        CommandPlan::Spawn { program, args } => {
            assert_eq!(program, "cd");
            assert!(args.is_empty());
        }
        other => panic!("unexpected plan {:?}", other),
    }
}

#[test]
fn failed_spawn_names_the_command() {
    let mut t = Term::new("/home");
    typed(&mut t, "nosuchprog -x");
    assert_eq!(t.spawn_report(None), "nosuchprog -x: command not found!\n");
}
