use rcat::app::cmd::{exit_error, exit_result, launch_error, make_execution, stdout, Error, LaunchFailure};
use rcat::app::handler::{report, CAT_PROGRAM};

#[test]
fn execution_keeps_stdout() {
    assert_eq!(stdout(make_execution("hello\nworld\n".to_string())), "hello\nworld\n");
}

#[test]
fn launch_not_found_names_program() {
    let err = launch_error("no-such-program-xyz", LaunchFailure::NotFound);
    assert_eq!(
        err,
        Error::NoProg("No `no-such-program-xyz` program found on your machine".to_string())
    );
    match err {
        Error::NoProg(msg) => assert!(msg.contains("no-such-program-xyz")),
        _ => panic!("expected NoProg"),
    }
}

#[test]
fn launch_permission_denied_names_program() {
    let err = launch_error("secret", LaunchFailure::PermissionDenied);
    assert_eq!(err, Error::NoPerm("No permission to execute `secret`".to_string()));
}

#[test]
fn launch_other_keeps_os_text() {
    let err = launch_error("cat", LaunchFailure::Other("resource busy".to_string()));
    assert_eq!(err, Error::Other("resource busy".to_string()));
}

#[test]
fn exit_missing_file() {
    let text = "cat: /does/not/exist: No such file or directory\n";
    let err = exit_error(text.to_string());
    assert_eq!(err, Error::NoFile(text.to_string()));
}

#[test]
fn exit_permission_denied() {
    let text = "cat: /root/x: permission denied\n";
    assert_eq!(exit_error(text.to_string()), Error::NoPerm(text.to_string()));
}

#[test]
fn exit_missing_file_wins_over_permission() {
    let text = "a: permission denied\nb: No such file or directory\n";
    assert_eq!(exit_error(text.to_string()), Error::NoFile(text.to_string()));
}

#[test]
fn exit_match_is_case_sensitive() {
    let text = "cat: /root/x: Permission denied\n";
    assert_eq!(exit_error(text.to_string()), Error::Other(text.to_string()));
    let text = "no such file";
    assert_eq!(exit_error(text.to_string()), Error::Other(text.to_string()));
}

#[test]
fn exit_other_and_empty() {
    assert_eq!(exit_error("boom".to_string()), Error::Other("boom".to_string()));
    assert_eq!(exit_error(String::new()), Error::Other(String::new()));
    assert_eq!(exit_error("No such fil".to_string()), Error::Other("No such fil".to_string()));
}

#[test]
fn exit_pattern_at_end_and_non_ascii() {
    let text = "é: No such file";
    assert_eq!(exit_error(text.to_string()), Error::NoFile(text.to_string()));
}

#[test]
fn exit_result_success_gives_stdout() {
    let r = exit_result(true, "data".to_string(), "No such file".to_string());
    assert_eq!(r, Ok(make_execution("data".to_string())));
}

#[test]
fn exit_result_failure_gives_error() {
    let r = exit_result(false, "data".to_string(), "x: No such file or directory".to_string());
    assert_eq!(r, Err(Error::NoFile("x: No such file or directory".to_string())));
}

#[test]
fn report_flattens_each_variant() {
    assert_eq!(report(Ok(make_execution("out".to_string()))), "out");
    assert_eq!(report(Err(Error::NoProg("a".to_string()))), "a");
    assert_eq!(report(Err(Error::NoFile("b".to_string()))), "b");
    assert_eq!(report(Err(Error::NoPerm("c".to_string()))), "c");
    assert_eq!(report(Err(Error::Other("d".to_string()))), "d");
}

#[test]
fn cat_program_name() {
    assert_eq!(CAT_PROGRAM, "cat");
}
