use pseudo_shell::shell::{Action, App, Key};
use pseudo_shell::text::str_chars;

fn cv(s: &str) -> Vec<char> {
    s.chars().collect()
}

fn type_line(app: &mut App, line: &str) {
    for c in line.chars() {
        let a = app.on_key(Key::Char(c));
        assert_eq!(a, Action::Idle);
    }
}

#[test]
fn new_app_is_empty_with_default_commands() {
    let app = App::new();
    assert!(app.input.is_empty());
    assert!(app.output.is_empty());
    assert!(app.working_dir.is_empty());
    assert_eq!(
        app.fullscreen_commands,
        vec![cv("htop"), cv("vim"), cv("less"), cv("top")]
    );
}

#[test]
fn char_key_appends_to_input() {
    let mut app = App::new();
    type_line(&mut app, "ls");
    assert_eq!(app.input, cv("ls"));
    assert!(app.output.is_empty());
}

#[test]
fn backspace_drops_last_character() {
    let mut app = App::new();
    type_line(&mut app, "ab");
    let a = app.on_key(Key::Backspace);
    assert_eq!(a, Action::Idle);
    assert_eq!(app.input, cv("a"));
}

#[test]
fn backspace_on_empty_input_is_noop() {
    let mut app = App::new();
    let a = app.on_key(Key::Backspace);
    assert_eq!(a, Action::Idle);
    assert!(app.input.is_empty());
    assert!(app.output.is_empty());
}

#[test]
fn enter_on_empty_input_changes_nothing() {
    let mut app = App::new();
    app.apply_captured_result(&cv("x"), true, true, &b"kept".to_vec(), &Vec::new());
    let a = app.on_key(Key::Enter);
    assert_eq!(a, Action::Idle);
    assert_eq!(app.output, cv("kept"));
    assert!(app.input.is_empty());
}

#[test]
fn ctrl_c_requests_quit() {
    let mut app = App::new();
    type_line(&mut app, "x");
    let a = app.on_key(Key::CtrlC);
    assert_eq!(a, Action::Quit);
    assert_eq!(app.input, cv("x"));
}

#[test]
fn other_key_is_ignored() {
    let mut app = App::new();
    let a = app.on_key(Key::Other);
    assert_eq!(a, Action::Idle);
    assert!(app.input.is_empty());
}

#[test]
fn enter_dispatches_fullscreen_command() {
    let mut app = App::new();
    type_line(&mut app, "htop");
    let a = app.on_key(Key::Enter);
    assert_eq!(a, Action::RunFullscreen(cv("htop")));
    assert!(app.input.is_empty());
}

#[test]
fn enter_dispatches_cd() {
    let mut app = App::new();
    type_line(&mut app, "cd /tmp");
    let a = app.on_key(Key::Enter);
    assert_eq!(a, Action::ChangeDir(cv("/tmp")));
    assert!(app.input.is_empty());
}

#[test]
fn captured_success_shows_stdout() {
    let mut app = App::new();
    type_line(&mut app, "ls");
    let a = app.on_key(Key::Enter);
    assert_eq!(a, Action::RunCaptured(cv("ls")));
    assert!(app.input.is_empty());
    app.apply_captured_result(&cv("ls"), true, true, &b"a.txt\n".to_vec(), &b"ignored".to_vec());
    assert_eq!(app.output, cv("a.txt\n"));
}

#[test]
fn captured_failure_shows_stderr() {
    let mut app = App::new();
    app.apply_captured_result(
        &cv("ls /nope"),
        true,
        false,
        &b"ignored".to_vec(),
        &b"ls: cannot access '/nope'\n".to_vec(),
    );
    assert_eq!(app.output, cv("ls: cannot access '/nope'\n"));
}

#[test]
fn spawn_failure_names_the_command() {
    let mut app = App::new();
    app.apply_captured_result(&cv("frobnicate"), false, false, &Vec::new(), &Vec::new());
    assert_eq!(app.output, cv("Error: Command 'frobnicate' not found"));
}

#[test]
fn invalid_utf8_decodes_to_replacement_characters() {
    let mut app = App::new();
    app.apply_captured_result(&cv("x"), true, true, &vec![0xFF, 0xFE], &Vec::new());
    assert_eq!(app.output, cv("\u{FFFD}\u{FFFD}"));
}

#[test]
fn cd_success_updates_directory_and_keeps_output() {
    let mut app = App::new();
    app.apply_captured_result(&cv("x"), true, true, &b"kept".to_vec(), &Vec::new());
    app.apply_cd_result(&cv("/tmp"), true, &Vec::new());
    assert_eq!(app.working_dir, cv("/tmp"));
    assert_eq!(app.output, cv("kept"));
}

#[test]
fn cd_failure_keeps_directory_and_reports_error() {
    let mut app = App::new();
    app.set_working_dir(cv("/home/user"));
    app.apply_cd_result(&cv("/nope"), false, &cv("No such file or directory"));
    assert_eq!(app.working_dir, cv("/home/user"));
    assert_eq!(app.output, cv("Error changing directory: No such file or directory"));
    assert!(!app.output.is_empty());
}

#[test]
fn clear_resets_output_and_input() {
    let mut app = App::new();
    app.apply_captured_result(&cv("x"), true, true, &b"old output".to_vec(), &Vec::new());
    assert!(!app.output.is_empty());
    type_line(&mut app, "clear");
    let a = app.on_key(Key::Enter);
    assert_eq!(a, Action::Idle);
    assert!(app.output.is_empty());
    assert!(app.input.is_empty());
}

#[test]
fn str_chars_matches_literal() {
    assert_eq!(str_chars("abc"), cv("abc"));
    assert_eq!(str_chars(""), cv(""));
}
