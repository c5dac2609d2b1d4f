use pseudo_shell::prompt::{display_dir, prompt_line};
use pseudo_shell::terminal::{fullscreen_script, Effect, TerminalController, TerminalMode};

fn cv(s: &str) -> Vec<char> {
    s.chars().collect()
}

#[test]
fn fullscreen_script_is_one_bracketed_spawn() {
    let script = fullscreen_script(cv("htop"));
    assert_eq!(
        script,
        vec![Effect::Acquire, Effect::SpawnInherited(cv("htop")), Effect::Restore]
    );
}

#[test]
fn acquire_restore_returns_to_normal() {
    let mut ctrl = TerminalController::new();
    assert_eq!(ctrl.mode, TerminalMode::Normal);
    ctrl.acquire_interactive();
    assert_eq!(ctrl.mode, TerminalMode::Interactive);
    ctrl.restore_ui();
    assert_eq!(ctrl.mode, TerminalMode::Normal);
}

#[test]
fn home_directory_abbreviates_to_tilde() {
    let home = cv("/home/user");
    assert_eq!(display_dir(&cv("/home/user/src"), Some(&home)), cv("~/src"));
    assert_eq!(display_dir(&cv("/home/user"), Some(&home)), cv("~"));
}

#[test]
fn unrelated_directory_is_unchanged() {
    let home = cv("/home/user");
    assert_eq!(display_dir(&cv("/var/log"), Some(&home)), cv("/var/log"));
    assert_eq!(display_dir(&cv("/home/user2"), Some(&home)), cv("/home/user2"));
    assert_eq!(display_dir(&cv("/var/log"), None), cv("/var/log"));
}

#[test]
fn prompt_line_joins_directory_and_input() {
    assert_eq!(prompt_line(&cv("~/src"), &cv("ls")), cv("~/src > ls"));
    assert_eq!(prompt_line(&cv("/"), &cv("")), cv("/ > "));
}
