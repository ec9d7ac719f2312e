use bounce::console::{command_line, command_output_count, command_output_line, CommandState, ConsoleState, MAX_CONSOLE_LINES};
use bounce::text::{is_on_battery, str_contains};

fn lines(c: &ConsoleState) -> Vec<String> {
    (0..c.line_count()).map(|i| c.line(i).clone()).collect()
}

#[test]
fn console_starts_cooling_down() {
    let c = ConsoleState::new();
    assert_eq!(lines(&c), vec!["Initializing console system...".to_string()]);
    assert_eq!(c.state(), CommandState::CoolDown);
    assert_eq!(c.command_index(), 0);
    assert_eq!(c.typed_len(), 0);
}

#[test]
fn cool_down_writes_lowercase_prompt_and_moves_on() {
    let mut c = ConsoleState::new();
    c.advance("alice", "MyHost");
    assert_eq!(c.state(), CommandState::Typing);
    assert_eq!(c.command_index(), 1);
    assert_eq!(c.typed_len(), 0);
    assert_eq!(lines(&c).last().unwrap(), "alice@myhost:~$ ");
}

#[test]
fn typing_then_executing_then_cooling_down() {
    let mut c = ConsoleState::new();
    c.advance("bob", "box");
    let cmd_len = command_line(1).len();
    for k in 1..cmd_len {
        c.advance("bob", "box");
        assert_eq!(c.state(), CommandState::Typing);
        assert_eq!(c.typed_len(), k);
    }
    c.advance("bob", "box");
    assert_eq!(c.state(), CommandState::Executing);
    assert_eq!(c.typed_len(), cmd_len);
    let outputs = command_output_count(1);
    for k in 0..outputs {
        c.advance("bob", "box");
        assert_eq!(c.state(), CommandState::Executing);
        assert_eq!(lines(&c).last().unwrap(), command_output_line(1, k));
    }
    let before = lines(&c);
    c.advance("bob", "box");
    assert_eq!(c.state(), CommandState::CoolDown);
    assert_eq!(lines(&c), before);
    c.advance("bob", "box");
    assert_eq!(c.command_index(), 2);
    assert_eq!(lines(&c).last().unwrap(), "bob@box:~$ ");
}

#[test]
fn commands_cycle_and_lines_stay_bounded() {
    let mut c = ConsoleState::new();
    let mut seen_wrap = false;
    for _ in 0..5000 {
        c.advance("carol", "Node");
        assert!(c.line_count() <= MAX_CONSOLE_LINES);
        assert!(c.command_index() < 5);
        assert!(c.typed_len() <= command_line(c.command_index()).len());
        if c.command_index() == 0 {
            seen_wrap = true;
        }
    }
    assert!(seen_wrap);
    assert_eq!(c.line_count(), MAX_CONSOLE_LINES);
}

#[test]
fn output_lines_of_last_command() {
    assert_eq!(command_output_count(4), 1);
    assert_eq!(command_output_line(4, 0), "trance:x:1001:1001:Windows Admin,,,:/home/trance:/bin/bash");
    assert_eq!(command_line(3), "git status");
}

#[test]
fn battery_detection() {
    assert!(is_on_battery("On Battery (80%)"));
    assert!(is_on_battery("Battery"));
    assert!(!is_on_battery("AC Power"));
    assert!(!is_on_battery("battery"));
    assert!(!is_on_battery(""));
}

#[test]
fn substring_search() {
    assert!(str_contains("abc$ def", "$ "));
    assert!(str_contains("abc", ""));
    assert!(!str_contains("ab", "abc"));
    assert!(str_contains("aab", "ab"));
}
