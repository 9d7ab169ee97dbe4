use ksh::outcome::{Action, Environment};
use ksh::prompt::{ksh_prompt, user_name};
use ksh::repl::{ksh_loop, ksh_read_line, LoopState};

fn env() -> Environment {
    Environment { cwd: Some("/home/alice".to_string()), user: Some("alice".to_string()) }
}

#[test]
fn the_loop_starts_running() {
    assert_eq!(LoopState::start(), LoopState::Running);
    assert!(LoopState::start().is_running());
    assert!(!LoopState::Terminated.is_running());
}

#[test]
fn only_the_terminal_status_ends_a_running_loop() {
    assert_eq!(LoopState::Running.after(0), LoopState::Terminated);
    assert_eq!(LoopState::Running.after(1), LoopState::Running);
    assert_eq!(LoopState::Running.after(-1), LoopState::Running);
    assert_eq!(LoopState::Running.after(2), LoopState::Running);
    assert_eq!(LoopState::Running.after(i32::MAX), LoopState::Running);
    assert_eq!(LoopState::Running.after(i32::MIN), LoopState::Running);
}

#[test]
fn a_loop_that_has_ended_stays_so() {
    assert_eq!(LoopState::Terminated.after(0), LoopState::Terminated);
    assert_eq!(LoopState::Terminated.after(1), LoopState::Terminated);
    assert_eq!(
        ksh_loop(LoopState::Terminated, Ok("ls\n".to_string()), &env()),
        (LoopState::Terminated, Action::Nothing)
    );
    assert_eq!(
        ksh_loop(LoopState::Terminated, Err("broken".to_string()), &env()),
        (LoopState::Terminated, Action::Nothing)
    );
}

#[test]
fn read_line_drops_the_white_space_at_the_end() {
    assert_eq!(ksh_read_line(Ok("ls -l\n".to_string())), Ok("ls -l".to_string()));
    assert_eq!(ksh_read_line(Ok("  ls -l \t\r\n".to_string())), Ok("  ls -l".to_string()));
    assert_eq!(ksh_read_line(Ok(String::new())), Ok(String::new()));
    assert_eq!(ksh_read_line(Ok("exit\u{a0}\n".to_string())), Ok("exit".to_string()));
}

#[test]
fn a_failed_read_gives_the_message_to_give_up_with() {
    assert_eq!(
        ksh_read_line(Err("stream did not contain valid UTF-8".to_string())),
        Err("ksh: read_line failed: stream did not contain valid UTF-8".to_string())
    );
}

#[test]
fn a_failed_read_ends_the_shell_at_once() {
    assert_eq!(
        ksh_loop(LoopState::Running, Err("Input/output error (os error 5)".to_string()), &env()),
        (
            LoopState::Terminated,
            Action::Abort {
                message: "ksh: read_line failed: Input/output error (os error 5)".to_string()
            }
        )
    );
}

#[test]
fn an_empty_line_is_passed_over_in_silence() {
    for line in ["", "\n", "   \t\n", "\r\n"] {
        assert_eq!(
            ksh_loop(LoopState::Running, Ok(line.to_string()), &env()),
            (LoopState::Running, Action::Nothing)
        );
    }
}

#[test]
fn the_end_of_the_input_is_an_empty_line() {
    assert_eq!(
        ksh_loop(LoopState::Running, Ok(String::new()), &env()),
        (LoopState::Running, Action::Nothing)
    );
}

#[test]
fn a_line_is_trimmed_before_it_is_split() {
    assert_eq!(
        ksh_loop(LoopState::Running, Ok("exit\u{a0}\u{3000}\n".to_string()), &env()),
        (LoopState::Terminated, Action::Nothing)
    );
    assert_eq!(
        ksh_loop(LoopState::Running, Ok("  exit  \n".to_string()), &env()),
        (LoopState::Terminated, Action::Nothing)
    );
}

#[test]
fn a_session_runs_until_exit() {
    let lines = ["\n", "ls\n", "cd /tmp\n", "make all\n", "exit\n", "ls\n"];
    let mut state = LoopState::start();
    let mut cycles = 0;
    for line in lines {
        if !state.is_running() {
            break;
        }
        let (next, _) = ksh_loop(state, Ok(line.to_string()), &env());
        state = next;
        cycles += 1;
    }
    assert_eq!(state, LoopState::Terminated);
    assert_eq!(cycles, 5);
}

#[test]
fn the_prompt_shows_user_and_directory() {
    assert_eq!(
        ksh_prompt(&env()),
        "\x1b[35malice\x1b[0m in \x1b[32m/home/alice\x1b[0m \x1b[33m\u{ce}\u{bb}\x1b[0m "
    );
}

#[test]
fn the_prompt_has_placeholders_for_what_is_unknown() {
    let env = Environment { cwd: None, user: None };
    assert_eq!(
        ksh_prompt(&env),
        "\x1b[35munknown\x1b[0m in \x1b[32munknown\x1b[0m \x1b[33m\u{ce}\u{bb}\x1b[0m "
    );
    assert_eq!(user_name(&env), "unknown");
}

#[test]
fn put_prompt_adds_to_what_is_there() {
    let mut out = String::from("> ");
    ksh::prompt::put_prompt(&mut out, "u", "/d", "$");
    assert_eq!(out, "> \x1b[35mu\x1b[0m in \x1b[32m/d\x1b[0m \x1b[33m$\x1b[0m ");
}
