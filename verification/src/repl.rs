//! The read-eval loop as a state machine: one cycle takes what was read and
//! gives the next state and the action that the cycle asks for.

use crate::dispatch::{execute, ksh_execute, lemma_only_exit_stops};
use crate::outcome::{Action, ActionView, Environment, EnvironmentView, KSH_TERMINATE};
use crate::text::{lemma_trimmed, trim_end, trimmed};
use crate::tokenizer::{
    is_blank, is_delimiter, ksh_split_line, lemma_no_tokens_iff_blank, tokens,
};
use vstd::prelude::*;
use vstd::string::*;

verus! {

/// The state of the loop.
#[derive(Debug, Clone, Copy, PartialEq, Eq, Structural)]
pub enum LoopState {
    /// The loop reads and runs commands.
    Running,
    /// The loop has ended, and stays so.
    Terminated,
}

/// The state that follows `state` when a command has handed back `status`:
/// a running loop ends on the status that asks for it and on no other, and a
/// loop that has ended stays so.
pub open spec fn next_state(state: LoopState, status: int) -> LoopState {
    match state {
        LoopState::Running => if status == KSH_TERMINATE {
            LoopState::Terminated
        } else {
            LoopState::Running
        },
        LoopState::Terminated => LoopState::Terminated,
    }
}

/// What was read, as texts: the line, or the reason why none could be read.
pub open spec fn read_view(read: Result<String, String>) -> Result<Seq<char>, Seq<char>> {
    match read {
        Ok(buffer) => Ok(buffer@),
        Err(error) => Err(error@),
    }
}

/// The line to work on: what was read without the white space at its end,
/// or, where reading failed, the message that says so.
pub open spec fn line_read(read: Result<Seq<char>, Seq<char>>) -> Result<Seq<char>, Seq<char>> {
    match read {
        Ok(buffer) => Ok(trimmed(buffer)),
        Err(error) => Err("ksh: read_line failed: "@ + error),
    }
}

/// One cycle of the loop. A loop that has ended does nothing. A running loop
/// that could not read gives up at once. Else the line is split into tokens,
/// the command is carried out, and its status decides whether the loop goes
/// on.
pub open spec fn cycle(
    state: LoopState,
    read: Result<Seq<char>, Seq<char>>,
    env: EnvironmentView,
) -> (LoopState, ActionView) {
    match state {
        LoopState::Terminated => (LoopState::Terminated, ActionView::Nothing),
        LoopState::Running => match line_read(read) {
            Ok(line) => {
                let outcome = execute(tokens(line), env);
                (next_state(LoopState::Running, outcome.status), outcome.action)
            },
            Err(message) => (LoopState::Terminated, ActionView::Abort { message }),
        },
    }
}

/// A loop that has ended stays so, whatever is read, and asks for nothing.
pub proof fn lemma_terminated_stays(read: Result<Seq<char>, Seq<char>>, env: EnvironmentView)
    ensures
        cycle(LoopState::Terminated, read, env) == (LoopState::Terminated, ActionView::Nothing),
        forall|status: int| next_state(LoopState::Terminated, status) == LoopState::Terminated,
{
}

/// A running loop passes over a line of delimiters in silence: it goes on,
/// and nothing is asked for.
pub proof fn lemma_blank_line_is_silent(buffer: Seq<char>, env: EnvironmentView)
    requires
        is_blank(buffer),
    ensures
        cycle(LoopState::Running, Ok(buffer), env) == (LoopState::Running, ActionView::Nothing),
{
    let line = trimmed(buffer);
    lemma_trimmed(buffer);
    assert forall|k: int| 0 <= k < line.len() implies is_delimiter(#[trigger] line[k]) by {
        assert(line[k] == buffer[k]);
    }
    lemma_no_tokens_iff_blank(line);
}

/// A running loop ends after a line if and only if the first token of the
/// line is `exit`.
pub proof fn lemma_line_ends_loop_iff_exit(buffer: Seq<char>, env: EnvironmentView)
    ensures
        cycle(LoopState::Running, Ok(buffer), env).0 == LoopState::Terminated <==> tokens(
            trimmed(buffer),
        ).len() > 0 && tokens(trimmed(buffer))[0] == "exit"@,
{
    lemma_only_exit_stops(tokens(trimmed(buffer)), env);
}

impl LoopState {
    /// The state in which the loop starts.
    pub fn start() -> (state: LoopState)
        ensures
            state == LoopState::Running,
    {
        LoopState::Running
    }

    /// Whether the loop goes on.
    pub fn is_running(self) -> (running: bool)
        ensures
            running == (self == LoopState::Running),
    {
        match self {
            LoopState::Running => true,
            LoopState::Terminated => false,
        }
    }

    /// The state that follows when a command has handed back `status`.
    pub fn after(self, status: i32) -> (state: LoopState)
        ensures
            state == next_state(self, status as int),
    {
        match self {
            LoopState::Running => if status == KSH_TERMINATE {
                LoopState::Terminated
            } else {
                LoopState::Running
            },
            LoopState::Terminated => LoopState::Terminated,
        }
    }
}

/// Takes what was read from the input stream and gives the line to work on,
/// or the message with which the shell gives up.
pub fn ksh_read_line(read: Result<String, String>) -> (line: Result<String, String>)
    ensures
        read_view(line) == line_read(read_view(read)),
{
    match read {
        Ok(buffer) => Ok(trim_end(buffer.as_str())),
        Err(error) => {
            let mut message = String::from_str("ksh: read_line failed: ");
            message.append(error.as_str());
            Err(message)
        },
    }
}

/// Runs one cycle of the loop on what was read in the environment `env`:
/// gives the state after it and the action that it asks for.
pub fn ksh_loop(state: LoopState, read: Result<String, String>, env: &Environment) -> (next: (
    LoopState,
    Action,
))
    ensures
        (next.0, next.1@) == cycle(state, read_view(read), env@),
{
    if !state.is_running() {
        return (LoopState::Terminated, Action::Nothing);
    }
    match ksh_read_line(read) {
        Ok(line) => {
            let args = ksh_split_line(line.as_str());
            let outcome = ksh_execute(args, env);
            (state.after(outcome.status), outcome.action)
        },
        Err(message) => (LoopState::Terminated, Action::Abort { message }),
    }
}

} // verus!
