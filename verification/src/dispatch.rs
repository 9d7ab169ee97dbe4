//! Dispatch: a line's tokens go to the built-in command that the first of
//! them names, or else to the launcher.

use crate::built_in::{
    builtin_names, builtin_outcome, is_builtin, ksh_find_builtin, ksh_run_builtin,
};
use crate::launch::{ksh_launch, launch_outcome};
use crate::outcome::{
    proceed, Action, ActionView, Environment, EnvironmentView, Outcome, OutcomeView,
    KSH_CONTINUE, KSH_TERMINATE,
};
use vstd::prelude::*;
use vstd::string::*;

verus! {

/// What the shell does for the tokens `tokens` in the environment `env`:
/// nothing for an empty line; what the built-in command answers where the
/// first token names one; else what the launcher asks for.
pub open spec fn execute(tokens: Seq<Seq<char>>, env: EnvironmentView) -> OutcomeView {
    if tokens.len() == 0 {
        proceed()
    } else if is_builtin(tokens[0]) {
        builtin_outcome(tokens[0], tokens, env)
    } else {
        launch_outcome(tokens)
    }
}

/// An empty line is passed over in silence: the loop goes on, and nothing is
/// asked for.
pub proof fn lemma_empty_line_is_silent(env: EnvironmentView)
    ensures
        execute(Seq::empty(), env) == proceed(),
{
}

/// A built-in command goes before a program of the same name: where the
/// first token names a built-in command, its handler answers, and no program
/// is run.
pub proof fn lemma_builtin_wins(tokens: Seq<Seq<char>>, env: EnvironmentView)
    requires
        tokens.len() > 0,
        is_builtin(tokens[0]),
    ensures
        execute(tokens, env) == builtin_outcome(tokens[0], tokens, env),
        !(execute(tokens, env).action is Spawn),
{
}

/// A program is run exactly for a line that is not empty and whose first
/// token names no built-in command: the program is that token, its arguments
/// are the tokens behind it.
pub proof fn lemma_spawn_iff_external(tokens: Seq<Seq<char>>, env: EnvironmentView)
    ensures
        execute(tokens, env).action is Spawn <==> tokens.len() > 0 && !is_builtin(tokens[0]),
        execute(tokens, env).action is Spawn ==> execute(tokens, env).action
            == (ActionView::Spawn { program: tokens[0], args: tokens.drop_first() }),
{
}

/// The loop is asked to stop by `exit` and by nothing else.
pub proof fn lemma_only_exit_stops(tokens: Seq<Seq<char>>, env: EnvironmentView)
    ensures
        execute(tokens, env).status == KSH_TERMINATE <==> tokens.len() > 0 && tokens[0]
            == "exit"@,
        execute(tokens, env).status == KSH_TERMINATE || execute(tokens, env).status
            == KSH_CONTINUE,
{
    reveal_strlit("cd");
    reveal_strlit("help");
    reveal_strlit("exit");
    if tokens.len() > 0 && tokens[0] == "exit"@ {
        assert(builtin_names()[13] == "exit"@);
        assert("exit"@.len() != "cd"@.len());
        assert("exit"@[0] != "help"@[0]);
    }
}

/// Decides what is to be done for the tokens `args` of a line.
pub fn ksh_execute(args: Vec<String>, env: &Environment) -> (outcome: Outcome)
    ensures
        outcome@ == execute(args.deep_view(), env@),
{
    if args.len() == 0 {
        return Outcome { status: KSH_CONTINUE, action: Action::Nothing };
    }
    match ksh_find_builtin(args[0].as_str()) {
        Some(index) => ksh_run_builtin(index, args, env),
        None => ksh_launch(args),
    }
}

} // verus!
