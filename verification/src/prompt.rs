//! The prompt that opens every cycle of the loop.

use crate::outcome::{Environment, EnvironmentView};
use vstd::prelude::*;
use vstd::string::*;

verus! {

/// The sign that ends the prompt.
pub const PROMPT_SIGN: &'static str = "\u{ce}\u{bb}";

/// The name that stands for a user whose name is not set.
pub const UNKNOWN_USER: &'static str = "unknown";

/// The text that stands for a working directory that cannot be found out.
pub const UNKNOWN_DIR: &'static str = "unknown";

/// A prompt: the user in magenta, the directory in green, the sign in
/// yellow, and a space.
pub open spec fn prompt(user: Seq<char>, dir: Seq<char>, sign: Seq<char>) -> Seq<char> {
    "\x1b[35m"@ + user + "\x1b[0m in \x1b[32m"@ + dir + "\x1b[0m \x1b[33m"@ + sign
        + "\x1b[0m "@
}

/// The user's name as the shell shows it.
pub open spec fn user_shown(env: EnvironmentView) -> Seq<char> {
    match env.user {
        Some(name) => name,
        None => UNKNOWN_USER@,
    }
}

/// The working directory as the prompt shows it.
pub open spec fn dir_shown(env: EnvironmentView) -> Seq<char> {
    match env.cwd {
        Some(dir) => dir,
        None => UNKNOWN_DIR@,
    }
}

/// Adds a prompt to the end of `out`.
pub fn put_prompt(out: &mut String, user: &str, dir: &str, sign: &str)
    ensures
        final(out)@ == old(out)@ + prompt(user@, dir@, sign@),
{
    out.append("\x1b[35m");
    out.append(user);
    out.append("\x1b[0m in \x1b[32m");
    out.append(dir);
    out.append("\x1b[0m \x1b[33m");
    out.append(sign);
    out.append("\x1b[0m ");
    assert(out@ =~= old(out)@ + prompt(user@, dir@, sign@));
}

/// The user's name in `env`, or the name that stands for an unknown user.
pub fn user_name(env: &Environment) -> (name: &str)
    ensures
        name@ == user_shown(env@),
{
    match &env.user {
        Some(name) => name.as_str(),
        None => UNKNOWN_USER,
    }
}

/// The prompt of the loop for the environment `env`.
pub fn ksh_prompt(env: &Environment) -> (text: String)
    ensures
        text@ == prompt(user_shown(env@), dir_shown(env@), PROMPT_SIGN@),
{
    let dir: &str = match &env.cwd {
        Some(dir) => dir.as_str(),
        None => UNKNOWN_DIR,
    };
    let mut text = String::new();
    put_prompt(&mut text, user_name(env), dir, PROMPT_SIGN);
    assert(text@ =~= prompt(user_shown(env@), dir_shown(env@), PROMPT_SIGN@));
    text
}

} // verus!
