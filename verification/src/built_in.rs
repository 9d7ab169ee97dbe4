//! The built-in commands: their names, in registry order, and their handlers.

use crate::help::{help_screen, help_text};
use crate::outcome::{
    complain, proceed, Action, ActionView, Environment, EnvironmentView, Outcome, OutcomeView,
    KSH_CONTINUE, KSH_TERMINATE,
};
use crate::prompt::{user_name, user_shown};
use crate::text::same_text;
use vstd::prelude::*;
use vstd::string::*;

verus! {

/// The names of the built-in commands, in the order in which they are searched.
pub const BUILTIN_STR: [&'static str; 14] = [
    "cd",
    "ls",
    "pwd",
    "echo",
    "cat",
    "cp",
    "mv",
    "mkdir",
    "rmdir",
    "rm",
    "touch",
    "chmod",
    "help",
    "exit",
];

/// The names of the built-in commands as a sequence of texts.
pub open spec fn builtin_names() -> Seq<Seq<char>> {
    Seq::new(14, |i: int| BUILTIN_STR[i]@)
}

/// Whether `name` is the name of a built-in command.
pub open spec fn is_builtin(name: Seq<char>) -> bool {
    builtin_names().contains(name)
}

/// What `cd` answers to the tokens `args`: with a directory named, the
/// request to change to it; without one, a complaint.
pub open spec fn cd_outcome(args: Seq<Seq<char>>) -> OutcomeView {
    if args.len() < 2 {
        complain("ksh: expected arguments to 'cd'..."@)
    } else {
        OutcomeView {
            status: KSH_CONTINUE as int,
            action: ActionView::ChangeDir { path: args[1] },
        }
    }
}

/// What `help` answers in the environment `env`: the help screen, or a
/// complaint where the working directory is not known.
pub open spec fn help_outcome(env: EnvironmentView) -> OutcomeView {
    match env.cwd {
        Some(dir) => OutcomeView {
            status: KSH_CONTINUE as int,
            action: ActionView::Print { text: help_screen(user_shown(env), dir) },
        },
        None => complain("ksh: getcwd failed..."@),
    }
}

/// What `exit` answers: the loop is to stop.
pub open spec fn exit_outcome() -> OutcomeView {
    OutcomeView { status: KSH_TERMINATE as int, action: ActionView::Nothing }
}

/// What the built-in command `name` answers to the tokens `args` in the
/// environment `env`.
pub open spec fn builtin_outcome(
    name: Seq<char>,
    args: Seq<Seq<char>>,
    env: EnvironmentView,
) -> OutcomeView {
    if name == "cd"@ {
        cd_outcome(args)
    } else if name == "help"@ {
        help_outcome(env)
    } else if name == "exit"@ {
        exit_outcome()
    } else {
        proceed()
    }
}

/// No two built-in commands have the same name.
pub proof fn lemma_builtin_names_differ()
    ensures
        forall|i: int, j: int|
            0 <= i < j < builtin_names().len() ==> #[trigger] builtin_names()[i]
                != #[trigger] builtin_names()[j],
{
    reveal_strlit("cd");
    reveal_strlit("ls");
    reveal_strlit("pwd");
    reveal_strlit("echo");
    reveal_strlit("cat");
    reveal_strlit("cp");
    reveal_strlit("mv");
    reveal_strlit("mkdir");
    reveal_strlit("rmdir");
    reveal_strlit("rm");
    reveal_strlit("touch");
    reveal_strlit("chmod");
    reveal_strlit("help");
    reveal_strlit("exit");
    let names = builtin_names();
    assert(initials(names[0]) == ('c', 'd', 2nat));
    assert(initials(names[1]) == ('l', 's', 2nat));
    assert(initials(names[2]) == ('p', 'w', 3nat));
    assert(initials(names[3]) == ('e', 'c', 4nat));
    assert(initials(names[4]) == ('c', 'a', 3nat));
    assert(initials(names[5]) == ('c', 'p', 2nat));
    assert(initials(names[6]) == ('m', 'v', 2nat));
    assert(initials(names[7]) == ('m', 'k', 5nat));
    assert(initials(names[8]) == ('r', 'm', 5nat));
    assert(initials(names[9]) == ('r', 'm', 2nat));
    assert(initials(names[10]) == ('t', 'o', 5nat));
    assert(initials(names[11]) == ('c', 'h', 5nat));
    assert(initials(names[12]) == ('h', 'e', 4nat));
    assert(initials(names[13]) == ('e', 'x', 4nat));
    assert forall|i: int, j: int| 0 <= i < j < names.len() implies #[trigger] names[i]
        != #[trigger] names[j] by {
        assert(initials(names[i]) != initials(names[j]));
    }
}

/// The first two characters of a name, and its length.
spec fn initials(name: Seq<char>) -> (char, char, nat) {
    (name[0], name[1], name.len())
}

/// The number of built-in commands.
pub fn ksh_num_builtins() -> (n: usize)
    ensures
        n == builtin_names().len(),
{
    BUILTIN_STR.len()
}

/// Looks `name` up among the built-in commands, from the first to the last.
pub fn ksh_find_builtin(name: &str) -> (found: Option<usize>)
    ensures
        match found {
            Some(index) => {
                &&& index < builtin_names().len()
                &&& builtin_names()[index as int] == name@
                &&& forall|j: int| 0 <= j < index ==> builtin_names()[j] != name@
            },
            None => !is_builtin(name@),
        },
{
    let count: usize = ksh_num_builtins();
    let mut i: usize = 0;
    while i < count
        invariant
            count == builtin_names().len(),
            i <= count,
            forall|j: int| 0 <= j < i ==> builtin_names()[j] != name@,
        decreases count - i,
    {
        if same_text(name, BUILTIN_STR[i]) {
            return Some(i);
        }
        i = i + 1;
    }
    None
}

/// The built-in `cd`: asks for the directory named by the second token to
/// become the working directory, or complains where no directory is named.
pub fn ksh_cd(args: Vec<String>) -> (outcome: Outcome)
    ensures
        outcome@ == cd_outcome(args.deep_view()),
{
    if args.len() < 2 {
        return Outcome {
            status: KSH_CONTINUE,
            action: Action::Report {
                message: String::from_str("ksh: expected arguments to 'cd'..."),
            },
        };
    }
    let mut args = args;
    let path = args.swap_remove(1);
    Outcome { status: KSH_CONTINUE, action: Action::ChangeDir { path } }
}

/// What is to be done when the working directory could not be changed, for
/// the reason `error`.
pub fn ksh_cd_failed(error: &str) -> (outcome: Outcome)
    ensures
        outcome@ == complain("ksh: chdir failed: "@ + error@),
{
    let mut message = String::from_str("ksh: chdir failed: ");
    message.append(error);
    Outcome { status: KSH_CONTINUE, action: Action::Report { message } }
}

/// The built-in `ls`.
pub fn ksh_ls(args: Vec<String>) -> (status: i32)
    ensures
        status == KSH_CONTINUE,
{
    let _ = args;
    KSH_CONTINUE
}

/// The built-in `pwd`.
pub fn ksh_pwd(args: Vec<String>) -> (status: i32)
    ensures
        status == KSH_CONTINUE,
{
    let _ = args;
    KSH_CONTINUE
}

/// The built-in `echo`.
pub fn ksh_echo(args: Vec<String>) -> (status: i32)
    ensures
        status == KSH_CONTINUE,
{
    let _ = args;
    KSH_CONTINUE
}

/// The built-in `cat`.
pub fn ksh_cat(args: Vec<String>) -> (status: i32)
    ensures
        status == KSH_CONTINUE,
{
    let _ = args;
    KSH_CONTINUE
}

/// The built-in `cp`.
pub fn ksh_cp(args: Vec<String>) -> (status: i32)
    ensures
        status == KSH_CONTINUE,
{
    let _ = args;
    KSH_CONTINUE
}

/// The built-in `mv`.
pub fn ksh_mv(args: Vec<String>) -> (status: i32)
    ensures
        status == KSH_CONTINUE,
{
    let _ = args;
    KSH_CONTINUE
}

/// The built-in `mkdir`.
pub fn ksh_mkdir(args: Vec<String>) -> (status: i32)
    ensures
        status == KSH_CONTINUE,
{
    let _ = args;
    KSH_CONTINUE
}

/// The built-in `rmdir`.
pub fn ksh_rmdir(args: Vec<String>) -> (status: i32)
    ensures
        status == KSH_CONTINUE,
{
    let _ = args;
    KSH_CONTINUE
}

/// The built-in `rm`.
pub fn ksh_rm(args: Vec<String>) -> (status: i32)
    ensures
        status == KSH_CONTINUE,
{
    let _ = args;
    KSH_CONTINUE
}

/// The built-in `touch`.
pub fn ksh_touch(args: Vec<String>) -> (status: i32)
    ensures
        status == KSH_CONTINUE,
{
    let _ = args;
    KSH_CONTINUE
}

/// The built-in `chmod`.
pub fn ksh_chmod(args: Vec<String>) -> (status: i32)
    ensures
        status == KSH_CONTINUE,
{
    let _ = args;
    KSH_CONTINUE
}

/// The built-in `help`: asks for the help screen to be printed, or complains
/// where the working directory is not known.
pub fn ksh_help(args: Vec<String>, env: &Environment) -> (outcome: Outcome)
    ensures
        outcome@ == help_outcome(env@),
{
    let _ = args;
    match &env.cwd {
        Some(dir) => Outcome {
            status: KSH_CONTINUE,
            action: Action::Print { text: help_text(user_name(env), dir.as_str()) },
        },
        None => Outcome {
            status: KSH_CONTINUE,
            action: Action::Report { message: String::from_str("ksh: getcwd failed...") },
        },
    }
}

/// The built-in `exit`: the one command that stops the loop.
pub fn ksh_exit(args: Vec<String>) -> (status: i32)
    ensures
        status == KSH_TERMINATE,
{
    let _ = args;
    KSH_TERMINATE
}

/// The outcome of a command that only hands back a status.
fn status_only(status: i32) -> (outcome: Outcome)
    ensures
        outcome@ == (OutcomeView { status: status as int, action: ActionView::Nothing }),
{
    Outcome { status, action: Action::Nothing }
}

/// Runs the handler of the built-in command with the index `index` on the
/// tokens `args`.
pub fn ksh_run_builtin(index: usize, args: Vec<String>, env: &Environment) -> (outcome: Outcome)
    requires
        index < builtin_names().len(),
    ensures
        outcome@ == builtin_outcome(builtin_names()[index as int], args.deep_view(), env@),
{
    proof {
        lemma_builtin_names_differ();
        assert(builtin_names()[0] == "cd"@);
        assert(builtin_names()[12] == "help"@);
        assert(builtin_names()[13] == "exit"@);
    }
    match index {
        0 => ksh_cd(args),
        1 => status_only(ksh_ls(args)),
        2 => status_only(ksh_pwd(args)),
        3 => status_only(ksh_echo(args)),
        4 => status_only(ksh_cat(args)),
        5 => status_only(ksh_cp(args)),
        6 => status_only(ksh_mv(args)),
        7 => status_only(ksh_mkdir(args)),
        8 => status_only(ksh_rmdir(args)),
        9 => status_only(ksh_rm(args)),
        10 => status_only(ksh_touch(args)),
        11 => status_only(ksh_chmod(args)),
        12 => ksh_help(args, env),
        _ => status_only(ksh_exit(args)),
    }
}

} // verus!
