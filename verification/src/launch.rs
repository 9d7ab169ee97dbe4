//! Running a program that is no built-in command: what is to be run, and what
//! follows from how the run went.

use crate::outcome::{
    complain, proceed, Action, ActionView, Outcome, OutcomeView, KSH_CONTINUE,
};
use vstd::prelude::*;
use vstd::string::*;

verus! {

/// How the run of a program went.
#[derive(Debug, PartialEq, Eq)]
pub enum Launched {
    /// The program could not be started; `error` says why.
    NotStarted { error: String },
    /// The program was started, but waiting for its end failed; `error` says
    /// why.
    Lost { error: String },
    /// The program ran and ended: with success or without, as `status`
    /// describes.
    Ended { success: bool, status: String },
}

/// The mathematical content of a [`Launched`].
pub enum LaunchedView {
    NotStarted { error: Seq<char> },
    Lost { error: Seq<char> },
    Ended { success: bool, status: Seq<char> },
}

impl View for Launched {
    type V = LaunchedView;

    open spec fn view(&self) -> LaunchedView {
        match self {
            Launched::NotStarted { error } => LaunchedView::NotStarted { error: error@ },
            Launched::Lost { error } => LaunchedView::Lost { error: error@ },
            Launched::Ended { success, status } => LaunchedView::Ended {
                success: *success,
                status: status@,
            },
        }
    }
}

/// What launching the tokens `tokens` asks for: the first token is the
/// program, the others are its arguments. Without a token there is nothing to
/// run, which is reported.
pub open spec fn launch_outcome(tokens: Seq<Seq<char>>) -> OutcomeView {
    if tokens.len() == 0 {
        complain("ksh: launch: no arguments provided"@)
    } else {
        OutcomeView {
            status: KSH_CONTINUE as int,
            action: ActionView::Spawn { program: tokens[0], args: tokens.drop_first() },
        }
    }
}

/// What follows from the run of a program: a failure to start it, a failure
/// to wait for it and an end without success are reported, and the loop goes
/// on in every case.
pub open spec fn launched_outcome(result: LaunchedView) -> OutcomeView {
    match result {
        LaunchedView::NotStarted { error } => complain(
            "ksh: launch: failed to execute command: "@ + error,
        ),
        LaunchedView::Lost { error } => complain("ksh: wait failed: "@ + error),
        LaunchedView::Ended { success, status } => if success {
            proceed()
        } else {
            complain("ksh: process exited with status: "@ + status)
        },
    }
}

/// However the run of a program went, the loop goes on: a program that fails
/// does not end the shell.
pub proof fn lemma_launched_goes_on(result: LaunchedView)
    ensures
        launched_outcome(result).status == KSH_CONTINUE,
        !(launched_outcome(result).action is Spawn),
{
}

/// Launching never ends the loop, whatever the tokens.
pub proof fn lemma_launch_goes_on(tokens: Seq<Seq<char>>)
    ensures
        launch_outcome(tokens).status == KSH_CONTINUE,
{
}

/// Decides what is to be run for the tokens `args`.
pub fn ksh_launch(args: Vec<String>) -> (outcome: Outcome)
    ensures
        outcome@ == launch_outcome(args.deep_view()),
{
    if args.len() == 0 {
        return Outcome {
            status: KSH_CONTINUE,
            action: Action::Report {
                message: String::from_str("ksh: launch: no arguments provided"),
            },
        };
    }
    let ghost tokens = args.deep_view();
    let mut args = args;
    let program = args.remove(0);
    assert(args.deep_view() =~= tokens.drop_first());
    Outcome { status: KSH_CONTINUE, action: Action::Spawn { program, args } }
}

/// Decides what is to be done after the run of a program.
pub fn ksh_launched(result: &Launched) -> (outcome: Outcome)
    ensures
        outcome@ == launched_outcome(result@),
{
    match result {
        Launched::NotStarted { error } => {
            let mut message = String::from_str("ksh: launch: failed to execute command: ");
            message.append(error.as_str());
            Outcome { status: KSH_CONTINUE, action: Action::Report { message } }
        },
        Launched::Lost { error } => {
            let mut message = String::from_str("ksh: wait failed: ");
            message.append(error.as_str());
            Outcome { status: KSH_CONTINUE, action: Action::Report { message } }
        },
        Launched::Ended { success, status } => {
            if *success {
                Outcome { status: KSH_CONTINUE, action: Action::Nothing }
            } else {
                let mut message = String::from_str("ksh: process exited with status: ");
                message.append(status.as_str());
                Outcome { status: KSH_CONTINUE, action: Action::Report { message } }
            }
        },
    }
}

} // verus!
