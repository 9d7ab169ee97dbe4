//! What a command hands back to the loop: a status, and the one thing that
//! the caller has to do in the outside world on the command's behalf.

use vstd::prelude::*;

verus! {

/// The status that asks the loop to go on.
pub const KSH_CONTINUE: i32 = 1;

/// The status that asks the loop to stop.
pub const KSH_TERMINATE: i32 = 0;

/// The work that a command leaves to its caller. The library decides; the
/// caller performs.
#[derive(Debug, PartialEq, Eq)]
pub enum Action {
    /// Nothing is to be done.
    Nothing,
    /// Write `message` and a line break to the diagnostic stream.
    Report { message: String },
    /// Write `text`, as it stands, to standard output.
    Print { text: String },
    /// Make `path` the working directory of the process.
    ChangeDir { path: String },
    /// Run `program`, found on the search path, with the arguments `args`,
    /// and wait until it has ended.
    Spawn { program: String, args: Vec<String> },
    /// Write `message` and a line break to the diagnostic stream, and end the
    /// process at once, with the exit status 1.
    Abort { message: String },
}

/// The mathematical content of an [`Action`].
pub enum ActionView {
    Nothing,
    Report { message: Seq<char> },
    Print { text: Seq<char> },
    ChangeDir { path: Seq<char> },
    Spawn { program: Seq<char>, args: Seq<Seq<char>> },
    Abort { message: Seq<char> },
}

impl View for Action {
    type V = ActionView;

    open spec fn view(&self) -> ActionView {
        match self {
            Action::Nothing => ActionView::Nothing,
            Action::Report { message } => ActionView::Report { message: message@ },
            Action::Print { text } => ActionView::Print { text: text@ },
            Action::ChangeDir { path } => ActionView::ChangeDir { path: path@ },
            Action::Spawn { program, args } => ActionView::Spawn {
                program: program@,
                args: args.deep_view(),
            },
            Action::Abort { message } => ActionView::Abort { message: message@ },
        }
    }
}

/// The result of a command: the loop status and the action left to the caller.
#[derive(Debug, PartialEq, Eq)]
pub struct Outcome {
    pub status: i32,
    pub action: Action,
}

/// The mathematical content of an [`Outcome`].
pub struct OutcomeView {
    pub status: int,
    pub action: ActionView,
}

impl View for Outcome {
    type V = OutcomeView;

    open spec fn view(&self) -> OutcomeView {
        OutcomeView { status: self.status as int, action: self.action@ }
    }
}

/// An outcome that lets the loop go on and asks for nothing.
pub open spec fn proceed() -> OutcomeView {
    OutcomeView { status: KSH_CONTINUE as int, action: ActionView::Nothing }
}

/// An outcome that lets the loop go on after `message` has been reported.
pub open spec fn complain(message: Seq<char>) -> OutcomeView {
    OutcomeView { status: KSH_CONTINUE as int, action: ActionView::Report { message } }
}

/// What the shell knows of the process it runs in, read anew for every cycle.
#[derive(Debug, PartialEq, Eq)]
pub struct Environment {
    /// The working directory, or `None` where it cannot be found out.
    pub cwd: Option<String>,
    /// The user's name, or `None` where it is not set.
    pub user: Option<String>,
}

/// The mathematical content of an [`Environment`].
pub struct EnvironmentView {
    pub cwd: Option<Seq<char>>,
    pub user: Option<Seq<char>>,
}

impl View for Environment {
    type V = EnvironmentView;

    open spec fn view(&self) -> EnvironmentView {
        EnvironmentView {
            cwd: self.cwd.deep_view(),
            user: self.user.deep_view(),
        }
    }
}

} // verus!
