//! The core of `ksh`, a small interactive shell that runs one command per
//! line in the foreground.
//!
//! The library decides and the program around it acts: a line is trimmed and
//! split into tokens ([`tokenizer`]), the first token is looked up among the
//! built-in commands ([`built_in`]), and the dispatcher ([`dispatch`]) hands
//! back a status for the loop together with the one action that is to be
//! performed in the outside world ([`outcome`]): a message to report, a text
//! to print, a directory to change to, a program to run ([`launch`]). The
//! loop itself is a state machine of two states ([`repl`]).
//!
//! Every function states what it returns over a mathematical model of its
//! arguments, and the laws that hold of the models are proved beside them.

pub mod built_in;
pub mod dispatch;
pub mod help;
pub mod launch;
pub mod outcome;
pub mod prompt;
pub mod repl;
pub mod text;
pub mod tokenizer;
