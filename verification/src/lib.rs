//! The command-interpretation core of a line-oriented shell.
//!
//! A line of input is split into arguments ([`parser`]), the output
//! redirections are taken off their end ([`redirect`]), and the command that
//! remains is run ([`dispatch`]): as a builtin ([`builtins`]), or as a program
//! that is searched ([`exec`]) and then executed ([`external`]).  The result
//! is delivered to the terminal or to the files of the redirections
//! ([`sink`]).  [`shell`] puts the first steps together for one line.
//!
//! Nothing here touches the operating system.  Whatever needs it is a
//! request that the caller carries out and answers: the library decides what
//! is to be done, in which order, and what each outcome means.

pub mod text;
pub mod parser;
pub mod requote;
pub mod redirect;
pub mod command;
pub mod builtins;
pub mod exec;
pub mod external;
pub mod sink;
pub mod dispatch;
pub mod shell;
