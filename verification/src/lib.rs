//! Decision logic of the `ginger-infra` command line tool.
//!
//! The tool authenticates against an identity service and then runs one
//! subcommand. This crate holds every decision the tool takes, as functions
//! from plain values to plain values: which subcommand does what, how a
//! portal's registration request is put together, what is printed and with
//! which exit code the process ends. Network calls, file reads and writing
//! to the terminal are left to the program that drives these functions.
//!
//! A driver starts a session with [`session::Session::start`], makes the
//! call it is asked for, and hands the reply to
//! [`session::check_session_gurad`], until the session ends:
//!
//! * [`command`]: the subcommands and the handler behind each;
//! * [`config`]: the service configuration and the package descriptor;
//! * [`request`]: the request that registers a portal, and how it follows
//!   from the configuration;
//! * [`output`]: the lines that are printed, and how they are rendered;
//! * [`protocol`]: calls, replies and endings, and what a run is;
//! * [`portal_installer`]: the portal installer's state machine;
//! * [`session`]: the session guard's state machine.

pub mod command;
pub mod config;
pub mod output;
pub mod portal_installer;
pub mod protocol;
pub mod request;
pub mod session;
