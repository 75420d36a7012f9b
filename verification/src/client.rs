//! Decisions of the command-line program: whether it starts the daemon, and
//! where the data it sends comes from.

use vstd::prelude::*;
use crate::cmd_line::CmdArguments;

verus! {

/// Whether the arguments ask the daemon to halt.
pub open spec fn asks_halt(args: &CmdArguments) -> bool {
    args.pipe_args.halt == Some(true)
}

/// A run asks the daemon to halt exactly when `--halt` was given, that is,
/// when the message's `halt` member is `Some(true)`; no other argument
/// (dashboard, name, file, ...) bears on it.
pub proof fn law_halt_only_when_asked(args: &CmdArguments)
    ensures
        asks_halt(args) <==> args.pipe_args.halt == Some(true),
{
}

/// What the program does when it starts.
pub enum Launch {
    /// Only start the daemon.
    DaemonOnly,
    /// Run as a client; when the daemon cannot be reached and
    /// `start_daemon` holds, start it and try once more.
    Client { start_daemon: bool },
}

/// Chooses what the program does on these arguments.
pub fn launch_mode(args: &CmdArguments) -> (r: Launch)
    ensures
        r == (if args.daemon_only {
            Launch::DaemonOnly
        } else {
            Launch::Client { start_daemon: args.pipe_args.halt != Some(true) }
        }),
{
    if args.daemon_only {
        Launch::DaemonOnly
    } else {
        let halt = match args.pipe_args.halt {
            Some(h) => h,
            None => false,
        };
        Launch::Client { start_daemon: !halt }
    }
}

/// What a client sends after its header.
pub enum ClientInput {
    /// Nothing: the header alone asks the daemon to halt.
    Halt,
    /// The lines of this file.
    File(String),
    /// Standard input.
    Stdin,
}

/// Chooses what a client sends after its header.
pub fn client_input(args: &CmdArguments) -> (r: ClientInput)
    ensures
        match r {
            ClientInput::Halt => args.pipe_args.halt == Some(true),
            ClientInput::File(name) => args.pipe_args.halt != Some(true) && (args.file matches Some(f) && name@
                == f@),
            ClientInput::Stdin => args.pipe_args.halt != Some(true) && args.file is None,
        },
{
    let halt = match args.pipe_args.halt {
        Some(h) => h,
        None => false,
    };
    if halt {
        ClientInput::Halt
    } else {
        match &args.file {
            Some(name) => ClientInput::File(name.clone()),
            None => ClientInput::Stdin,
        }
    }
}

} // verus!
