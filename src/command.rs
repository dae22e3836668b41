//! The role that the command line selects.
//!
//! The first argument is the program, the second the mode: `--ping
//! <remote> [local_port]`, `--pong <port>` or `--dong <remote> [local_port]`.

use vstd::prelude::*;
use crate::endpoint::{parse_port, port_of};
use crate::message::same_text;

verus! {

#[derive(Debug, PartialEq, Eq)]
pub enum Role {
    /// Send one probe to `remote`, then log the replies.
    Probe { remote: String, local_port: Option<u16> },
    /// Answer probes on `0.0.0.0:<port>`.
    Respond { port: u16 },
    /// Send an announcement to `remote` every tick.
    Announce { remote: String, local_port: Option<u16> },
}

#[derive(Clone, Copy, Debug, PartialEq, Eq, Structural)]
pub enum CommandError {
    /// Fewer than a mode and one operand.
    Usage,
    /// The mode is none of `--ping`, `--pong`, `--dong`.
    UnknownMode,
    /// A port operand is not a decimal number below 65536.
    InvalidPort,
}

/// The optional local port at `args[i]`: absent, a port, or not a port.
pub open spec fn optional_port(args: Seq<String>, i: int) -> Result<Option<u16>, CommandError> {
    if args.len() > i {
        match port_of(args[i]@) {
            Some(p) => Ok(Some(p)),
            None => Err(CommandError::InvalidPort),
        }
    } else {
        Ok(None)
    }
}

/// The role that the arguments select; arguments after the ones a mode
/// takes are ignored.
pub open spec fn role_of(args: Seq<String>) -> Result<Role, CommandError> {
    if args.len() < 3 {
        Err(CommandError::Usage)
    } else if args[1]@ == "--ping"@ {
        match optional_port(args, 3) {
            Ok(p) => Ok(Role::Probe { remote: args[2], local_port: p }),
            Err(e) => Err(e),
        }
    } else if args[1]@ == "--pong"@ {
        match port_of(args[2]@) {
            Some(p) => Ok(Role::Respond { port: p }),
            None => Err(CommandError::InvalidPort),
        }
    } else if args[1]@ == "--dong"@ {
        match optional_port(args, 3) {
            Ok(p) => Ok(Role::Announce { remote: args[2], local_port: p }),
            Err(e) => Err(e),
        }
    } else {
        Err(CommandError::UnknownMode)
    }
}

fn parse_optional_port(args: &Vec<String>, i: usize) -> (r: Result<Option<u16>, CommandError>)
    ensures
        r == optional_port(args@, i as int),
{
    if args.len() > i {
        match parse_port(args[i].as_str()) {
            Some(p) => Ok(Some(p)),
            None => Err(CommandError::InvalidPort),
        }
    } else {
        Ok(None)
    }
}

/// Selects the role from the process arguments, the program's name first.
pub fn parse_command(args: &Vec<String>) -> (r: Result<Role, CommandError>)
    ensures
        r == role_of(args@),
{
    if args.len() < 3 {
        return Err(CommandError::Usage);
    }
    let mode = args[1].as_str();
    if same_text(mode, "--ping") {
        match parse_optional_port(args, 3) {
            Ok(p) => Ok(Role::Probe { remote: args[2].clone(), local_port: p }),
            Err(e) => Err(e),
        }
    } else if same_text(mode, "--pong") {
        match parse_port(args[2].as_str()) {
            Some(p) => Ok(Role::Respond { port: p }),
            None => Err(CommandError::InvalidPort),
        }
    } else if same_text(mode, "--dong") {
        match parse_optional_port(args, 3) {
            Ok(p) => Ok(Role::Announce { remote: args[2].clone(), local_port: p }),
            Err(e) => Err(e),
        }
    } else {
        Err(CommandError::UnknownMode)
    }
}

} // verus!
