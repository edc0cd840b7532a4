//! The commands of the tool, as they come from the command line or from
//! the prompts of the interactive mode.

use vstd::prelude::*;

verus! {

/// The port that a command uses where none is given.
pub const DEFAULT_PORT: u16 = 22;

/// What the command line asked for.
#[derive(Debug)]
pub struct Cli {
    /// The command, or none for the interactive mode.
    pub command: Option<Commands>,
}

/// A command.
#[derive(Debug)]
pub enum Commands {
    /// Add a new SSH connection.
    Add { alias: String, connection_string: String },
    /// List all saved SSH connections.
    List,
    /// Remove a saved SSH connection.
    Remove { alias: String },
    /// Connect to a server using a saved alias.
    Connect { alias: String, port: u16, identity: Option<String> },
    /// Upload a file to a remote directory.
    Upload {
        alias: String,
        local_path: String,
        remote_path: String,
        port: u16,
        identity: Option<String>,
    },
    /// Download a file to a local directory.
    Download {
        alias: String,
        remote_path: String,
        local_path: String,
        port: u16,
        identity: Option<String>,
    },
}

/// What a session is to be built for.
pub struct SessionRequest<'a> {
    pub alias: &'a str,
    pub port: u16,
    pub identity: Option<&'a str>,
}

impl Commands {
    /// The session that the command needs: one for the alias, port and
    /// identity of a connection, an upload or a download, none for the
    /// commands that only read or change the alias store.
    pub fn session_request(&self) -> (request: Option<SessionRequest<'_>>)
        ensures
            match *self {
                Commands::Connect { alias, port, identity }
                | Commands::Upload { alias, port, identity, .. }
                | Commands::Download { alias, port, identity, .. } => {
                    &&& request matches Some(r)
                    &&& r.alias@ == alias@
                    &&& r.port == port
                    &&& r.identity.deep_view() == identity.deep_view()
                },
                _ => request is None,
            },
    {
        match self {
            Commands::Connect { alias, port, identity }
            | Commands::Upload { alias, port, identity, .. }
            | Commands::Download { alias, port, identity, .. } => Some(
                SessionRequest {
                    alias: alias.as_str(),
                    port: *port,
                    identity: match identity {
                        Some(path) => Some(path.as_str()),
                        None => None,
                    },
                },
            ),
            _ => None,
        }
    }
}

} // verus!
