//! The errors of the connection manager, each with what it was about.

use vstd::prelude::*;

verus! {

/// Why a command came to nothing.
#[derive(Debug)]
pub enum RsshError {
    /// The alias store holds no such alias.
    AliasNotFound { alias: String },
    /// A stored connection string is not `user@host`.
    InvalidConnectionString { connection: String },
    /// No TCP connection to `address` could be opened.
    ConnectFailed { address: String, reason: String },
    /// The transport handshake failed.
    HandshakeFailed { reason: String },
    /// The server did not accept the key or the password, or the user gave
    /// none when asked.
    AuthFailed { reason: String },
    /// The local path to upload is not a regular file.
    NotAFile { path: String },
    /// The remote path to download has no base name.
    InvalidRemotePath { path: String },
    /// The local destination of a download is a regular file.
    DestinationIsFile { path: String },
    /// Reading from the channel failed for another reason than that nothing
    /// was there to read.
    ChannelReadError { reason: String },
    /// A file transfer broke off.
    TransferFailed { reason: String },
    /// Outside work failed that has no kind of its own: the credential vault,
    /// the terminal, a write to the channel.
    Other { reason: String },
}

/// An error as contracts speak of it: the kind, with its texts as sequences
/// of characters.
pub enum ErrorKind {
    AliasNotFound { alias: Seq<char> },
    InvalidConnectionString { connection: Seq<char> },
    ConnectFailed { address: Seq<char>, reason: Seq<char> },
    HandshakeFailed { reason: Seq<char> },
    AuthFailed { reason: Seq<char> },
    NotAFile { path: Seq<char> },
    InvalidRemotePath { path: Seq<char> },
    DestinationIsFile { path: Seq<char> },
    ChannelReadError { reason: Seq<char> },
    TransferFailed { reason: Seq<char> },
    Other { reason: Seq<char> },
}

impl ErrorKind {
    /// The line shown to the user.
    pub open spec fn message(self) -> Seq<char> {
        match self {
            ErrorKind::AliasNotFound { alias } => "Alias '"@ + alias + "' not found."@,
            ErrorKind::InvalidConnectionString { connection } => "Invalid connection string '"@
                + connection + "'. Use 'user@host'."@,
            ErrorKind::ConnectFailed { address, reason } => "Failed to connect to "@ + address
                + ": "@ + reason,
            ErrorKind::HandshakeFailed { reason } => "Handshake failed: "@ + reason,
            ErrorKind::AuthFailed { reason } => "Authentication failed: "@ + reason,
            ErrorKind::NotAFile { path } => "Local path \""@ + path
                + "\" is not a file. Please provide a path to a file to upload."@,
            ErrorKind::InvalidRemotePath { path } => "Remote path \""@ + path
                + "\" is a directory or invalid. Please provide a path to a file to download."@,
            ErrorKind::DestinationIsFile { path } => "Local destination \""@ + path
                + "\" is a file. Please provide a directory path."@,
            ErrorKind::ChannelReadError { reason } => "Channel read error: "@ + reason,
            ErrorKind::TransferFailed { reason } => "Transfer failed: "@ + reason,
            ErrorKind::Other { reason } => reason,
        }
    }
}

impl View for RsshError {
    type V = ErrorKind;

    open spec fn view(&self) -> ErrorKind {
        match self {
            RsshError::AliasNotFound { alias } => ErrorKind::AliasNotFound { alias: alias@ },
            RsshError::InvalidConnectionString { connection } => ErrorKind::InvalidConnectionString {
                connection: connection@,
            },
            RsshError::ConnectFailed { address, reason } => ErrorKind::ConnectFailed {
                address: address@,
                reason: reason@,
            },
            RsshError::HandshakeFailed { reason } => ErrorKind::HandshakeFailed { reason: reason@ },
            RsshError::AuthFailed { reason } => ErrorKind::AuthFailed { reason: reason@ },
            RsshError::NotAFile { path } => ErrorKind::NotAFile { path: path@ },
            RsshError::InvalidRemotePath { path } => ErrorKind::InvalidRemotePath { path: path@ },
            RsshError::DestinationIsFile { path } => ErrorKind::DestinationIsFile { path: path@ },
            RsshError::ChannelReadError { reason } => ErrorKind::ChannelReadError {
                reason: reason@,
            },
            RsshError::TransferFailed { reason } => ErrorKind::TransferFailed { reason: reason@ },
            RsshError::Other { reason } => ErrorKind::Other { reason: reason@ },
        }
    }
}

/// How something ended that hands nothing back, as contracts speak of it.
pub open spec fn outcome_view(outcome: Result<(), RsshError>) -> Result<(), ErrorKind> {
    match outcome {
        Ok(_) => Ok(()),
        Err(error) => Err(error@),
    }
}

impl Clone for RsshError {
    fn clone(&self) -> (copy: Self)
        ensures
            copy == *self,
    {
        match self {
            RsshError::AliasNotFound { alias } => RsshError::AliasNotFound { alias: alias.clone() },
            RsshError::InvalidConnectionString { connection } => {
                RsshError::InvalidConnectionString { connection: connection.clone() }
            },
            RsshError::ConnectFailed { address, reason } => RsshError::ConnectFailed {
                address: address.clone(),
                reason: reason.clone(),
            },
            RsshError::HandshakeFailed { reason } => RsshError::HandshakeFailed {
                reason: reason.clone(),
            },
            RsshError::AuthFailed { reason } => RsshError::AuthFailed { reason: reason.clone() },
            RsshError::NotAFile { path } => RsshError::NotAFile { path: path.clone() },
            RsshError::InvalidRemotePath { path } => RsshError::InvalidRemotePath {
                path: path.clone(),
            },
            RsshError::DestinationIsFile { path } => RsshError::DestinationIsFile {
                path: path.clone(),
            },
            RsshError::ChannelReadError { reason } => RsshError::ChannelReadError {
                reason: reason.clone(),
            },
            RsshError::TransferFailed { reason } => RsshError::TransferFailed {
                reason: reason.clone(),
            },
            RsshError::Other { reason } => RsshError::Other { reason: reason.clone() },
        }
    }
}

/// `head`, then `rest`.
fn prefixed(head: &str, rest: &str) -> (line: String)
    ensures
        line@ == head@ + rest@,
{
    let mut line = head.to_owned();
    line.append(rest);
    line
}

/// `head`, then `middle`, then `tail`.
fn framed(head: &str, middle: &str, tail: &str) -> (line: String)
    ensures
        line@ == head@ + middle@ + tail@,
{
    let mut line = head.to_owned();
    line.append(middle);
    line.append(tail);
    line
}

impl RsshError {
    /// The line shown to the user for this error.
    pub fn message(&self) -> (line: String)
        ensures
            line@ == self@.message(),
    {
        match self {
            RsshError::AliasNotFound { alias } => framed("Alias '", alias.as_str(), "' not found."),
            RsshError::InvalidConnectionString { connection } => framed(
                "Invalid connection string '",
                connection.as_str(),
                "'. Use 'user@host'.",
            ),
            RsshError::ConnectFailed { address, reason } => {
                let line = framed("Failed to connect to ", address.as_str(), ": ");
                prefixed(line.as_str(), reason.as_str())
            },
            RsshError::HandshakeFailed { reason } => prefixed("Handshake failed: ", reason.as_str()),
            RsshError::AuthFailed { reason } => prefixed("Authentication failed: ", reason.as_str()),
            RsshError::NotAFile { path } => framed(
                "Local path \"",
                path.as_str(),
                "\" is not a file. Please provide a path to a file to upload.",
            ),
            RsshError::InvalidRemotePath { path } => framed(
                "Remote path \"",
                path.as_str(),
                "\" is a directory or invalid. Please provide a path to a file to download.",
            ),
            RsshError::DestinationIsFile { path } => framed(
                "Local destination \"",
                path.as_str(),
                "\" is a file. Please provide a directory path.",
            ),
            RsshError::ChannelReadError { reason } => prefixed("Channel read error: ", reason.as_str()),
            RsshError::TransferFailed { reason } => prefixed("Transfer failed: ", reason.as_str()),
            RsshError::Other { reason } => reason.clone(),
        }
    }
}

} // verus!
