//! The credential vault, as far as this tool decides anything about it:
//! under which service the secrets are filed, and what each answer of the
//! vault comes to.
//!
//! The vault itself is outside. Its answer to a request is handed in as a
//! `Result`, with a [`VaultFault`] where the request failed.

use vstd::prelude::*;
use crate::error::{outcome_view, ErrorKind, RsshError};

verus! {

/// The service under which every secret of this tool is filed.
pub const SERVICE_NAME: &'static str = "rssh";

/// What went wrong in the vault.
#[derive(Debug)]
pub enum VaultFault {
    /// The vault holds no entry for the alias.
    NoEntry,
    /// Anything else, in the words of the vault.
    Other { reason: String },
}

/// A [`VaultFault`] as contracts speak of it.
pub enum FaultView {
    NoEntry,
    Other { reason: Seq<char> },
}

impl View for VaultFault {
    type V = FaultView;

    open spec fn view(&self) -> FaultView {
        match self {
            VaultFault::NoEntry => FaultView::NoEntry,
            VaultFault::Other { reason } => FaultView::Other { reason: reason@ },
        }
    }
}

/// The answer of the vault to a request that hands nothing back, as
/// contracts speak of it.
pub open spec fn reply_view(reply: Result<(), VaultFault>) -> Result<(), FaultView> {
    match reply {
        Ok(_) => Ok(()),
        Err(fault) => Err(fault@),
    }
}

/// What the vault's answer to deleting a secret comes to: that there was
/// no entry to delete is no error, any other fault is one.
pub open spec fn deletion_outcome(reply: Result<(), FaultView>) -> Result<(), ErrorKind> {
    match reply {
        Ok(_) => Ok(()),
        Err(FaultView::NoEntry) => Ok(()),
        Err(FaultView::Other { reason }) => Err(ErrorKind::Other { reason }),
    }
}

/// The error that a failed store of the secret for `alias` comes to.
pub open spec fn store_failure(alias: Seq<char>) -> ErrorKind {
    ErrorKind::Other { reason: "Failed to save password for '"@ + alias + "'"@ }
}

/// The error that a failed lookup of the secret for `alias` comes to.
pub open spec fn lookup_failure(alias: Seq<char>) -> ErrorKind {
    ErrorKind::Other {
        reason: "Failed to retrieve password for '"@ + alias
            + "'. Please run 'connect' command to set it first."@,
    }
}

/// What the vault's answer to storing the secret for `alias` comes to: any
/// fault is an error that names the alias.
pub fn set_password(alias: &str, reply: Result<(), VaultFault>) -> (stored: Result<(), RsshError>)
    ensures
        match reply {
            Ok(_) => stored is Ok,
            Err(_) => stored matches Err(error) && error@ == store_failure(alias@),
        },
{
    match reply {
        Ok(_) => Ok(()),
        Err(_) => {
            let mut reason = "Failed to save password for '".to_owned();
            reason.append(alias);
            reason.append("'");
            Err(RsshError::Other { reason })
        },
    }
}

/// What the vault's answer to looking up the secret for `alias` comes to:
/// the secret, or an error that names the alias.
pub fn get_password(alias: &str, reply: Result<String, VaultFault>) -> (secret: Result<
    String,
    RsshError,
>)
    ensures
        match reply {
            Ok(found) => secret matches Ok(s) && s@ == found@,
            Err(_) => secret matches Err(error) && error@ == lookup_failure(alias@),
        },
{
    match reply {
        Ok(found) => Ok(found),
        Err(_) => {
            let mut reason = "Failed to retrieve password for '".to_owned();
            reason.append(alias);
            reason.append("'. Please run 'connect' command to set it first.");
            Err(RsshError::Other { reason })
        },
    }
}

/// What the vault's answer to deleting a secret comes to. That there was no
/// entry to delete is no error; any other fault is one, in the words of the
/// vault.
pub fn delete_password(reply: Result<(), VaultFault>) -> (deleted: Result<(), RsshError>)
    ensures
        outcome_view(deleted) == deletion_outcome(reply_view(reply)),
{
    match reply {
        Ok(_) => Ok(()),
        Err(VaultFault::NoEntry) => Ok(()),
        Err(VaultFault::Other { reason }) => Err(RsshError::Other { reason }),
    }
}

} // verus!
