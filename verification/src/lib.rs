//! The decisions of `rssh`, a personal SSH connection manager.
//!
//! The tool keeps aliases for `user@host` targets, opens an authenticated
//! session for an alias, and then runs an interactive shell or transfers a
//! file over it. This library decides; it does no input or output. Whatever
//! takes outside work (the network, the terminal, the prompts, the
//! credential vault, the files) is done by the caller, step by step: each
//! part of the library is told what happened and answers with what is to
//! be done next.
//!
//! - [`config`]: the alias store.
//! - [`target`]: connection strings and targets.
//! - [`credentials`]: what the answers of the credential vault come to.
//! - [`cli`], [`commands`], [`interactive`]: the commands, the commands on
//!   the alias store, and the dialogue of the interactive mode.
//! - [`ssh`]: the session builder, the interactive shell, the transfers.
//! - [`path`], [`text`]: paths and texts.
//! - [`error`]: the errors.

pub mod cli;
pub mod commands;
pub mod config;
pub mod credentials;
pub mod error;
pub mod interactive;
pub mod path;
pub mod ssh;
pub mod target;
pub mod text;
