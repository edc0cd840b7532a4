//! What happens over a connection: building the session, the interactive
//! shell and the file transfers.
//!
//! The outside work (network, terminal, prompts, files) is not done here.
//! Each part is a machine that is told what happened and answers with
//! what is to be done next.

pub mod session;
pub mod session_runs;
pub mod shell;
pub mod shell_runs;
pub mod transfer;
pub mod transfer_runs;

pub use session::create_session;
pub use shell::handle_interactive_shell;
pub use transfer::{handle_download, handle_upload};
