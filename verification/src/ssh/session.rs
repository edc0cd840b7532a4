//! Building an authenticated session for an alias.
//!
//! Connecting, the handshake, the attempts to authenticate, the prompts and
//! the credential vault are outside work. After each piece of it the
//! [`SessionBuilder`] is told what happened and says what is to be done
//! next.
//!
//! With an identity file the key is tried without passphrase first. If the
//! server's answer speaks of a passphrase, the user is asked for it, once,
//! and the key is tried with it. Without an identity file the password comes
//! from the vault; only where the vault has none is the user asked, and a
//! password that was typed in and accepted may be put into the vault.

use vstd::prelude::*;
use crate::config::Config;
use crate::error::{ErrorKind, RsshError};
use crate::target::{address_of, target_of, ConnectionTarget};
use crate::text::{contains_text, mentions};

verus! {

/// What the outside reports to the session builder.
///
/// Secrets pass through these values, so they cannot be printed.
pub enum SessionEvent {
    /// The work asked for was done: connected, shaken hands, authenticated,
    /// stored.
    Done,
    /// The work asked for failed, or the user gave no answer.
    Failed { reason: String },
    /// What the vault holds for the alias.
    Secret(Option<String>),
    /// What the user typed when asked.
    Answer(String),
    /// What the user chose when asked yes or no.
    Confirmed(bool),
}

/// What the session builder asks the outside to do.
///
/// Secrets pass through these values, so they cannot be printed.
pub enum SessionAction {
    /// Open a TCP connection to `address`.
    Connect { address: String },
    Handshake,
    /// Authenticate `user` with the private key at `key_path`.
    AuthKey { user: String, key_path: String, passphrase: Option<String> },
    /// Ask for the passphrase of the key, without showing it.
    AskPassphrase,
    /// Look up the secret stored for `alias`.
    FetchSecret { alias: String },
    AuthPassword { user: String, password: String },
    /// Ask for the password for `connection`, without showing it.
    AskPassword { connection: String },
    /// Ask whether the password is to be stored.
    AskToPersist,
    /// Store `secret` for `alias`.
    Persist { alias: String, secret: String },
    /// The session is authenticated: hand it on.
    Finish,
    /// Give up with `error`, and close the connection if one was opened.
    Abort { error: RsshError, close_connection: bool },
}

/// A [`SessionEvent`] as contracts speak of it.
pub enum SessionEventView {
    Done,
    Failed { reason: Seq<char> },
    Secret(Option<Seq<char>>),
    Answer(Seq<char>),
    Confirmed(bool),
}

/// A [`SessionAction`] as contracts speak of it.
pub enum SessionActionView {
    Connect { address: Seq<char> },
    Handshake,
    AuthKey { user: Seq<char>, key_path: Seq<char>, passphrase: Option<Seq<char>> },
    AskPassphrase,
    FetchSecret { alias: Seq<char> },
    AuthPassword { user: Seq<char>, password: Seq<char> },
    AskPassword { connection: Seq<char> },
    AskToPersist,
    Persist { alias: Seq<char>, secret: Seq<char> },
    Finish,
    Abort { error: ErrorKind, close_connection: bool },
}

/// How far the building of a session has come: the work it waits for, or
/// how it ended.
pub enum Stage {
    Connecting,
    Handshaking,
    TryingKey { key_path: Seq<char> },
    AskingPassphrase { key_path: Seq<char> },
    TryingPassphrase,
    FetchingSecret,
    TryingStored,
    AskingPassword,
    TryingEntered { password: Seq<char> },
    AskingToPersist { password: Seq<char> },
    Persisting,
    Done,
    Failed { error: ErrorKind, close_connection: bool },
}

/// A session that is being built, as contracts speak of it: what it is
/// built for, and how far it has come.
pub struct SessionView {
    pub alias: Seq<char>,
    pub connection: Seq<char>,
    pub user: Seq<char>,
    pub host: Seq<char>,
    pub port: u16,
    pub identity: Option<Seq<char>>,
    pub stage: Stage,
}

impl View for SessionEvent {
    type V = SessionEventView;

    open spec fn view(&self) -> SessionEventView {
        match self {
            SessionEvent::Done => SessionEventView::Done,
            SessionEvent::Failed { reason } => SessionEventView::Failed { reason: reason@ },
            SessionEvent::Secret(secret) => SessionEventView::Secret(secret.deep_view()),
            SessionEvent::Answer(text) => SessionEventView::Answer(text@),
            SessionEvent::Confirmed(yes) => SessionEventView::Confirmed(*yes),
        }
    }
}

impl View for SessionAction {
    type V = SessionActionView;

    open spec fn view(&self) -> SessionActionView {
        match self {
            SessionAction::Connect { address } => SessionActionView::Connect { address: address@ },
            SessionAction::Handshake => SessionActionView::Handshake,
            SessionAction::AuthKey { user, key_path, passphrase } => SessionActionView::AuthKey {
                user: user@,
                key_path: key_path@,
                passphrase: passphrase.deep_view(),
            },
            SessionAction::AskPassphrase => SessionActionView::AskPassphrase,
            SessionAction::FetchSecret { alias } => SessionActionView::FetchSecret {
                alias: alias@,
            },
            SessionAction::AuthPassword { user, password } => SessionActionView::AuthPassword {
                user: user@,
                password: password@,
            },
            SessionAction::AskPassword { connection } => SessionActionView::AskPassword {
                connection: connection@,
            },
            SessionAction::AskToPersist => SessionActionView::AskToPersist,
            SessionAction::Persist { alias, secret } => SessionActionView::Persist {
                alias: alias@,
                secret: secret@,
            },
            SessionAction::Finish => SessionActionView::Finish,
            SessionAction::Abort { error, close_connection } => SessionActionView::Abort {
                error: error@,
                close_connection: *close_connection,
            },
        }
    }
}

/// The word in a server's answer that tells of a key locked by a
/// passphrase.
pub open spec fn passphrase_word() -> Seq<char> {
    "passphrase"@
}

/// Why the work failed that `e` reports. An event that is no answer to what
/// was asked counts as a failure of its own.
pub open spec fn fault(e: SessionEventView) -> Seq<char> {
    match e {
        SessionEventView::Failed { reason } => reason,
        _ => "unexpected event"@,
    }
}

/// The error that a failure at `s` comes to, for the reason `reason`.
pub open spec fn failure(s: SessionView, reason: Seq<char>) -> ErrorKind {
    match s.stage {
        Stage::Connecting => ErrorKind::ConnectFailed {
            address: address_of(s.host, s.port),
            reason,
        },
        Stage::Handshaking => ErrorKind::HandshakeFailed { reason },
        Stage::AskingToPersist { .. } | Stage::Persisting => ErrorKind::Other { reason },
        _ => ErrorKind::AuthFailed { reason },
    }
}

/// A connection is open while the session stands at `stage`. For a session
/// that has failed: one was open when it failed.
pub open spec fn connected(stage: Stage) -> bool {
    match stage {
        Stage::Connecting => false,
        Stage::Failed { close_connection, .. } => close_connection,
        _ => true,
    }
}

/// Giving up at `s` for the reason `reason`.
pub open spec fn give_up(s: SessionView, reason: Seq<char>) -> (SessionView, SessionActionView) {
    let error = failure(s, reason);
    let close_connection = connected(s.stage);
    (
        SessionView { stage: Stage::Failed { error, close_connection }, ..s },
        SessionActionView::Abort { error, close_connection },
    )
}

/// The session is authenticated and handed on.
pub open spec fn finish(s: SessionView) -> (SessionView, SessionActionView) {
    (SessionView { stage: Stage::Done, ..s }, SessionActionView::Finish)
}

/// The first attempt to authenticate once the handshake is done: with the
/// key where an identity file was given, else by way of the vault.
pub open spec fn begin_auth(s: SessionView) -> (SessionView, SessionActionView) {
    match s.identity {
        Some(key_path) => (
            SessionView { stage: Stage::TryingKey { key_path }, ..s },
            SessionActionView::AuthKey { user: s.user, key_path, passphrase: None },
        ),
        None => (
            SessionView { stage: Stage::FetchingSecret, ..s },
            SessionActionView::FetchSecret { alias: s.alias },
        ),
    }
}

/// The user is asked for the password.
pub open spec fn ask_password(s: SessionView) -> (SessionView, SessionActionView) {
    (
        SessionView { stage: Stage::AskingPassword, ..s },
        SessionActionView::AskPassword { connection: s.connection },
    )
}

/// One step of the session builder: where it stands after the event `e`
/// reached it at `s`, and what it asks for next.
pub open spec fn session_step(s: SessionView, e: SessionEventView) -> (
    SessionView,
    SessionActionView,
) {
    match (s.stage, e) {
        (Stage::Connecting, SessionEventView::Done) => (
            SessionView { stage: Stage::Handshaking, ..s },
            SessionActionView::Handshake,
        ),
        (Stage::Handshaking, SessionEventView::Done) => begin_auth(s),
        (Stage::TryingKey { .. }, SessionEventView::Done) => finish(s),
        (Stage::TryingKey { key_path }, SessionEventView::Failed { reason }) => if contains_text(
            reason,
            passphrase_word(),
        ) {
            (
                SessionView { stage: Stage::AskingPassphrase { key_path }, ..s },
                SessionActionView::AskPassphrase,
            )
        } else {
            give_up(s, reason)
        },
        (Stage::AskingPassphrase { key_path }, SessionEventView::Answer(passphrase)) => (
            SessionView { stage: Stage::TryingPassphrase, ..s },
            SessionActionView::AuthKey { user: s.user, key_path, passphrase: Some(passphrase) },
        ),
        (Stage::TryingPassphrase, SessionEventView::Done) => finish(s),
        (Stage::FetchingSecret, SessionEventView::Secret(Some(secret))) => (
            SessionView { stage: Stage::TryingStored, ..s },
            SessionActionView::AuthPassword { user: s.user, password: secret },
        ),
        (Stage::FetchingSecret, SessionEventView::Secret(None)) => ask_password(s),
        (Stage::FetchingSecret, SessionEventView::Failed { .. }) => ask_password(s),
        (Stage::TryingStored, SessionEventView::Done) => finish(s),
        (Stage::AskingPassword, SessionEventView::Answer(password)) => (
            SessionView { stage: Stage::TryingEntered { password }, ..s },
            SessionActionView::AuthPassword { user: s.user, password },
        ),
        (Stage::TryingEntered { password }, SessionEventView::Done) => (
            SessionView { stage: Stage::AskingToPersist { password }, ..s },
            SessionActionView::AskToPersist,
        ),
        (Stage::AskingToPersist { password }, SessionEventView::Confirmed(yes)) => if yes {
            (
                SessionView { stage: Stage::Persisting, ..s },
                SessionActionView::Persist { alias: s.alias, secret: password },
            )
        } else {
            finish(s)
        },
        (Stage::Persisting, SessionEventView::Done) => finish(s),
        (Stage::Done, _) => (s, SessionActionView::Finish),
        (Stage::Failed { error, close_connection }, _) => (
            s,
            SessionActionView::Abort { error, close_connection },
        ),
        _ => give_up(s, fault(e)),
    }
}

/// Where the building of a session for `alias` starts, given what the
/// store binds: with the connection to the host that the alias stands for,
/// or with the end, where the store has no such alias or binds it to what
/// is no connection string.
pub open spec fn session_start(
    store: Map<Seq<char>, Seq<char>>,
    alias: Seq<char>,
    port: u16,
    identity: Option<Seq<char>>,
) -> (SessionView, SessionActionView) {
    let nothing = Seq::<char>::empty();
    if !store.contains_key(alias) {
        let error = ErrorKind::AliasNotFound { alias };
        (
            SessionView {
                alias,
                connection: nothing,
                user: nothing,
                host: nothing,
                port,
                identity,
                stage: Stage::Failed { error, close_connection: false },
            },
            SessionActionView::Abort { error, close_connection: false },
        )
    } else {
        let connection = store[alias];
        match target_of(connection) {
            None => {
                let error = ErrorKind::InvalidConnectionString { connection };
                (
                    SessionView {
                        alias,
                        connection,
                        user: nothing,
                        host: nothing,
                        port,
                        identity,
                        stage: Stage::Failed { error, close_connection: false },
                    },
                    SessionActionView::Abort { error, close_connection: false },
                )
            },
            Some((user, host)) => (
                SessionView {
                    alias,
                    connection,
                    user,
                    host,
                    port,
                    identity,
                    stage: Stage::Connecting,
                },
                SessionActionView::Connect { address: address_of(host, port) },
            ),
        }
    }
}

/// A session that is being built.
pub struct SessionBuilder {
    alias: String,
    connection: String,
    target: ConnectionTarget,
    identity: Option<String>,
    phase: Phase,
}

enum Phase {
    Connecting,
    Handshaking,
    TryingKey { key_path: String },
    AskingPassphrase { key_path: String },
    TryingPassphrase,
    FetchingSecret,
    TryingStored,
    AskingPassword,
    TryingEntered { password: String },
    AskingToPersist { password: String },
    Persisting,
    Done,
    Failed { error: RsshError, close_connection: bool },
}

impl Phase {
    spec fn stage(self) -> Stage {
        match self {
            Phase::Connecting => Stage::Connecting,
            Phase::Handshaking => Stage::Handshaking,
            Phase::TryingKey { key_path } => Stage::TryingKey { key_path: key_path@ },
            Phase::AskingPassphrase { key_path } => Stage::AskingPassphrase { key_path: key_path@ },
            Phase::TryingPassphrase => Stage::TryingPassphrase,
            Phase::FetchingSecret => Stage::FetchingSecret,
            Phase::TryingStored => Stage::TryingStored,
            Phase::AskingPassword => Stage::AskingPassword,
            Phase::TryingEntered { password } => Stage::TryingEntered { password: password@ },
            Phase::AskingToPersist { password } => Stage::AskingToPersist { password: password@ },
            Phase::Persisting => Stage::Persisting,
            Phase::Done => Stage::Done,
            Phase::Failed { error, close_connection } => Stage::Failed {
                error: error@,
                close_connection,
            },
        }
    }
}

impl View for SessionBuilder {
    type V = SessionView;

    closed spec fn view(&self) -> SessionView {
        SessionView {
            alias: self.alias@,
            connection: self.connection@,
            user: self.target.user@,
            host: self.target.host@,
            port: self.target.port,
            identity: self.identity.deep_view(),
            stage: self.phase.stage(),
        }
    }
}

fn own_text(text: Option<&str>) -> (owned: Option<String>)
    ensures
        owned.deep_view() == text.deep_view(),
{
    match text {
        Some(t) => Some(t.to_owned()),
        None => None,
    }
}

/// The reason that an event gives for a failure.
fn fault_of(event: SessionEvent) -> (reason: String)
    ensures
        reason@ == fault(event@),
{
    match event {
        SessionEvent::Failed { reason } => reason,
        _ => "unexpected event".to_owned(),
    }
}

/// Starts building a session for `alias`: looks the alias up in `config`,
/// reads the connection string it stands for, and asks for the connection
/// to its host on `port`. With `identity_path` the session will
/// authenticate with that private key, without it with a password.
///
/// Where `config` holds no such alias, or what it stands for is no
/// connection string, nothing is asked for but to give up.
pub fn create_session(config: &Config, alias: &str, port: u16, identity_path: Option<&str>) -> (start:
    (SessionBuilder, SessionAction))
    ensures
        (start.0@, start.1@) == session_start(config@, alias@, port, identity_path.deep_view()),
{
    let identity = own_text(identity_path);
    let connection = match config.get(alias) {
        Some(connection) => connection.clone(),
        None => {
            let error = RsshError::AliasNotFound { alias: alias.to_owned() };
            let builder = SessionBuilder {
                alias: alias.to_owned(),
                connection: String::new(),
                target: ConnectionTarget { user: String::new(), host: String::new(), port },
                identity,
                phase: Phase::Failed { error: error.clone(), close_connection: false },
            };
            return (builder, SessionAction::Abort { error, close_connection: false });
        },
    };
    match ConnectionTarget::parse(connection.as_str(), port) {
        Err(error) => {
            let builder = SessionBuilder {
                alias: alias.to_owned(),
                connection,
                target: ConnectionTarget { user: String::new(), host: String::new(), port },
                identity,
                phase: Phase::Failed { error: error.clone(), close_connection: false },
            };
            (builder, SessionAction::Abort { error, close_connection: false })
        },
        Ok(target) => {
            let address = target.address();
            let builder = SessionBuilder {
                alias: alias.to_owned(),
                connection,
                target,
                identity,
                phase: Phase::Connecting,
            };
            (builder, SessionAction::Connect { address })
        },
    }
}

impl SessionBuilder {
    /// The alias that the session is built for.
    pub fn alias(&self) -> (alias: &String)
        ensures
            alias@ == self@.alias,
    {
        &self.alias
    }

    /// The user to log in as. Empty where the session could not start.
    pub fn user(&self) -> (user: &String)
        ensures
            user@ == self@.user,
    {
        &self.target.user
    }

    /// The host to log in at. Empty where the session could not start.
    pub fn host(&self) -> (host: &String)
        ensures
            host@ == self@.host,
    {
        &self.target.host
    }

    pub fn port(&self) -> (port: u16)
        ensures
            port == self@.port,
    {
        self.target.port
    }

    /// Whether the session is authenticated.
    pub fn is_done(&self) -> (done: bool)
        ensures
            done == (self@.stage is Done),
    {
        match self.phase {
            Phase::Done => true,
            _ => false,
        }
    }

    /// Whether the building has come to its end, one way or the other.
    pub fn is_finished(&self) -> (finished: bool)
        ensures
            finished == (self@.stage is Done || self@.stage is Failed),
    {
        match self.phase {
            Phase::Done | Phase::Failed { .. } => true,
            _ => false,
        }
    }

    fn is_connected(&self) -> (open: bool)
        ensures
            open == connected(self@.stage),
    {
        match self.phase {
            Phase::Connecting => false,
            Phase::Failed { close_connection, .. } => close_connection,
            _ => true,
        }
    }

    fn give_up(&mut self, reason: String) -> (action: SessionAction)
        ensures
            (final(self)@, action@) == give_up(old(self)@, reason@),
    {
        let error = match self.phase {
            Phase::Connecting => RsshError::ConnectFailed {
                address: self.target.address(),
                reason,
            },
            Phase::Handshaking => RsshError::HandshakeFailed { reason },
            Phase::AskingToPersist { .. } | Phase::Persisting => RsshError::Other { reason },
            _ => RsshError::AuthFailed { reason },
        };
        let close_connection = self.is_connected();
        self.phase = Phase::Failed { error: error.clone(), close_connection };
        SessionAction::Abort { error, close_connection }
    }

    fn finish(&mut self) -> (action: SessionAction)
        ensures
            (final(self)@, action@) == finish(old(self)@),
    {
        self.phase = Phase::Done;
        SessionAction::Finish
    }

    fn begin_auth(&mut self) -> (action: SessionAction)
        ensures
            (final(self)@, action@) == begin_auth(old(self)@),
    {
        match &self.identity {
            Some(key_path) => {
                let action = SessionAction::AuthKey {
                    user: self.target.user.clone(),
                    key_path: key_path.clone(),
                    passphrase: None,
                };
                self.phase = Phase::TryingKey { key_path: key_path.clone() };
                action
            },
            None => {
                self.phase = Phase::FetchingSecret;
                SessionAction::FetchSecret { alias: self.alias.clone() }
            },
        }
    }

    fn ask_password(&mut self) -> (action: SessionAction)
        ensures
            (final(self)@, action@) == ask_password(old(self)@),
    {
        self.phase = Phase::AskingPassword;
        SessionAction::AskPassword { connection: self.connection.clone() }
    }

    /// Takes in what happened and says what is to be done next.
    ///
    /// An event that is no answer to the last request ends the building
    /// like a failure of that request.
    pub fn step(&mut self, event: SessionEvent) -> (action: SessionAction)
        ensures
            (final(self)@, action@) == session_step(old(self)@, event@),
    {
        match &self.phase {
            Phase::Done => {
                return SessionAction::Finish;
            },
            Phase::Failed { error, close_connection } => {
                return SessionAction::Abort {
                    error: error.clone(),
                    close_connection: *close_connection,
                };
            },
            _ => {},
        }
        match (&self.phase, event) {
            (Phase::Connecting, SessionEvent::Done) => {
                self.phase = Phase::Handshaking;
                SessionAction::Handshake
            },
            (Phase::Handshaking, SessionEvent::Done) => self.begin_auth(),
            (Phase::TryingKey { .. }, SessionEvent::Done) => self.finish(),
            (Phase::TryingKey { key_path }, SessionEvent::Failed { reason }) => {
                if mentions(reason.as_str(), "passphrase") {
                    let key_path = key_path.clone();
                    self.phase = Phase::AskingPassphrase { key_path };
                    SessionAction::AskPassphrase
                } else {
                    self.give_up(reason)
                }
            },
            (Phase::AskingPassphrase { key_path }, SessionEvent::Answer(passphrase)) => {
                let action = SessionAction::AuthKey {
                    user: self.target.user.clone(),
                    key_path: key_path.clone(),
                    passphrase: Some(passphrase),
                };
                self.phase = Phase::TryingPassphrase;
                action
            },
            (Phase::TryingPassphrase, SessionEvent::Done) => self.finish(),
            (Phase::FetchingSecret, SessionEvent::Secret(Some(secret))) => {
                self.phase = Phase::TryingStored;
                SessionAction::AuthPassword { user: self.target.user.clone(), password: secret }
            },
            (Phase::FetchingSecret, SessionEvent::Secret(None)) => self.ask_password(),
            (Phase::FetchingSecret, SessionEvent::Failed { .. }) => self.ask_password(),
            (Phase::TryingStored, SessionEvent::Done) => self.finish(),
            (Phase::AskingPassword, SessionEvent::Answer(password)) => {
                let action = SessionAction::AuthPassword {
                    user: self.target.user.clone(),
                    password: password.clone(),
                };
                self.phase = Phase::TryingEntered { password };
                action
            },
            (Phase::TryingEntered { password }, SessionEvent::Done) => {
                let password = password.clone();
                self.phase = Phase::AskingToPersist { password };
                SessionAction::AskToPersist
            },
            (Phase::AskingToPersist { password }, SessionEvent::Confirmed(yes)) => {
                if yes {
                    let action = SessionAction::Persist {
                        alias: self.alias.clone(),
                        secret: password.clone(),
                    };
                    self.phase = Phase::Persisting;
                    action
                } else {
                    self.finish()
                }
            },
            (Phase::Persisting, SessionEvent::Done) => self.finish(),
            (_, event) => {
                let reason = fault_of(event);
                self.give_up(reason)
            },
        }
    }
}

} // verus!
