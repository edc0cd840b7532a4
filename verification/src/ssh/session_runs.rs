//! What holds of every step and of whole runs of a session builder,
//! whatever the outside reports.

use vstd::prelude::*;
use crate::error::ErrorKind;
use crate::ssh::session::{
    connected,
    session_start,
    session_step,
    SessionActionView,
    SessionEventView,
    SessionView,
    Stage,
};
use crate::target::{address_of, host_of, target_of, user_of};

verus! {

/// A run: where the builder stands after `events` reached it one by one at
/// `s`, and what it asked for on the way, in order.
pub open spec fn session_run(s: SessionView, events: Seq<SessionEventView>) -> (
    SessionView,
    Seq<SessionActionView>,
)
    decreases events.len(),
{
    if events.len() == 0 {
        (s, Seq::empty())
    } else {
        let before = session_run(s, events.drop_last());
        let last = session_step(before.0, events.last());
        (last.0, before.1.push(last.1))
    }
}

/// How many of `asked` are of the kind `wanted`.
pub open spec fn count_asked(
    asked: Seq<SessionActionView>,
    wanted: spec_fn(SessionActionView) -> bool,
) -> nat
    decreases asked.len(),
{
    if asked.len() == 0 {
        0
    } else if wanted(asked.last()) {
        count_asked(asked.drop_last(), wanted) + 1
    } else {
        count_asked(asked.drop_last(), wanted)
    }
}

/// The building has come to its end at `stage`.
pub open spec fn ended(stage: Stage) -> bool {
    stage is Done || stage is Failed
}

/// The server has accepted the user at `stage`.
pub open spec fn authenticated(stage: Stage) -> bool {
    stage is AskingToPersist || stage is Persisting || stage is Done
}

/// An attempt to authenticate is under way at `stage`.
pub open spec fn attempting(stage: Stage) -> bool {
    stage is TryingKey || stage is TryingPassphrase || stage is TryingStored || stage
        is TryingEntered
}

/// How many reports the builder can still take in at `stage` before it has
/// come to its end.
pub open spec fn reports_left(stage: Stage) -> nat {
    match stage {
        Stage::Connecting => 7,
        Stage::Handshaking => 6,
        Stage::FetchingSecret => 5,
        Stage::AskingPassword => 4,
        Stage::TryingEntered { .. } => 3,
        Stage::AskingToPersist { .. } => 2,
        Stage::Persisting => 1,
        Stage::TryingStored => 1,
        Stage::TryingKey { .. } => 3,
        Stage::AskingPassphrase { .. } => 2,
        Stage::TryingPassphrase => 1,
        Stage::Done => 0,
        Stage::Failed { .. } => 0,
    }
}

/// How often the user can still be asked for a passphrase from `stage` on.
pub open spec fn passphrase_prompts_left(stage: Stage) -> nat {
    match stage {
        Stage::Connecting | Stage::Handshaking | Stage::TryingKey { .. } => 1,
        _ => 0,
    }
}

/// How often the user can still be asked for a password from `stage` on.
pub open spec fn password_prompts_left(stage: Stage) -> nat {
    match stage {
        Stage::Connecting | Stage::Handshaking | Stage::FetchingSecret => 1,
        _ => 0,
    }
}

/// How many attempts to authenticate can still be made from `stage` on.
pub open spec fn attempts_left(stage: Stage) -> nat {
    match stage {
        Stage::Connecting | Stage::Handshaking => 2,
        Stage::TryingKey { .. } | Stage::AskingPassphrase { .. } => 1,
        Stage::FetchingSecret | Stage::AskingPassword => 1,
        _ => 0,
    }
}

pub open spec fn is_passphrase_prompt(action: SessionActionView) -> bool {
    action is AskPassphrase
}

pub open spec fn is_password_prompt(action: SessionActionView) -> bool {
    action is AskPassword
}

pub open spec fn is_attempt(action: SessionActionView) -> bool {
    action is AuthKey || action is AuthPassword
}

pub open spec fn is_prompt(action: SessionActionView) -> bool {
    action is AskPassphrase || action is AskPassword || action is AskToPersist
}

/// One if `yes`, else zero.
pub open spec fn one_if(yes: bool) -> nat {
    if yes {
        1
    } else {
        0
    }
}

/// Every report brings the builder nearer to its end, and there it stays.
pub proof fn lemma_step_nears_end(s: SessionView, e: SessionEventView)
    ensures
        !ended(s.stage) ==> reports_left(session_step(s, e).0.stage) < reports_left(s.stage),
        ended(s.stage) ==> session_step(s, e).0 == s,
        session_step(s, e).0.alias == s.alias,
        session_step(s, e).0.connection == s.connection,
        session_step(s, e).0.user == s.user,
        session_step(s, e).0.host == s.host,
        session_step(s, e).0.port == s.port,
        session_step(s, e).0.identity == s.identity,
{
}

/// A step that asks for a passphrase, a password or an attempt to
/// authenticate takes it from what is left of each.
pub proof fn lemma_step_spends(s: SessionView, e: SessionEventView)
    ensures
        one_if(is_passphrase_prompt(session_step(s, e).1)) + passphrase_prompts_left(
            session_step(s, e).0.stage,
        ) <= passphrase_prompts_left(s.stage),
        one_if(is_password_prompt(session_step(s, e).1)) + password_prompts_left(
            session_step(s, e).0.stage,
        ) <= password_prompts_left(s.stage),
        one_if(is_attempt(session_step(s, e).1)) + attempts_left(session_step(s, e).0.stage)
            <= attempts_left(s.stage),
{
}

/// The server has accepted the user only where an attempt to authenticate
/// was reported done; the session is handed on only where the server has
/// accepted the user, and just when the builder comes to stand at `Done`.
pub proof fn lemma_finish_means_authenticated(s: SessionView, e: SessionEventView)
    ensures
        authenticated(session_step(s, e).0.stage) && !authenticated(s.stage) ==> attempting(
            s.stage,
        ) && e is Done,
        session_step(s, e).0.stage is Done && !(s.stage is Done) ==> e is Done && (attempting(
            s.stage,
        ) || s.stage is Persisting) || (s.stage is AskingToPersist && e
            == SessionEventView::Confirmed(false)),
        session_step(s, e).1 is Finish <==> session_step(s, e).0.stage is Done,
{
}

/// A password goes to the vault only where the user said yes when asked,
/// and it is then the password that the server has just accepted, filed
/// under the alias of the session.
pub proof fn lemma_persist_needs_consent(s: SessionView, e: SessionEventView)
    ensures
        session_step(s, e).1 is Persist ==> {
            &&& s.stage is AskingToPersist
            &&& e == SessionEventView::Confirmed(true)
            &&& session_step(s, e).1 == (SessionActionView::Persist {
                alias: s.alias,
                secret: s.stage->AskingToPersist_password,
            })
        },
        session_step(s, e).0.stage is AskingToPersist && !(s.stage is AskingToPersist) ==> {
            &&& s.stage is TryingEntered
            &&& e is Done
            &&& session_step(s, e).0.stage->AskingToPersist_password
                == s.stage->TryingEntered_password
        },
{
}

/// Giving up names whether a connection has to be closed: one has, unless
/// the builder gave up before a connection was reported open.
pub proof fn lemma_abort_closes_connection(s: SessionView, e: SessionEventView)
    ensures
        session_step(s, e).1 is Abort <==> session_step(s, e).0.stage is Failed,
        session_step(s, e).1 is Abort ==> session_step(s, e).1->close_connection == connected(
            s.stage,
        ),
        session_step(s, e).0.stage is Failed ==> session_step(s, e).1 == (SessionActionView::Abort {
            error: session_step(s, e).0.stage->error,
            close_connection: session_step(s, e).0.stage->close_connection,
        }),
        connected(session_step(s, e).0.stage) && !connected(s.stage) ==> s.stage is Connecting
            && e is Done,
{
}

/// A stored password that the server turns down is not made up for by a
/// prompt: the building ends with `AuthFailed` and the server's reason.
pub proof fn lemma_stale_secret_fails(s: SessionView, reason: Seq<char>)
    requires
        s.stage is TryingStored,
    ensures
        session_step(s, SessionEventView::Failed { reason }).1 == (SessionActionView::Abort {
            error: ErrorKind::AuthFailed { reason },
            close_connection: true,
        }),
{
}

/// A run that goes on by one event.
pub proof fn lemma_run_goes_on(s: SessionView, events: Seq<SessionEventView>, e: SessionEventView)
    ensures
        session_run(s, events.push(e)).0 == session_step(session_run(s, events).0, e).0,
        session_run(s, events.push(e)).1 == session_run(s, events).1.push(
            session_step(session_run(s, events).0, e).1,
        ),
{
    assert(events.push(e).drop_last() =~= events);
}

/// Whatever is reported, and however often: over a whole run the user is
/// asked for a passphrase at most once and for a password at most once,
/// and no more than two attempts to authenticate are made.
pub proof fn lemma_run_spends(s: SessionView, events: Seq<SessionEventView>)
    ensures
        count_asked(session_run(s, events).1, |a: SessionActionView| is_passphrase_prompt(a))
            + passphrase_prompts_left(session_run(s, events).0.stage) <= passphrase_prompts_left(
            s.stage,
        ) <= 1,
        count_asked(session_run(s, events).1, |a: SessionActionView| is_password_prompt(a))
            + password_prompts_left(session_run(s, events).0.stage) <= password_prompts_left(
            s.stage,
        ) <= 1,
        count_asked(session_run(s, events).1, |a: SessionActionView| is_attempt(a)) + attempts_left(
            session_run(s, events).0.stage,
        ) <= attempts_left(s.stage) <= 2,
    decreases events.len(),
{
    if events.len() > 0 {
        lemma_run_spends(s, events.drop_last());
        let before = session_run(s, events.drop_last());
        let run = session_run(s, events);
        assert(run.1.drop_last() == before.1);
        lemma_step_spends(before.0, events.last());
    }
}

/// After seven reports at the latest, the session is authenticated or the
/// building has been given up; and once ended it stays as it ended.
pub proof fn lemma_run_ends(s: SessionView, events: Seq<SessionEventView>)
    ensures
        reports_left(session_run(s, events).0.stage) + events.len() <= reports_left(s.stage)
            || ended(session_run(s, events).0.stage),
        events.len() >= reports_left(s.stage) ==> ended(session_run(s, events).0.stage),
        reports_left(s.stage) <= 7,
        ended(s.stage) ==> session_run(s, events).0 == s,
    decreases events.len(),
{
    if events.len() > 0 {
        lemma_run_ends(s, events.drop_last());
        lemma_step_nears_end(session_run(s, events.drop_last()).0, events.last());
    }
}

/// With a secret in the vault the user is asked nothing: the connection,
/// the handshake, the look into the vault, one attempt with the stored
/// secret for the user of the connection string, and the session is handed
/// on.
pub proof fn lemma_stored_secret_asks_nothing(
    store: Map<Seq<char>, Seq<char>>,
    alias: Seq<char>,
    port: u16,
    secret: Seq<char>,
)
    requires
        store.contains_key(alias),
        target_of(store[alias]) is Some,
    ensures
        ({
            let start = session_start(store, alias, port, None);
            let events = seq![
                SessionEventView::Done,
                SessionEventView::Done,
                SessionEventView::Secret(Some(secret)),
                SessionEventView::Done,
            ];
            let run = session_run(start.0, events);
            &&& start.1 == (SessionActionView::Connect {
                address: address_of(host_of(store[alias]), port),
            })
            &&& run.0.stage is Done
            &&& run.1 == seq![
                SessionActionView::Handshake,
                SessionActionView::FetchSecret { alias },
                SessionActionView::AuthPassword { user: user_of(store[alias]), password: secret },
                SessionActionView::Finish,
            ]
            &&& count_asked(run.1, |a: SessionActionView| is_prompt(a)) == 0
        }),
{
    let start = session_start(store, alias, port, None);
    let user = user_of(store[alias]);
    let e0 = Seq::<SessionEventView>::empty();
    let e1 = e0.push(SessionEventView::Done);
    let e2 = e1.push(SessionEventView::Done);
    let e3 = e2.push(SessionEventView::Secret(Some(secret)));
    let e4 = e3.push(SessionEventView::Done);
    lemma_run_goes_on(start.0, e0, SessionEventView::Done);
    lemma_run_goes_on(start.0, e1, SessionEventView::Done);
    lemma_run_goes_on(start.0, e2, SessionEventView::Secret(Some(secret)));
    lemma_run_goes_on(start.0, e3, SessionEventView::Done);
    let events = seq![
        SessionEventView::Done,
        SessionEventView::Done,
        SessionEventView::Secret(Some(secret)),
        SessionEventView::Done,
    ];
    assert(events =~= e4);
    let run = session_run(start.0, events);
    let a0 = Seq::<SessionActionView>::empty();
    let a1 = a0.push(SessionActionView::Handshake);
    let a2 = a1.push(SessionActionView::FetchSecret { alias });
    let a3 = a2.push(SessionActionView::AuthPassword { user, password: secret });
    let a4 = a3.push(SessionActionView::Finish);
    assert(run.1 == a4);
    let asked = seq![
        SessionActionView::Handshake,
        SessionActionView::FetchSecret { alias },
        SessionActionView::AuthPassword { user, password: secret },
        SessionActionView::Finish,
    ];
    assert(asked =~= a4);
    let wanted = |a: SessionActionView| is_prompt(a);
    assert(a4.drop_last() =~= a3);
    assert(a3.drop_last() =~= a2);
    assert(a2.drop_last() =~= a1);
    assert(a1.drop_last() =~= a0);
    assert(count_asked(a0, wanted) == 0);
    assert(count_asked(a1, wanted) == 0);
    assert(count_asked(a2, wanted) == 0);
    assert(count_asked(a3, wanted) == 0);
    assert(count_asked(a4, wanted) == 0);
}

} // verus!
