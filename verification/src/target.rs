//! Connection targets: who to log in as, where, and on which port.
//!
//! A stored connection string reads `user@host`: exactly one `@`, with
//! something on both sides of it.

use vstd::prelude::*;
use crate::error::{ErrorKind, RsshError};
use crate::text::{chars_of, decimal, decimal_text};

verus! {

/// How many `@` stand in `s`.
pub open spec fn count_at(s: Seq<char>) -> nat
    decreases s.len(),
{
    if s.len() == 0 {
        0
    } else if s.last() == '@' {
        count_at(s.drop_last()) + 1
    } else {
        count_at(s.drop_last())
    }
}

/// Where the first `@` of `s` stands, or the length of `s` where it holds
/// none.
pub open spec fn first_at(s: Seq<char>) -> int
    decreases s.len(),
{
    if s.len() == 0 {
        0
    } else if s[0] == '@' {
        0
    } else {
        1 + first_at(s.drop_first())
    }
}

/// The user and the host that the connection string `s` names: what stands
/// before and behind its `@`, if `s` holds exactly one `@` and neither
/// side is empty.
pub open spec fn target_of(s: Seq<char>) -> Option<(Seq<char>, Seq<char>)> {
    let at = first_at(s);
    if count_at(s) == 1 && 0 < at && at + 1 < s.len() {
        Some((s.subrange(0, at), s.subrange(at + 1, s.len() as int)))
    } else {
        None
    }
}

/// The user that the connection string `s` names, where it names one.
pub open spec fn user_of(s: Seq<char>) -> Seq<char> {
    match target_of(s) {
        Some((user, _)) => user,
        None => Seq::empty(),
    }
}

/// The host that the connection string `s` names, where it names one.
pub open spec fn host_of(s: Seq<char>) -> Seq<char> {
    match target_of(s) {
        Some((_, host)) => host,
        None => Seq::empty(),
    }
}

/// The address to connect to: the host, a colon, the port in decimal.
pub open spec fn address_of(host: Seq<char>, port: u16) -> Seq<char> {
    host + seq![':'] + decimal(port as nat)
}

/// Who to log in as, where, and on which port.
#[derive(Debug)]
pub struct ConnectionTarget {
    pub user: String,
    pub host: String,
    pub port: u16,
}

/// A [`ConnectionTarget`] as contracts speak of it.
pub struct TargetView {
    pub user: Seq<char>,
    pub host: Seq<char>,
    pub port: u16,
}

impl View for ConnectionTarget {
    type V = TargetView;

    open spec fn view(&self) -> TargetView {
        TargetView { user: self.user@, host: self.host@, port: self.port }
    }
}

impl Clone for ConnectionTarget {
    fn clone(&self) -> (copy: Self)
        ensures
            copy == *self,
    {
        ConnectionTarget { user: self.user.clone(), host: self.host.clone(), port: self.port }
    }
}

pub proof fn lemma_first_at(s: Seq<char>)
    ensures
        0 <= first_at(s) <= s.len(),
        first_at(s) < s.len() ==> s[first_at(s)] == '@',
        forall|i: int| 0 <= i < first_at(s) ==> s[i] != '@',
    decreases s.len(),
{
    if s.len() > 0 && s[0] != '@' {
        let rest = s.drop_first();
        lemma_first_at(rest);
        assert forall|i: int| 0 <= i < first_at(s) implies s[i] != '@' by {
            if i > 0 {
                assert(s[i] == rest[i - 1]);
            }
        }
    }
}

/// A text holds no `@` just when the count of them is zero.
pub proof fn lemma_count_at_zero(s: Seq<char>)
    ensures
        count_at(s) == 0 <==> !s.contains('@'),
    decreases s.len(),
{
    if s.len() > 0 {
        let rest = s.drop_last();
        lemma_count_at_zero(rest);
        if s.contains('@') {
            let i = choose|i: int| 0 <= i < s.len() && s[i] == '@';
            if i < rest.len() {
                assert(rest[i] == '@');
            }
        }
        if rest.contains('@') {
            let i = choose|i: int| 0 <= i < rest.len() && rest[i] == '@';
            assert(s[i] == '@');
        }
    }
}

proof fn lemma_count_at_single()
    ensures
        count_at(seq!['@']) == 1,
{
    let single = seq!['@'];
    assert(single.last() == '@');
    assert(single.drop_last() =~= Seq::<char>::empty());
    assert(count_at(single.drop_last()) == 0);
}

/// The `@` of two texts set one behind the other add up.
pub proof fn lemma_count_at_add(a: Seq<char>, b: Seq<char>)
    ensures
        count_at(a + b) == count_at(a) + count_at(b),
    decreases b.len(),
{
    if b.len() == 0 {
        assert(a + b =~= a);
    } else {
        lemma_count_at_add(a, b.drop_last());
        assert((a + b).drop_last() =~= a + b.drop_last());
    }
}

/// What `target_of` finds is the split of the string at its one `@`: user,
/// `@` and host make up the string, and neither user nor host is empty or
/// holds an `@`.
pub proof fn lemma_target_splits(s: Seq<char>)
    requires
        target_of(s) is Some,
    ensures
        ({
            let (user, host) = target_of(s)->0;
            &&& s == user + seq!['@'] + host
            &&& user.len() > 0
            &&& host.len() > 0
            &&& !user.contains('@')
            &&& !host.contains('@')
        }),
{
    let at = first_at(s);
    let (user, host) = target_of(s)->0;
    lemma_first_at(s);
    assert(s =~= user + seq!['@'] + host);
    lemma_count_at_add(user + seq!['@'], host);
    lemma_count_at_add(user, seq!['@']);
    lemma_count_at_single();
    lemma_count_at_zero(user);
    lemma_count_at_zero(host);
}

/// A user and a host, neither empty nor with an `@` in it, written as
/// `user@host`, are read back as they were.
pub proof fn lemma_target_of_joined(user: Seq<char>, host: Seq<char>)
    requires
        user.len() > 0,
        host.len() > 0,
        !user.contains('@'),
        !host.contains('@'),
    ensures
        target_of(user + seq!['@'] + host) == Some((user, host)),
{
    let s = user + seq!['@'] + host;
    lemma_count_at_add(user + seq!['@'], host);
    lemma_count_at_add(user, seq!['@']);
    lemma_count_at_single();
    lemma_count_at_zero(user);
    lemma_count_at_zero(host);
    lemma_first_at(s);
    let at = first_at(s);
    assert(s[user.len() as int] == '@');
    if at < user.len() {
        assert(user[at] == '@');
    }
    assert(at == user.len());
    assert(s.subrange(0, at) =~= user);
    assert(s.subrange(at + 1, s.len() as int) =~= host);
}

/// A string that `target_of` turns down holds no `@`, or more than one, or
/// has nothing before or behind its `@`.
pub proof fn lemma_target_refused(s: Seq<char>)
    requires
        target_of(s) is None,
    ensures
        count_at(s) != 1 || s[0] == '@' || s.last() == '@',
{
    lemma_first_at(s);
    lemma_count_at_zero(s);
    if first_at(s) == s.len() {
        // No `@` stands before the end, so there is none at all.
        assert(!s.contains('@'));
    }
}

impl ConnectionTarget {
    /// Reads the connection string `connection` and puts `port` with it.
    pub fn parse(connection: &str, port: u16) -> (parsed: Result<ConnectionTarget, RsshError>)
        ensures
            match parsed {
                Ok(target) => target_of(connection@) == Some((target.user@, target.host@))
                    && target.port == port,
                Err(error) => target_of(connection@) is None && error@
                    == (ErrorKind::InvalidConnectionString { connection: connection@ }),
            },
    {
        let v = chars_of(connection);
        let mut count: usize = 0;
        let mut at: usize = v.len();
        let mut i: usize = 0;
        while i < v.len()
            invariant
                i <= v.len(),
                v@ == connection@,
                count == count_at(v@.take(i as int)),
                count <= i,
                count == 0 ==> at == v.len() && forall|k: int| 0 <= k < i ==> v@[k] != '@',
                count > 0 ==> at < i && v@[at as int] == '@' && forall|k: int|
                    0 <= k < at ==> v@[k] != '@',
            decreases v.len() - i,
        {
            proof {
                assert(v@.take(i + 1).drop_last() =~= v@.take(i as int));
            }
            if v[i] == '@' {
                if count == 0 {
                    at = i;
                }
                count = count + 1;
            }
            i = i + 1;
        }
        proof {
            assert(v@.take(v.len() as int) =~= v@);
            lemma_first_at(v@);
            let first = first_at(v@);
            if count > 0 {
                if first < at {
                    assert(v@[first] != '@');
                }
                if at < first {
                    assert(v@[at as int] != '@');
                }
            } else if first < v.len() {
                assert(v@[first] != '@');
            }
            assert(first == at);
        }
        if count == 1 && 0 < at && at + 1 < v.len() {
            let user = connection.substring_char(0, at).to_owned();
            let host = connection.substring_char(at + 1, v.len()).to_owned();
            Ok(ConnectionTarget { user, host, port })
        } else {
            Err(RsshError::InvalidConnectionString { connection: connection.to_owned() })
        }
    }

    /// The address to connect to, as `host:port`.
    pub fn address(&self) -> (address: String)
        ensures
            address@ == address_of(self.host@, self.port),
    {
        let mut address = self.host.clone();
        proof {
            reveal_strlit(":");
        }
        address.append(":");
        assert(address@ =~= self.host@ + seq![':']);
        let port = decimal_text(self.port);
        address.append(port.as_str());
        address
    }
}

} // verus!
