//! The alias store: which connection string each alias stands for.
//!
//! The store keeps its records in the order in which their aliases first
//! came in, and holds no alias twice. Reading and writing the file that
//! keeps the store between runs is left to the caller: [`Config::save`]
//! hands out the records to write, [`Config::load`] takes what was read.

use vstd::prelude::*;
use crate::error::{ErrorKind, RsshError};
use crate::path::{join, joined};

verus! {

/// Where the store is kept, seen from the user's home directory.
pub const STORE_FILE: &'static str = ".rss_ssh/config.json";

/// One entry of the store.
#[derive(Debug)]
pub struct AliasRecord {
    pub alias: String,
    pub connection: String,
}

/// An [`AliasRecord`] as contracts speak of it.
pub struct RecordView {
    pub alias: Seq<char>,
    pub connection: Seq<char>,
}

impl View for AliasRecord {
    type V = RecordView;

    open spec fn view(&self) -> RecordView {
        RecordView { alias: self.alias@, connection: self.connection@ }
    }
}

impl Clone for AliasRecord {
    fn clone(&self) -> (copy: Self)
        ensures
            copy == *self,
    {
        AliasRecord { alias: self.alias.clone(), connection: self.connection.clone() }
    }
}

impl DeepView for AliasRecord {
    type V = RecordView;

    open spec fn deep_view(&self) -> RecordView {
        self@
    }
}

/// Where the first record of `alias` stands in `records`, or the length of
/// `records` where there is none.
pub open spec fn position(records: Seq<RecordView>, alias: Seq<char>) -> int
    decreases records.len(),
{
    if records.len() == 0 {
        0
    } else if records[0].alias == alias {
        0
    } else {
        1 + position(records.drop_first(), alias)
    }
}

/// No alias stands in two records.
pub open spec fn distinct_aliases(records: Seq<RecordView>) -> bool {
    forall|i: int, j: int|
        0 <= i < records.len() && 0 <= j < records.len() && i != j ==> records[i].alias
            != records[j].alias
}

/// The mapping that `records` write down. Where an alias stands twice, its
/// first record counts.
pub open spec fn bindings(records: Seq<RecordView>) -> Map<Seq<char>, Seq<char>> {
    Map::new(
        |alias: Seq<char>| position(records, alias) < records.len(),
        |alias: Seq<char>| records[position(records, alias)].connection,
    )
}

/// `records` with `alias` bound to `connection`: in place where the alias
/// has a record, else in a new record at the end.
pub open spec fn with_record(
    records: Seq<RecordView>,
    alias: Seq<char>,
    connection: Seq<char>,
) -> Seq<RecordView> {
    let at = position(records, alias);
    let record = RecordView { alias, connection };
    if at < records.len() {
        records.update(at, record)
    } else {
        records.push(record)
    }
}

/// `records` without the first record of `alias`.
pub open spec fn without_record(records: Seq<RecordView>, alias: Seq<char>) -> Seq<RecordView> {
    let at = position(records, alias);
    if at < records.len() {
        records.remove(at)
    } else {
        records
    }
}

/// What a store holds after it has taken in `records` one by one.
pub open spec fn loaded(records: Seq<RecordView>) -> Seq<RecordView>
    decreases records.len(),
{
    if records.len() == 0 {
        records
    } else {
        with_record(loaded(records.drop_last()), records.last().alias, records.last().connection)
    }
}

/// `position` finds the first record of the alias, and says so where there
/// is none.
pub proof fn lemma_position(records: Seq<RecordView>, alias: Seq<char>)
    ensures
        0 <= position(records, alias) <= records.len(),
        position(records, alias) < records.len() ==> records[position(records, alias)].alias
            == alias,
        forall|i: int| 0 <= i < position(records, alias) ==> records[i].alias != alias,
    decreases records.len(),
{
    if records.len() > 0 && records[0].alias != alias {
        let rest = records.drop_first();
        lemma_position(rest, alias);
        assert forall|i: int| 0 <= i < position(records, alias) implies records[i].alias
            != alias by {
            if i > 0 {
                assert(records[i] == rest[i - 1]);
            }
        }
    }
}

/// The first record of an alias stands where `position` says.
pub proof fn lemma_position_is(records: Seq<RecordView>, alias: Seq<char>, at: int)
    requires
        0 <= at <= records.len(),
        at < records.len() ==> records[at].alias == alias,
        forall|i: int| 0 <= i < at ==> records[i].alias != alias,
    ensures
        position(records, alias) == at,
{
    lemma_position(records, alias);
    let found = position(records, alias);
    if found < at {
        assert(records[found].alias != alias);
    }
}

/// Binding an alias changes the mapping at that alias and nowhere else, and
/// keeps the aliases distinct.
pub proof fn lemma_with_record(records: Seq<RecordView>, alias: Seq<char>, connection: Seq<char>)
    ensures
        bindings(with_record(records, alias, connection)) == bindings(records).insert(
            alias,
            connection,
        ),
        distinct_aliases(records) ==> distinct_aliases(with_record(records, alias, connection)),
{
    let after = with_record(records, alias, connection);
    let at = position(records, alias);
    lemma_position(records, alias);
    assert(after[at] == RecordView { alias, connection });
    assert forall|other: Seq<char>|
        position(after, other) == (if other == alias {
            at
        } else if position(records, other) < records.len() {
            position(records, other)
        } else {
            after.len() as int
        }) by {
        lemma_position(records, other);
        let found = position(records, other);
        if other == alias {
            lemma_position_is(after, other, at);
        } else if found < records.len() {
            assert(after[found].alias == other);
            assert forall|i: int| 0 <= i < found implies after[i].alias != other by {
                assert(records[i].alias != other);
            }
            lemma_position_is(after, other, found);
        } else {
            assert forall|i: int| 0 <= i < after.len() implies after[i].alias != other by {
                if i < records.len() {
                    assert(records[i].alias != other);
                }
            }
            lemma_position_is(after, other, after.len() as int);
        }
    }
    assert forall|other: Seq<char>|
        other != alias && position(records, other) < records.len() implies after[position(
            after,
            other,
        )].connection == records[position(records, other)].connection by {
        lemma_position(records, other);
    }
    assert(bindings(after) =~= bindings(records).insert(alias, connection));
    if distinct_aliases(records) {
        assert forall|i: int, j: int|
            0 <= i < after.len() && 0 <= j < after.len() && i != j implies after[i].alias
            != after[j].alias by {
            if at < records.len() {
                assert(after[i].alias == records[i].alias);
                assert(after[j].alias == records[j].alias);
            } else if i == at {
                assert(records[j].alias != alias);
            } else if j == at {
                assert(records[i].alias != alias);
            }
        }
    }
}

/// Taking the record of an alias out of records with distinct aliases takes
/// the alias out of the mapping, changes nothing else, and keeps the
/// aliases distinct.
pub proof fn lemma_without_record(records: Seq<RecordView>, alias: Seq<char>)
    requires
        distinct_aliases(records),
    ensures
        bindings(without_record(records, alias)) == bindings(records).remove(alias),
        distinct_aliases(without_record(records, alias)),
        !bindings(records).contains_key(alias) ==> without_record(records, alias) == records,
{
    let after = without_record(records, alias);
    let at = position(records, alias);
    lemma_position(records, alias);
    if at < records.len() {
        assert forall|other: Seq<char>|
            position(after, other) == (if other == alias {
                after.len() as int
            } else if position(records, other) < at {
                position(records, other)
            } else {
                position(records, other) - 1
            }) by {
            lemma_position(records, other);
            let found = position(records, other);
            if other == alias {
                assert forall|i: int| 0 <= i < after.len() implies after[i].alias != alias by {
                    if i < at {
                        assert(after[i] == records[i]);
                    } else {
                        assert(after[i] == records[i + 1]);
                    }
                }
                lemma_position_is(after, other, after.len() as int);
            } else if found < at {
                assert(after[found] == records[found]);
                assert forall|i: int| 0 <= i < found implies after[i].alias != other by {
                    assert(after[i] == records[i]);
                }
                lemma_position_is(after, other, found);
            } else {
                assert(found != at);
                if found < records.len() {
                    assert(after[found - 1] == records[found]);
                }
                assert forall|i: int| 0 <= i < found - 1 implies after[i].alias != other by {
                    if i < at {
                        assert(after[i] == records[i]);
                    } else {
                        assert(after[i] == records[i + 1]);
                    }
                }
                lemma_position_is(after, other, found - 1);
            }
        }
        assert forall|other: Seq<char>|
            other != alias && position(records, other) < records.len() implies after[position(
                after,
                other,
            )].connection == records[position(records, other)].connection by {
            lemma_position(records, other);
        }
        assert(bindings(after) =~= bindings(records).remove(alias));
        assert forall|i: int, j: int|
            0 <= i < after.len() && 0 <= j < after.len() && i != j implies after[i].alias
            != after[j].alias by {
            let ii = if i < at {
                i
            } else {
                i + 1
            };
            let jj = if j < at {
                j
            } else {
                j + 1
            };
            assert(after[i] == records[ii]);
            assert(after[j] == records[jj]);
        }
    } else {
        assert(bindings(after) =~= bindings(records).remove(alias));
    }
}

/// Records with distinct aliases bind as many aliases as there are
/// records.
pub proof fn lemma_bindings_len(records: Seq<RecordView>)
    requires
        distinct_aliases(records),
    ensures
        bindings(records).dom().finite(),
        bindings(records).dom().len() == records.len(),
    decreases records.len(),
{
    if records.len() == 0 {
        assert(bindings(records).dom() =~= Set::<Seq<char>>::empty());
    } else {
        let rest = records.drop_last();
        let last = records.last();
        assert(distinct_aliases(rest)) by {
            assert forall|i: int, j: int|
                0 <= i < rest.len() && 0 <= j < rest.len() && i != j implies rest[i].alias
                != rest[j].alias by {
                assert(rest[i] == records[i]);
                assert(rest[j] == records[j]);
            }
        }
        lemma_bindings_len(rest);
        assert forall|i: int| 0 <= i < rest.len() implies rest[i].alias != last.alias by {
            assert(rest[i] == records[i]);
        }
        lemma_position_is(rest, last.alias, rest.len() as int);
        lemma_with_record(rest, last.alias, last.connection);
        assert(with_record(rest, last.alias, last.connection) =~= records);
        assert(!bindings(rest).dom().contains(last.alias));
        assert(bindings(records).dom() =~= bindings(rest).dom().insert(last.alias));
    }
}

/// Taking in records with distinct aliases gives those records, in their
/// order.
pub proof fn lemma_loaded_distinct(records: Seq<RecordView>)
    requires
        distinct_aliases(records),
    ensures
        loaded(records) == records,
    decreases records.len(),
{
    if records.len() > 0 {
        let rest = records.drop_last();
        let last = records.last();
        assert(distinct_aliases(rest)) by {
            assert forall|i: int, j: int|
                0 <= i < rest.len() && 0 <= j < rest.len() && i != j implies rest[i].alias
                != rest[j].alias by {
                assert(rest[i] == records[i]);
                assert(rest[j] == records[j]);
            }
        }
        lemma_loaded_distinct(rest);
        assert forall|i: int| 0 <= i < rest.len() implies rest[i].alias != last.alias by {
            assert(rest[i] == records[i]);
        }
        lemma_position_is(rest, last.alias, rest.len() as int);
        assert(rest.push(last) =~= records);
    }
}

/// Whatever is taken in, no alias stands twice afterwards.
pub proof fn lemma_loaded_is_distinct(records: Seq<RecordView>)
    ensures
        distinct_aliases(loaded(records)),
    decreases records.len(),
{
    if records.len() > 0 {
        lemma_loaded_is_distinct(records.drop_last());
        lemma_with_record(
            loaded(records.drop_last()),
            records.last().alias,
            records.last().connection,
        );
    }
}

/// A store that was written out and read back holds what it held; and so a
/// store to which an alias was added, then written out and read back,
/// binds that alias as it was added. For the empty store this leaves the
/// one binding.
pub proof fn lemma_save_then_load(records: Seq<RecordView>, alias: Seq<char>, connection: Seq<char>)
    requires
        distinct_aliases(records),
    ensures
        loaded(records) == records,
        loaded(with_record(records, alias, connection)) == with_record(records, alias, connection),
        bindings(loaded(with_record(records, alias, connection))) == bindings(records).insert(
            alias,
            connection,
        ),
        records.len() == 0 ==> bindings(loaded(with_record(records, alias, connection)))
            == Map::<Seq<char>, Seq<char>>::empty().insert(alias, connection),
{
    lemma_loaded_distinct(records);
    lemma_with_record(records, alias, connection);
    lemma_loaded_distinct(with_record(records, alias, connection));
    if records.len() == 0 {
        assert(bindings(records) =~= Map::<Seq<char>, Seq<char>>::empty());
    }
}

/// The alias store.
#[derive(Debug)]
pub struct Config {
    connections: Vec<AliasRecord>,
}

impl View for Config {
    type V = Map<Seq<char>, Seq<char>>;

    /// The mapping from alias to connection string.
    open spec fn view(&self) -> Map<Seq<char>, Seq<char>> {
        bindings(self.records())
    }
}

impl Default for Config {
    /// The empty store.
    fn default() -> (store: Config)
        ensures
            store.records() == Seq::<RecordView>::empty(),
            store@ == Map::<Seq<char>, Seq<char>>::empty(),
    {
        Config::new()
    }
}

impl Config {
    #[verifier::type_invariant]
    spec fn distinct(self) -> bool {
        distinct_aliases(self.connections.deep_view())
    }

    /// The records of the store, in the order in which it lists them.
    pub closed spec fn records(&self) -> Seq<RecordView> {
        self.connections.deep_view()
    }

    /// The empty store.
    pub fn new() -> (store: Config)
        ensures
            store.records() == Seq::<RecordView>::empty(),
            store@ == Map::<Seq<char>, Seq<char>>::empty(),
    {
        let store = Config { connections: Vec::new() };
        assert(store.records() =~= Seq::<RecordView>::empty());
        assert(store@ =~= Map::<Seq<char>, Seq<char>>::empty());
        store
    }

    /// Where the first record of `alias` stands, or the number of records.
    fn locate(&self, alias: &String) -> (at: usize)
        ensures
            at == position(self.records(), alias@),
            at <= self.connections.len(),
            self.connections.len() == self.records().len(),
    {
        let mut at: usize = 0;
        while at < self.connections.len()
            invariant
                at <= self.connections.len(),
                forall|i: int| 0 <= i < at ==> self.records()[i].alias != alias@,
            decreases self.connections.len() - at,
        {
            if self.connections[at].alias == *alias {
                proof {
                    assert(self.records()[at as int].alias == alias@);
                    lemma_position_is(self.records(), alias@, at as int);
                }
                return at;
            }
            at = at + 1;
        }
        proof {
            lemma_position_is(self.records(), alias@, at as int);
        }
        at
    }

    /// How many aliases the store holds.
    pub fn len(&self) -> (n: usize)
        ensures
            n == self.records().len(),
            distinct_aliases(self.records()),
            self@.dom().finite(),
            n == self@.dom().len(),
    {
        proof {
            use_type_invariant(self);
            lemma_bindings_len(self.records());
        }
        self.connections.len()
    }

    /// Whether the store holds no alias.
    pub fn is_empty(&self) -> (empty: bool)
        ensures
            empty == (self.records().len() == 0),
            empty == (self@ == Map::<Seq<char>, Seq<char>>::empty()),
    {
        proof {
            if self.records().len() == 0 {
                assert(self@ =~= Map::<Seq<char>, Seq<char>>::empty());
            } else {
                let first = self.records()[0].alias;
                assert(position(self.records(), first) == 0);
                assert(self@.contains_key(first));
            }
        }
        self.connections.len() == 0
    }

    /// The connection string that `alias` stands for.
    pub fn get(&self, alias: &str) -> (found: Option<&String>)
        ensures
            match found {
                Some(connection) => self@.contains_key(alias@) && connection@ == self@[alias@],
                None => !self@.contains_key(alias@),
            },
    {
        let key = alias.to_owned();
        let at = self.locate(&key);
        if at < self.connections.len() {
            Some(&self.connections[at].connection)
        } else {
            None
        }
    }

    /// Binds `alias` to `connection`. An alias that the store holds is
    /// bound anew and keeps its place; a new one goes to the end.
    pub fn add(&mut self, alias: String, connection: String)
        ensures
            final(self).records() == with_record(old(self).records(), alias@, connection@),
            final(self)@ == old(self)@.insert(alias@, connection@),
            distinct_aliases(final(self).records()),
    {
        proof {
            use_type_invariant(&*self);
            lemma_with_record(self.records(), alias@, connection@);
        }
        let at = self.locate(&alias);
        let ghost before = self.records();
        let record = AliasRecord { alias, connection };
        let mut records: Vec<AliasRecord> = Vec::new();
        std::mem::swap(&mut self.connections, &mut records);
        if at < records.len() {
            records.set(at, record);
        } else {
            records.push(record);
        }
        assert(records.deep_view() =~= with_record(before, alias@, connection@));
        std::mem::swap(&mut self.connections, &mut records);
    }

    /// Takes `alias` out of the store and hands back what it stood for.
    /// Where the store holds no such alias, it stays as it is.
    pub fn remove(&mut self, alias: &str) -> (removed: Result<String, RsshError>)
        ensures
            match removed {
                Ok(connection) => {
                    &&& old(self)@.contains_key(alias@)
                    &&& connection@ == old(self)@[alias@]
                    &&& final(self)@ == old(self)@.remove(alias@)
                },
                Err(error) => {
                    &&& !old(self)@.contains_key(alias@)
                    &&& error@ == ErrorKind::AliasNotFound { alias: alias@ }
                    &&& final(self).records() == old(self).records()
                    &&& final(self)@ == old(self)@
                },
            },
            final(self).records() == without_record(old(self).records(), alias@),
            distinct_aliases(final(self).records()),
    {
        proof {
            use_type_invariant(&*self);
            lemma_without_record(self.records(), alias@);
        }
        let key = alias.to_owned();
        let at = self.locate(&key);
        let ghost before = self.records();
        if at < self.connections.len() {
            let mut records: Vec<AliasRecord> = Vec::new();
            std::mem::swap(&mut self.connections, &mut records);
            let record = records.remove(at);
            assert(records.deep_view() =~= without_record(before, alias@));
            std::mem::swap(&mut self.connections, &mut records);
            Ok(record.connection)
        } else {
            Err(RsshError::AliasNotFound { alias: key })
        }
    }

    /// The aliases of the store, in the order of its records.
    pub fn aliases(&self) -> (names: Vec<String>)
        ensures
            names.len() == self.records().len(),
            forall|i: int| 0 <= i < names.len() ==> names[i]@ == self.records()[i].alias,
    {
        let mut names: Vec<String> = Vec::new();
        let mut i: usize = 0;
        while i < self.connections.len()
            invariant
                i <= self.connections.len(),
                names.len() == i,
                forall|k: int| 0 <= k < i ==> names[k]@ == self.records()[k].alias,
            decreases self.connections.len() - i,
        {
            names.push(self.connections[i].alias.clone());
            i = i + 1;
        }
        names
    }

    /// The records to write out, in the order of the store.
    pub fn save(&self) -> (records: Vec<AliasRecord>)
        ensures
            records.deep_view() == self.records(),
            distinct_aliases(self.records()),
    {
        proof {
            use_type_invariant(self);
        }
        let mut records: Vec<AliasRecord> = Vec::new();
        let mut i: usize = 0;
        while i < self.connections.len()
            invariant
                i <= self.connections.len(),
                records.len() == i,
                forall|k: int| 0 <= k < i ==> records[k]@ == self.records()[k],
            decreases self.connections.len() - i,
        {
            records.push(self.connections[i].clone());
            i = i + 1;
        }
        assert(records.deep_view() =~= self.records());
        records
    }

    /// The store that was written out as `stored`. Nothing written out yet
    /// is the empty store. Where `stored` holds an alias twice, its last
    /// record counts, at the place of its first.
    pub fn load(stored: Option<Vec<AliasRecord>>) -> (store: Config)
        ensures
            store.records() == match stored {
                Some(records) => loaded(records.deep_view()),
                None => Seq::<RecordView>::empty(),
            },
            distinct_aliases(store.records()),
    {
        let mut store = Config::new();
        match stored {
            None => {},
            Some(records) => {
                let ghost all = records.deep_view();
                let mut taken: usize = 0;
                assert(all.take(0) =~= Seq::<RecordView>::empty());
                while taken < records.len()
                    invariant
                        taken <= records.len(),
                        all == records.deep_view(),
                        store.records() == loaded(all.take(taken as int)),
                    decreases records.len() - taken,
                {
                    let record = records[taken].clone();
                    proof {
                        assert(record@ == all[taken as int]);
                        assert(all.take(taken + 1).drop_last() =~= all.take(taken as int));
                    }
                    store.add(record.alias, record.connection);
                    taken = taken + 1;
                }
                assert(all.take(records.len() as int) =~= all);
            },
        }
        proof {
            use_type_invariant(&store);
        }
        store
    }
}

/// Where the store is kept: below the user's home directory `home`. There
/// is no such place where the home directory is not known.
pub fn config_path(home: Option<&str>) -> (place: Result<String, RsshError>)
    ensures
        match home {
            Some(dir) => place matches Ok(path) && path@ == joined(dir@, STORE_FILE@),
            None => place matches Err(error) && error@ == (ErrorKind::Other {
                reason: "Could not find home directory"@,
            }),
        },
{
    match home {
        Some(dir) => Ok(join(dir, STORE_FILE)),
        None => Err(RsshError::Other { reason: "Could not find home directory".to_owned() }),
    }
}

} // verus!
