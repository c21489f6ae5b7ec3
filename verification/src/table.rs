//! The session table: one record per user.

use vstd::prelude::*;
use crate::ident::Identity;
use crate::record::SessionRecord;

verus! {

/// All sessions, at most one per user, in the order in which the users were
/// first recorded. Nothing is ever removed.
pub struct SessionTable {
    users: Vec<Identity>,
    records: Vec<SessionRecord>,
}

impl View for SessionTable {
    type V = Map<Identity, SessionRecord>;

    /// The record of every user that has one.
    closed spec fn view(&self) -> Map<Identity, SessionRecord> {
        pairing(self.users@, self.records@)
    }
}

/// The record that `user` has in `sessions`, or a fresh one if the user has
/// none.
pub open spec fn record_in(
    sessions: Map<Identity, SessionRecord>,
    user: Identity,
) -> SessionRecord {
    if sessions.contains_key(user) {
        sessions[user]
    } else {
        SessionRecord::fresh()
    }
}

/// The map that takes each of `users` to the record at the same place.
spec fn pairing(users: Seq<Identity>, records: Seq<SessionRecord>) -> Map<
    Identity,
    SessionRecord,
> {
    Map::new(|user: Identity| users.contains(user), |user: Identity| records[users.index_of(user)])
}

/// Replacing the record at one place replaces the record of the user there.
proof fn lemma_pairing_update(
    users: Seq<Identity>,
    records: Seq<SessionRecord>,
    i: int,
    record: SessionRecord,
)
    requires
        users.no_duplicates(),
        users.len() == records.len(),
        0 <= i < users.len(),
    ensures
        pairing(users, records.update(i, record)) == pairing(users, records).insert(
            users[i],
            record,
        ),
{
    let before = pairing(users, records);
    let after = pairing(users, records.update(i, record));
    assert(users.contains(users[i]));
    assert forall|user: Identity| #[trigger] after.contains_key(user) implies after[user]
        == before.insert(users[i], record)[user] by {
        users.index_of_first_ensures(user);
        let k = users.index_of(user);
        assert(users[k] == user);
    }
    assert(after =~= before.insert(users[i], record));
}

/// Appending a new user with a record adds that user's record.
proof fn lemma_pairing_push(
    users: Seq<Identity>,
    records: Seq<SessionRecord>,
    user: Identity,
    record: SessionRecord,
)
    requires
        users.no_duplicates(),
        users.len() == records.len(),
        !users.contains(user),
    ensures
        users.push(user).no_duplicates(),
        users.push(user).index_of(user) == users.len(),
        pairing(users.push(user), records.push(record)) == pairing(users, records).insert(
            user,
            record,
        ),
{
    let before = pairing(users, records);
    let grown = users.push(user);
    let after = pairing(grown, records.push(record));
    assert(grown[users.len() as int] == user);
    assert forall|other: Identity| grown.contains(other) <==> (users.contains(other) || other
        == user) by {
        if users.contains(other) {
            let k = users.index_of(other);
            users.index_of_first_ensures(other);
            assert(grown[k] == other);
        }
    }
    assert forall|other: Identity| #[trigger] after.contains_key(other) implies after[other]
        == before.insert(user, record)[other] by {
        grown.index_of_first_ensures(other);
        let k = grown.index_of(other);
        assert(grown[k] == other);
        if other != user {
            users.index_of_first_ensures(other);
            let l = users.index_of(other);
            assert(grown[l] == other);
        }
    }
    grown.index_of_first_ensures(user);
    assert(after =~= before.insert(user, record));
}

impl SessionTable {
    /// Every user occurs once, and has a record.
    #[verifier::type_invariant]
    spec fn inv(self) -> bool {
        &&& self.users@.no_duplicates()
        &&& self.users@.len() == self.records@.len()
    }

    /// The users in the order in which they were first recorded.
    pub closed spec fn users(self) -> Seq<Identity> {
        self.users@
    }

    /// An empty table.
    pub fn new() -> (table: SessionTable)
        ensures
            table@ == Map::<Identity, SessionRecord>::empty(),
            table.users() == Seq::<Identity>::empty(),
    {
        let table = SessionTable { users: Vec::new(), records: Vec::new() };
        assert(table@ =~= Map::<Identity, SessionRecord>::empty());
        table
    }

    /// Finds the place of `user`.
    fn find(&self, user: Identity) -> (found: Option<usize>)
        ensures
            match found {
                Some(i) => i < self.users@.len() && self.users@[i as int] == user
                    && self.users@.index_of(user) == i,
                None => !self.users@.contains(user),
            },
    {
        proof {
            use_type_invariant(self);
        }
        let mut i: usize = 0;
        while i < self.users.len()
            invariant
                i <= self.users@.len(),
                self.users@.no_duplicates(),
                forall|j: int| 0 <= j < i ==> self.users@[j] != user,
            decreases self.users@.len() - i,
        {
            if self.users[i] == user {
                proof {
                    self.users@.index_of_first_ensures(user);
                }
                return Some(i);
            }
            i += 1;
        }
        None
    }

    /// The number of users that have a record: the users are distinct, and
    /// they are the users that the view holds.
    pub fn len(&self) -> (n: usize)
        ensures
            n == self.users().len(),
            self.users().no_duplicates(),
            forall|user: Identity| self.users().contains(user) <==> self@.contains_key(user),
    {
        proof {
            use_type_invariant(self);
        }
        self.users.len()
    }

    /// The `i`-th user and that user's record, if the table holds that many.
    pub fn entry(&self, i: usize) -> (entry: Option<(Identity, &SessionRecord)>)
        ensures
            match entry {
                Some((user, record)) => {
                    &&& i < self.users().len()
                    &&& user == self.users()[i as int]
                    &&& self@.contains_key(user)
                    &&& *record == self@[user]
                },
                None => i >= self.users().len(),
            },
    {
        proof {
            use_type_invariant(self);
        }
        if i < self.users.len() {
            proof {
                let user = self.users@[i as int];
                assert(self.users@.contains(user));
                assert(self.users@.index_of(user) == i);
            }
            Some((self.users[i], &self.records[i]))
        } else {
            None
        }
    }

    /// The record of `user`, if the user has one. Creates nothing.
    pub fn get(&self, user: Identity) -> (found: Option<&SessionRecord>)
        ensures
            match found {
                Some(record) => self@.contains_key(user) && *record == self@[user],
                None => !self@.contains_key(user),
            },
    {
        proof {
            use_type_invariant(self);
        }
        match self.find(user) {
            Some(i) => Some(&self.records[i]),
            None => None,
        }
    }

    /// The record of `user`, for changing it, if the user has one. Creates
    /// nothing.
    pub fn get_mut(&mut self, user: Identity) -> (found: Option<&mut SessionRecord>)
        ensures
            final(self).users() == old(self).users(),
            match found {
                Some(record) => {
                    &&& old(self)@.contains_key(user)
                    &&& *record == old(self)@[user]
                    &&& final(self)@ == old(self)@.insert(user, *final(record))
                },
                None => !old(self)@.contains_key(user) && final(self)@ == old(self)@,
            },
    {
        proof {
            use_type_invariant(&*self);
        }
        match self.find(user) {
            Some(i) => {
                proof {
                    let users = self.users@;
                    let records = self.records@;
                    assert forall|record: SessionRecord| #[trigger]
                        pairing(users, records.update(i as int, record)) == old(self)@.insert(
                            user,
                            record,
                        ) by {
                        lemma_pairing_update(users, records, i as int, record);
                    }
                }
                Some(&mut self.records[i])
            },
            None => None,
        }
    }

    /// The record of `user`, for changing it. A user without a record gets a
    /// fresh one first.
    pub fn get_or_create(&mut self, user: Identity) -> (record: &mut SessionRecord)
        ensures
            *record == record_in(old(self)@, user),
            final(self)@ == old(self)@.insert(user, *final(record)),
            final(self).users() == if old(self)@.contains_key(user) {
                old(self).users()
            } else {
                old(self).users().push(user)
            },
    {
        proof {
            use_type_invariant(&*self);
        }
        let i = match self.find(user) {
            Some(i) => i,
            None => {
                let mut taken = SessionTable::new();
                core::mem::swap(self, &mut taken);
                let SessionTable { mut users, mut records } = taken;
                proof {
                    lemma_pairing_push(users@, records@, user, SessionRecord::fresh());
                }
                users.push(user);
                records.push(SessionRecord::new());
                *self = SessionTable { users, records };
                self.users.len() - 1
            },
        };
        proof {
            let users = self.users@;
            let records = self.records@;
            assert forall|record: SessionRecord| #[trigger]
                pairing(users, records.update(i as int, record)) == old(self)@.insert(
                    user,
                    record,
                ) by {
                lemma_pairing_update(users, records, i as int, record);
            }
        }
        &mut self.records[i]
    }
}

} // verus!
