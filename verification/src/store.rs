//! An in-memory credential store: the persistence boundary the protocol
//! reads and writes. It owns the persisted user records (uniquely keyed by
//! email) and the issued API keys (duplicates possible; a key present is
//! valid, a key absent is not).

use crate::api_key::ApiKey;
use crate::user::{Email, Name, Password, User, UserV};
use vstd::prelude::*;

verus! {

/// A store-level failure, reclassified at the service boundary.
#[derive(Debug)]
pub enum DataError {
    /// No row matched the given identity.
    NotFound,
    /// An insert would duplicate a unique email.
    Conflict,
}

/// The caller-visible outcome of deleting an API key: it was present and is
/// now removed, or it was never there.
#[derive(Debug, PartialEq, Eq, Structural)]
pub enum RevocationStatus {
    Revoked,
    NotFound,
}

/// Exact byte-sequence comparison, the equality API keys are compared by.
fn bytes_eq(a: &Vec<u8>, b: &Vec<u8>) -> (r: bool)
    ensures
        r == (a@ == b@),
{
    let r = a == b;
    proof {
        if a@ =~= b@ {
            assert(a@ == b@);
        }
    }
    r
}

/// Whether a byte sequence occurs in a sequence of byte sequences.
pub open spec fn seq_has(s: Seq<Seq<u8>>, x: Seq<u8>) -> bool {
    exists|i: int| 0 <= i < s.len() && s[i] == x
}

/// The sequence with every occurrence of `b` removed, in order.
spec fn drop_all(s: Seq<Seq<u8>>, b: Seq<u8>) -> Seq<Seq<u8>>
    decreases s.len(),
{
    if s.len() == 0 {
        s
    } else if s.last() == b {
        drop_all(s.drop_last(), b)
    } else {
        drop_all(s.drop_last(), b).push(s.last())
    }
}

/// What `drop_all` holds: `b` is gone, everything else is kept.
proof fn lemma_drop_all(s: Seq<Seq<u8>>, b: Seq<u8>)
    ensures
        forall|j: int| 0 <= j < drop_all(s, b).len() ==> #[trigger] drop_all(s, b)[j] != b,
        forall|x: Seq<u8>| #[trigger]
            seq_has(drop_all(s, b), x) <==> (x != b && seq_has(s, x)),
    decreases s.len(),
{
    let d = drop_all(s, b);
    if s.len() == 0 {
    } else {
        let rest = s.drop_last();
        let dr = drop_all(rest, b);
        lemma_drop_all(rest, b);
        assert forall|j: int| 0 <= j < d.len() implies #[trigger] d[j] != b by {
            if s.last() != b && j == d.len() - 1 {
                assert(d[j] == s.last());
            } else {
                assert(d[j] == dr[j]);
            }
        }
        assert forall|x: Seq<u8>| #[trigger]
            seq_has(d, x) <==> (x != b && seq_has(s, x)) by {
            if seq_has(d, x) {
                let j = choose|j: int| 0 <= j < d.len() && d[j] == x;
                if s.last() != b && j == d.len() - 1 {
                    assert(x == s.last());
                    assert(x != b);
                    assert(s[s.len() - 1] == x);
                    assert(seq_has(s, x));
                } else {
                    assert(dr[j] == x);
                    assert(seq_has(dr, x));
                    let l = choose|l: int| 0 <= l < rest.len() && rest[l] == x;
                    assert(s[l] == x);
                    assert(seq_has(s, x));
                }
            }
            if x != b && seq_has(s, x) {
                let l = choose|l: int| 0 <= l < s.len() && s[l] == x;
                if l == s.len() - 1 {
                    assert(s.last() == x);
                    assert(d[d.len() - 1] == x);
                    assert(seq_has(d, x));
                } else {
                    assert(rest[l] == x);
                    assert(seq_has(rest, x));
                    assert(seq_has(dr, x));
                    let j = choose|j: int| 0 <= j < dr.len() && dr[j] == x;
                    assert(d[j] == x);
                    assert(seq_has(d, x));
                }
            }
        }
    }
}

/// The credential store: user records and issued API keys.
pub struct Store {
    users: Vec<User>,
    keys: Vec<Vec<u8>>,
}

impl Store {
    /// The stored user records, as mathematical values.
    pub closed spec fn users_model(self) -> Seq<UserV> {
        self.users@.map_values(|u: User| u@)
    }

    /// The stored API keys, as byte sequences.
    pub closed spec fn keys_model(self) -> Seq<Seq<u8>> {
        self.keys@.map_values(|k: Vec<u8>| k@)
    }

    /// Whether a record with this email is present.
    pub open spec fn has_user(self, email: Seq<char>) -> bool {
        exists|i: int| 0 <= i < self.users_model().len() && self.users_model()[i].email == email
    }

    /// The record with this email; well defined when `wf()` and
    /// `has_user(email)` hold.
    pub open spec fn user_named(self, email: Seq<char>) -> UserV {
        self.users_model()[choose|i: int|
            0 <= i < self.users_model().len() && self.users_model()[i].email == email]
    }

    /// Whether this byte sequence is among the issued keys.
    pub open spec fn has_key(self, bytes: Seq<u8>) -> bool {
        seq_has(self.keys_model(), bytes)
    }

    /// Well-formed: emails identify records uniquely.
    pub open spec fn wf(self) -> bool {
        forall|i: int, j: int|
            0 <= i < j < self.users_model().len() ==> self.users_model()[i].email
                != self.users_model()[j].email
    }

    /// An empty store.
    pub fn new() -> (s: Self)
        ensures
            s.wf(),
            s.users_model() == Seq::<UserV>::empty(),
            s.keys_model() == Seq::<Seq<u8>>::empty(),
    {
        let s = Store { users: Vec::new(), keys: Vec::new() };
        proof {
            assert(s.users_model() =~= Seq::<UserV>::empty());
            assert(s.keys_model() =~= Seq::<Seq<u8>>::empty());
        }
        s
    }

    /// The index of the record with this email, if any.
    fn index_of_email(&self, email: &Email) -> (r: Option<usize>)
        requires
            self.wf(),
        ensures
            match r {
                Some(i) => {
                    &&& i < self.users_model().len()
                    &&& self.users_model()[i as int].email == email@
                    &&& self.has_user(email@)
                    &&& self.user_named(email@) == self.users_model()[i as int]
                },
                None => !self.has_user(email@),
            },
    {
        let n = self.users.len();
        let mut i: usize = 0;
        while i < n
            invariant
                self.wf(),
                n == self.users@.len(),
                i <= n,
                forall|j: int| 0 <= j < i ==> self.users_model()[j].email != email@,
            decreases n - i,
        {
            if self.users[i].email == *email {
                proof {
                    assert(self.users_model()[i as int].email == email@);
                    assert(self.has_user(email@));
                    let k = choose|k: int|
                        0 <= k < self.users_model().len() && self.users_model()[k].email == email@;
                    if k != i {
                        assert(false);
                    }
                }
                return Some(i);
            }
            i += 1;
        }
        None
    }

    /// Fetches the record with this email; `NotFound` exactly when no such
    /// record exists.
    pub fn find_user_by_email(&self, email: &Email) -> (r: Result<User, DataError>)
        requires
            self.wf(),
        ensures
            match r {
                Ok(u) => self.has_user(email@) && u@ == self.user_named(email@),
                Err(e) => !self.has_user(email@) && e matches DataError::NotFound,
            },
    {
        match self.index_of_email(email) {
            Some(i) => Ok(self.users[i].clone()),
            None => Err(DataError::NotFound),
        }
    }

    /// Inserts a new record; `Conflict` exactly when the email is already
    /// present, in which case the store is unchanged.
    pub fn insert_user(&mut self, name: Name, email: Email, password: Password) -> (r: Result<
        User,
        DataError,
    >)
        requires
            old(self).wf(),
        ensures
            final(self).wf(),
            match r {
                Ok(u) => {
                    &&& !old(self).has_user(email@)
                    &&& u@ == (UserV { name: name@, email: email@, password: password@ })
                    &&& final(self).users_model() == old(self).users_model().push(u@)
                    &&& final(self).has_user(email@)
                    &&& final(self).user_named(email@) == u@
                    &&& forall|e: Seq<char>|
                        #[trigger] final(self).has_user(e) <==> old(self).has_user(e) || e
                            == email@
                    &&& forall|e: Seq<char>|
                        e != email@ && old(self).has_user(e)
                            ==> #[trigger] final(self).user_named(e) == old(self).user_named(e)
                    &&& final(self).keys_model() == old(self).keys_model()
                },
                Err(e) => {
                    &&& old(self).has_user(email@)
                    &&& e matches DataError::Conflict
                    &&& *final(self) == *old(self)
                },
            },
    {
        match self.index_of_email(&email) {
            Some(_) => Err(DataError::Conflict),
            None => {
                let user = User { name, email, password };
                let stored = user.clone();
                let ghost old_model = self.users_model();
                self.users.push(stored);
                proof {
                    assert(self.users_model() =~= old_model.push(user@));
                    let n = old_model.len() as int;
                    assert(self.users_model()[n] == user@);
                    assert(self.has_user(user@.email));
                    assert forall|e: Seq<char>| #[trigger]
                        self.has_user(e) <==> old(self).has_user(e) || e == user@.email by {
                        if self.has_user(e) {
                            let i = choose|i: int|
                                0 <= i < self.users_model().len() && self.users_model()[i].email
                                    == e;
                            if i < n {
                                assert(old_model[i].email == e);
                                assert(old(self).has_user(e));
                            }
                        }
                        if old(self).has_user(e) {
                            let i = choose|i: int| 0 <= i < old_model.len() && old_model[i].email == e;
                            assert(self.users_model()[i].email == e);
                        }
                    }
                    assert forall|e: Seq<char>|
                        e != user@.email && old(self).has_user(e) implies #[trigger] self
                        .user_named(e) == old(self).user_named(e) by {
                        let i = choose|i: int|
                            0 <= i < old_model.len() && old_model[i].email == e;
                        assert(self.users_model()[i].email == e);
                        let k1 = choose|k: int|
                            0 <= k < self.users_model().len() && self.users_model()[k].email == e;
                        if k1 != i {
                            assert(false);
                        }
                        let k2 = choose|k: int|
                            0 <= k < old_model.len() && old_model[k].email == e;
                        if k2 != i {
                            assert(false);
                        }
                    }
                    let k = choose|k: int|
                        0 <= k < self.users_model().len() && self.users_model()[k].email
                            == user@.email;
                    if k != n {
                        assert(false);
                    }
                    assert(self.keys_model() =~= old(self).keys_model());
                }
                Ok(user)
            },
        }
    }

    /// Replaces the name and/or password of the record with this email,
    /// keeping any field that is not supplied; the email (the record's
    /// identity) never changes. `NotFound` exactly when no such record
    /// exists, in which case the store is unchanged.
    pub fn replace_user_fields(
        &mut self,
        email: &Email,
        name: Option<Name>,
        password: Option<Password>,
    ) -> (r: Result<User, DataError>)
        requires
            old(self).wf(),
        ensures
            final(self).wf(),
            match r {
                Ok(u) => {
                    &&& old(self).has_user(email@)
                    &&& u@.email == email@
                    &&& u@.name == (match name {
                        Some(n) => n@,
                        None => old(self).user_named(email@).name,
                    })
                    &&& u@.password == (match password {
                        Some(p) => p@,
                        None => old(self).user_named(email@).password,
                    })
                    &&& final(self).has_user(email@)
                    &&& final(self).user_named(email@) == u@
                    &&& forall|e: Seq<char>|
                        #[trigger] final(self).has_user(e) <==> old(self).has_user(e)
                    &&& forall|e: Seq<char>|
                        e != email@ && old(self).has_user(e)
                            ==> #[trigger] final(self).user_named(e) == old(self).user_named(e)
                    &&& final(self).keys_model() == old(self).keys_model()
                },
                Err(e) => {
                    &&& !old(self).has_user(email@)
                    &&& e matches DataError::NotFound
                    &&& *final(self) == *old(self)
                },
            },
    {
        match self.index_of_email(email) {
            None => Err(DataError::NotFound),
            Some(i) => {
                let existing = self.users[i].clone();
                let new_name = match name {
                    Some(n) => n,
                    None => existing.name,
                };
                let new_password = match password {
                    Some(p) => p,
                    None => existing.password,
                };
                let user = User { name: new_name, email: email.clone(), password: new_password };
                let stored = user.clone();
                let ghost old_model = self.users_model();
                self.users[i] = stored;
                proof {
                    assert(self.users_model() =~= old_model.update(i as int, user@));
                    assert(self.users_model()[i as int] == user@);
                    assert(self.has_user(email@));
                    assert forall|e: Seq<char>| #[trigger]
                        self.has_user(e) <==> old(self).has_user(e) by {
                        if self.has_user(e) {
                            let k = choose|k: int|
                                0 <= k < self.users_model().len() && self.users_model()[k].email
                                    == e;
                            if k == i {
                                assert(old_model[i as int].email == email@);
                            } else {
                                assert(old_model[k].email == e);
                            }
                        }
                        if old(self).has_user(e) {
                            let k = choose|k: int|
                                0 <= k < old_model.len() && old_model[k].email == e;
                            if k == i {
                                assert(self.users_model()[i as int].email == email@);
                            } else {
                                assert(self.users_model()[k].email == e);
                            }
                        }
                    }
                    assert forall|e: Seq<char>|
                        e != email@ && old(self).has_user(e) implies #[trigger] self
                        .user_named(e) == old(self).user_named(e) by {
                        let k = choose|k: int|
                            0 <= k < old_model.len() && old_model[k].email == e;
                        assert(k != i);
                        assert(self.users_model()[k].email == e);
                        let k1 = choose|k1: int|
                            0 <= k1 < self.users_model().len() && self.users_model()[k1].email
                                == e;
                        if k1 != k {
                            assert(false);
                        }
                        let k2 = choose|k2: int|
                            0 <= k2 < old_model.len() && old_model[k2].email == e;
                        if k2 != k {
                            assert(false);
                        }
                    }
                    let k = choose|k: int|
                        0 <= k < self.users_model().len() && self.users_model()[k].email == email@;
                    if k != i {
                        assert(false);
                    }
                    assert(self.keys_model() =~= old(self).keys_model());
                }
                Ok(user)
            },
        }
    }

    /// Records an issued key. Issuance is not idempotent: a key may be
    /// stored more than once.
    pub fn insert_api_key(&mut self, key: &ApiKey)
        ensures
            final(self).has_key(key@),
            forall|b: Seq<u8>|
                b != key@ ==> (#[trigger] final(self).has_key(b) <==> old(self).has_key(b)),
            final(self).users_model() == old(self).users_model(),
    {
        let bytes = key.clone().into_inner();
        let ghost old_model = self.keys_model();
        self.keys.push(bytes);
        proof {
            assert(self.keys_model() =~= old_model.push(key@));
            let n = old_model.len() as int;
            assert(self.keys_model()[n] == key@);
            assert forall|b: Seq<u8>|
                b != key@ implies (#[trigger] self.has_key(b) <==> old(self).has_key(b)) by {
                if self.has_key(b) {
                    let i = choose|i: int|
                        0 <= i < self.keys_model().len() && self.keys_model()[i] == b;
                    assert(i < n);
                    assert(old_model[i] == b);
                }
                if old(self).has_key(b) {
                    let i = choose|i: int| 0 <= i < old_model.len() && old_model[i] == b;
                    assert(self.keys_model()[i] == b);
                }
            }
            assert(self.users_model() =~= old(self).users_model());
        }
    }

    /// Deletes every stored copy of the key. `Revoked` exactly when at least
    /// one copy was present; afterwards the key is absent either way, and
    /// every other key is untouched.
    pub fn delete_api_key(&mut self, key: &ApiKey) -> (r: RevocationStatus)
        ensures
            r == RevocationStatus::Revoked <==> old(self).has_key(key@),
            !final(self).has_key(key@),
            forall|b: Seq<u8>|
                b != key@ ==> (#[trigger] final(self).has_key(b) <==> old(self).has_key(b)),
            final(self).users_model() == old(self).users_model(),
    {
        let ghost old_model = self.keys_model();
        let n = self.keys.len();
        let mut kept: Vec<Vec<u8>> = Vec::new();
        let mut found = false;
        let mut i: usize = 0;
        while i < n
            invariant
                self.keys_model() == old_model,
                self.users_model() == old(self).users_model(),
                n == self.keys@.len(),
                i <= n,
                found <==> exists|j: int| 0 <= j < i && old_model[j] == key@,
                kept@.map_values(|k: Vec<u8>| k@) == drop_all(old_model.take(i as int), key@),
            decreases n - i,
        {
            let ghost prev_model = kept@.map_values(|k: Vec<u8>| k@);
            proof {
                assert(old_model[i as int] == self.keys@[i as int]@);
                assert(old_model.take(i + 1).drop_last() =~= old_model.take(i as int));
                assert(old_model.take(i + 1).last() == old_model[i as int]);
            }
            if bytes_eq(&self.keys[i], key.as_bytes()) {
                found = true;
                proof {
                    assert(old_model[i as int] == key@);
                    assert(drop_all(old_model.take(i + 1), key@) == drop_all(
                        old_model.take(i as int),
                        key@,
                    ));
                }
            } else {
                kept.push(self.keys[i].clone());
                proof {
                    assert(kept@.map_values(|k: Vec<u8>| k@) =~= prev_model.push(
                        old_model[i as int],
                    ));
                    assert(drop_all(old_model.take(i + 1), key@) == drop_all(
                        old_model.take(i as int),
                        key@,
                    ).push(old_model[i as int]));
                }
            }
            i += 1;
        }
        let ghost kept_model = kept@.map_values(|k: Vec<u8>| k@);
        proof {
            assert(old_model.take(n as int) =~= old_model);
            lemma_drop_all(old_model, key@);
        }
        self.keys = kept;
        proof {
            assert(self.keys_model() =~= kept_model);
            assert(self.keys_model() == drop_all(old_model, key@));
            assert(self.users_model() =~= old(self).users_model());
        }
        if found {
            RevocationStatus::Revoked
        } else {
            RevocationStatus::NotFound
        }
    }

    /// Whether the key is currently valid: a pure existence check.
    pub fn api_key_exists(&self, key: &ApiKey) -> (r: bool)
        ensures
            r == self.has_key(key@),
    {
        let n = self.keys.len();
        let mut i: usize = 0;
        while i < n
            invariant
                n == self.keys@.len(),
                i <= n,
                forall|j: int| 0 <= j < i ==> #[trigger] self.keys_model()[j] != key@,
            decreases n - i,
        {
            if bytes_eq(&self.keys[i], key.as_bytes()) {
                proof {
                    assert(self.keys_model()[i as int] == key@);
                }
                return true;
            }
            i += 1;
        }
        false
    }
}

} // verus!
