//! The credential verification protocol: registration, login, update, and
//! API-key issuance, revocation and validation. Stateless between calls;
//! every operation reads or writes the store it is given.

use crate::api_key::ApiKey;
use crate::ask::{GetUser, NewUser, UpdateUser};
use crate::store::{DataError, RevocationStatus, Store};
use crate::user::{User, UserError, UserV};
use vstd::prelude::*;

verus! {

/// A protocol-level failure. Store failures are reclassified here, so outer
/// layers depend on this taxonomy only, never on store internals.
#[derive(Debug)]
pub enum ServiceError {
    /// A validation failure escaped to the protocol layer.
    User(UserError),
    /// A store failure not otherwise classified (a duplicate-email conflict
    /// stays here, and the web layer maps it to its duplicate-user answer).
    Data(DataError),
    /// The looked-up record does not exist.
    NotFound,
    /// The presented credential did not verify.
    PermissionError(String),
    /// The presented identity detail is not usable.
    InvalidDetail,
}

impl From<DataError> for ServiceError {
    /// Reclassifies a store failure: a missing row becomes the domain-level
    /// `NotFound`; a conflict stays a store-level error.
    fn from(err: DataError) -> (r: Self) {
        match err {
            DataError::NotFound => ServiceError::NotFound,
            DataError::Conflict => ServiceError::Data(DataError::Conflict),
        }
    }
}

impl vstd::std_specs::convert::FromSpecImpl<DataError> for ServiceError {
    open spec fn obeys_from_spec() -> bool {
        true
    }

    open spec fn from_spec(err: DataError) -> Self {
        match err {
            DataError::NotFound => ServiceError::NotFound,
            DataError::Conflict => ServiceError::Data(DataError::Conflict),
        }
    }
}

/// Registration: inserts the already-validated user and returns the stored
/// record; a duplicate email is rejected and leaves the store unchanged.
pub fn new_user(req: NewUser, store: &mut Store) -> (r: Result<User, ServiceError>)
    requires
        old(store).wf(),
    ensures
        final(store).wf(),
        match r {
            Ok(u) => {
                &&& !old(store).has_user(req.email@)
                &&& u@ == (UserV { name: req.name@, email: req.email@, password: req.password@ })
                &&& final(store).has_user(req.email@)
                &&& final(store).user_named(req.email@) == u@
                &&& forall|e: Seq<char>|
                    #[trigger] final(store).has_user(e) <==> old(store).has_user(e) || e
                        == req.email@
                &&& forall|e: Seq<char>|
                    e != req.email@ && old(store).has_user(e)
                        ==> #[trigger] final(store).user_named(e) == old(store).user_named(e)
                &&& final(store).keys_model() == old(store).keys_model()
            },
            Err(e) => {
                &&& old(store).has_user(req.email@)
                &&& e matches ServiceError::Data(DataError::Conflict)
                &&& *final(store) == *old(store)
            },
        },
{
    match store.insert_user(req.name, req.email, req.password) {
        Ok(u) => Ok(u),
        Err(e) => Err(ServiceError::from(e)),
    }
}

/// Login: fetches the record by email, then verifies the password. An
/// unknown email is `NotFound`; a missing or mismatching password is a
/// permission error; only an exact match returns the record.
pub fn get_user(req: GetUser, store: &Store) -> (r: Result<User, ServiceError>)
    requires
        store.wf(),
    ensures
        match r {
            Ok(u) => {
                &&& store.has_user(req.email@)
                &&& u@ == store.user_named(req.email@)
                &&& req.password matches Some(p) && p@ == store.user_named(req.email@).password
            },
            Err(e) => match e {
                ServiceError::NotFound => !store.has_user(req.email@),
                ServiceError::PermissionError(_) => store.has_user(req.email@) && match req
                    .password {
                    Some(p) => p@ != store.user_named(req.email@).password,
                    None => true,
                },
                _ => false,
            },
        },
{
    match store.find_user_by_email(&req.email) {
        Err(_) => Err(ServiceError::NotFound),
        Ok(user) => match req.password {
            None => Err(ServiceError::PermissionError("password required".to_owned())),
            Some(p) => {
                if p == user.password {
                    Ok(user)
                } else {
                    Err(ServiceError::PermissionError("invalid password".to_owned()))
                }
            },
        },
    }
}

/// Update: merges the supplied fields into the stored record named by the
/// email, which itself never changes; a field left out keeps its stored
/// value. An unknown email is `NotFound` and leaves the store unchanged.
pub fn update_user(req: UpdateUser, store: &mut Store) -> (r: Result<User, ServiceError>)
    requires
        old(store).wf(),
    ensures
        final(store).wf(),
        match r {
            Ok(u) => {
                &&& old(store).has_user(req.email@)
                &&& u@.email == req.email@
                &&& u@.name == (match req.name {
                    Some(n) => n@,
                    None => old(store).user_named(req.email@).name,
                })
                &&& u@.password == (match req.password {
                    Some(p) => p@,
                    None => old(store).user_named(req.email@).password,
                })
                &&& final(store).has_user(req.email@)
                &&& final(store).user_named(req.email@) == u@
                &&& forall|e: Seq<char>|
                    #[trigger] final(store).has_user(e) <==> old(store).has_user(e)
                &&& forall|e: Seq<char>|
                    e != req.email@ && old(store).has_user(e)
                        ==> #[trigger] final(store).user_named(e) == old(store).user_named(e)
                &&& final(store).keys_model() == old(store).keys_model()
            },
            Err(e) => {
                &&& !old(store).has_user(req.email@)
                &&& e matches ServiceError::NotFound
                &&& *final(store) == *old(store)
            },
        },
{
    match store.replace_user_fields(&req.email, req.name, req.password) {
        Ok(u) => Ok(u),
        Err(e) => Err(ServiceError::from(e)),
    }
}

/// Issuance: generates a fresh key, persists it, and hands it back to the
/// caller; every other key and every user record is untouched.
pub fn generate_api_key(store: &mut Store) -> (r: ApiKey)
    ensures
        r@.len() == 16,
        final(store).has_key(r@),
        forall|b: Seq<u8>|
            b != r@ ==> (#[trigger] final(store).has_key(b) <==> old(store).has_key(b)),
        final(store).users_model() == old(store).users_model(),
{
    let api_key = ApiKey::default();
    store.insert_api_key(&api_key);
    api_key
}

/// Revocation: deletes the key. `Revoked` exactly when it was present;
/// afterwards it is absent either way, and everything else is untouched.
pub fn revoke_api_key(api_key: ApiKey, store: &mut Store) -> (r: RevocationStatus)
    ensures
        r == RevocationStatus::Revoked <==> old(store).has_key(api_key@),
        !final(store).has_key(api_key@),
        forall|b: Seq<u8>|
            b != api_key@ ==> (#[trigger] final(store).has_key(b) <==> old(store).has_key(b)),
        final(store).users_model() == old(store).users_model(),
{
    store.delete_api_key(&api_key)
}

/// Validation, as the guard uses it: a pure existence check, with no
/// ownership, scope or expiry semantics.
pub fn api_key_is_valid(api_key: ApiKey, store: &Store) -> (r: bool)
    ensures
        r == store.has_key(api_key@),
{
    store.api_key_exists(&api_key)
}

/// Registering twice under one email: the first registration succeeds, the
/// second is rejected with the duplicate conflict.
pub fn register_twice(first: NewUser, second: NewUser, store: &mut Store) -> (r: (
    Result<User, ServiceError>,
    Result<User, ServiceError>,
))
    requires
        old(store).wf(),
        first.email@ == second.email@,
        !old(store).has_user(first.email@),
    ensures
        final(store).wf(),
        r.0 is Ok,
        r.1 matches Err(ServiceError::Data(DataError::Conflict)),
{
    let r0 = new_user(first, store);
    let r1 = new_user(second, store);
    (r0, r1)
}

/// Revoking an issued key turns `api_key_is_valid` from true to false;
/// revoking an unknown key reports `NotFound` and validity stays false.
pub fn revoke_transition(api_key: ApiKey, store: &mut Store) -> (r: (
    bool,
    RevocationStatus,
    bool,
))
    ensures
        r.0 == old(store).has_key(api_key@),
        r.1 == RevocationStatus::Revoked <==> r.0,
        r.2 == false,
{
    let before = api_key_is_valid(api_key.clone(), store);
    let status = revoke_api_key(api_key.clone(), store);
    let after = api_key_is_valid(api_key.clone(), store);
    (before, status, after)
}

} // verus!
