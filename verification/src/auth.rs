//! Credential storage and verification: a slow salted one-way hash is stored
//! at registration, and a login succeeds exactly when the presented password
//! verifies against the stored hash of an existing user. Unknown username,
//! wrong password, and a failed lookup all collapse to the same outcome.

use vstd::prelude::*;

use crate::errors::AuthError;
use crate::store;
use crate::store::users_of;

verus! {

/// Whether the hash-scheme's verification routine accepts `password` against
/// the stored `hash`: the result of `bcrypt::verify` with a verification
/// error collapsed to a mismatch. It depends on the two strings alone — the
/// salt is read back out of the hash itself.
pub uninterp spec fn password_matches(password: Seq<char>, hash: Seq<char>) -> bool;

/// Relies on `bcrypt::hash` with the crate's default cost: the salt is drawn
/// at random, but whatever hash comes back, `bcrypt::verify` accepts the same
/// password against it (both routines truncate the password the same way).
#[verifier::external_body]
fn hash_password(password: &str) -> (r: Result<String, ()>)
    ensures
        r matches Ok(h) ==> password_matches(password@, h@),
{
    bcrypt::hash(password, bcrypt::DEFAULT_COST).map_err(|_| ())
}

/// Relies on `bcrypt::verify`: true exactly when the password verifies
/// against the hash, with a verification error (a malformed hash) collapsed
/// to `false`.
#[verifier::external_body]
fn verify_password(password: &str, hash: &str) -> (r: bool)
    ensures
        r == password_matches(password@, hash@),
{
    bcrypt::verify(password, hash).unwrap_or(false)
}

/// The one condition under which a login succeeds: the username is
/// registered and the password verifies against its stored hash.
pub open spec fn login_ok(users: Map<Seq<char>, Seq<char>>, username: Seq<char>, password: Seq<char>) -> bool {
    users.contains_key(username) && password_matches(password, users[username])
}

/// Hashes the password and persists the one new `(username, hash)` row.
///
/// On success the username was free, exactly that row was added, and the new
/// row's hash verifies the given password — so a following login with the
/// same credentials finds `login_ok`. A taken username is never accepted;
/// `StorageConflict` is returned exactly when storage reports the unique
/// constraint violated. On any failure the users table is unchanged.
pub fn register(c: &mut rusqlite::Connection, username: &str, password: &str) -> (r: Result<(), AuthError>)
    ensures
        r is Ok ==> !users_of(*old(c)).contains_key(username@) && users_of(*final(c)) == users_of(
            *old(c),
        ).insert(username@, users_of(*final(c))[username@]) && login_ok(
            users_of(*final(c)),
            username@,
            password@,
        ),
        r is Err ==> users_of(*final(c)) == users_of(*old(c)),
        users_of(*old(c)).contains_key(username@) ==> r is Err && (r->Err_0
            == AuthError::StorageConflict || r->Err_0 == AuthError::HashingFailed),
        r is Err && r->Err_0 == AuthError::StorageConflict ==> users_of(*old(c)).contains_key(
            username@,
        ),
        store::only_users_touched(*old(c), *final(c)),
{
    let hash = match hash_password(password) {
        Ok(h) => h,
        Err(_) => { return Err(AuthError::HashingFailed) },
    };
    match store::insert_user(c, username, hash.as_str()) {
        Ok(_) => {
            assert(users_of(*c)[username@] == hash@);
            Ok(())
        },
        Err(conflict) => {
            if conflict {
                Err(AuthError::StorageConflict)
            } else {
                Err(AuthError::Storage)
            }
        },
    }
}

/// The login decision on a completed credential lookup: success exactly
/// when the lookup found a stored hash and the password verifies against
/// it; a missing user, a mismatch and a failed lookup all land on the one
/// `InvalidCredentials` outcome. Pinned both ways, so a decision that
/// rejects everyone (or accepts anyone) does not meet this contract.
pub fn decide_login(lookup: Result<Option<String>, ()>, password: &str) -> (r: Result<
    (),
    AuthError,
>)
    ensures
        r is Ok <==> (lookup matches Ok(Some(h)) && password_matches(password@, h@)),
        r is Err ==> r->Err_0 == AuthError::InvalidCredentials,
{
    match lookup {
        Ok(Some(stored_hash)) => {
            if verify_password(password, stored_hash.as_str()) {
                Ok(())
            } else {
                Err(AuthError::InvalidCredentials)
            }
        },
        Ok(None) => Err(AuthError::InvalidCredentials),
        Err(_) => Err(AuthError::InvalidCredentials),
    }
}

/// Looks the username up and hands the outcome to `decide_login`.
///
/// Success implies `login_ok` of the current users table; whenever
/// `login_ok` does not hold the result is exactly `InvalidCredentials`, and
/// `InvalidCredentials` is the only error this operation ever returns — an
/// unknown username, a wrong password and a failed lookup are
/// indistinguishable from the outside. Success cannot be promised here even
/// for fresh credentials, since the lookup itself may fail; what the
/// outcome is for each lookup value is pinned by `decide_login`. No stored
/// state changes.
pub fn login(c: &rusqlite::Connection, username: &str, password: &str) -> (r: Result<(), AuthError>)
    ensures
        r is Ok ==> login_ok(users_of(*c), username@, password@),
        !login_ok(users_of(*c), username@, password@) ==> r is Err,
        r is Err ==> r->Err_0 == AuthError::InvalidCredentials,
{
    decide_login(store::find_user(c, username), password)
}

/// Registering then logging in with the same credentials succeeds: a users
/// table extended with a row whose hash verifies the password satisfies the
/// login condition for that username and password.
pub proof fn lemma_register_then_login(
    users: Map<Seq<char>, Seq<char>>,
    username: Seq<char>,
    password: Seq<char>,
    hash: Seq<char>,
)
    requires
        password_matches(password, hash),
    ensures
        login_ok(users.insert(username, hash), username, password),
{
}

/// The login outcome does not reveal why it failed: an unknown username and
/// a non-verifying password each falsify the one success condition, so both
/// reach the same `InvalidCredentials` result of `login`.
pub proof fn lemma_login_rejects_uniformly(
    users: Map<Seq<char>, Seq<char>>,
    username: Seq<char>,
    password: Seq<char>,
)
    ensures
        !users.contains_key(username) ==> !login_ok(users, username, password),
        users.contains_key(username) && !password_matches(password, users[username])
            ==> !login_ok(users, username, password),
{
}

/// A second registration of a taken username changes nothing: the first
/// inserted row is present and keeps its hash, so the users table holds
/// exactly one binding for the username, whatever is attempted afterwards.
pub proof fn lemma_duplicate_username_keeps_first_row(
    users: Map<Seq<char>, Seq<char>>,
    username: Seq<char>,
    hash: Seq<char>,
)
    ensures
        users.insert(username, hash).contains_key(username),
        users.insert(username, hash)[username] == hash,
{
}

} // verus!
