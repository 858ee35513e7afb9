//! Registration: a user row and an address row written in one transaction,
//! committed only when both are in, rolled back on any failure.

use vstd::prelude::*;
use crate::error::AuthError;
use crate::password::{hash_password_salted, hashed_with};

verus! {

/// The body of a registration request.
pub struct UserReg {
    pub fullname: String,
    pub username: String,
    pub dob: String,
    pub gender: String,
    pub mob_phone: String,
    pub email: String,
    pub passwd: String,
    pub address: String,
    pub city: String,
    pub postcode: String,
}

/// What the library hands the store for a new account: fresh identifiers
/// for the user and address rows, the salt drawn for the password, and the
/// password hash to keep, which embeds that salt.
pub struct NewAccount {
    pub usid: u128,
    pub addrid: u128,
    pub salt: String,
    pub passwd_hash: String,
}

/// Relies on `uuid::Uuid::new_v4` (and `as_u128`): a random identifier.
#[verifier::external_body]
fn fresh_id() -> (r: u128) {
    uuid::Uuid::new_v4().as_u128()
}

/// Prepares the rows of a registration: two fresh identifiers, a freshly
/// drawn salt, and the hash of the secret with that salt, which embeds the
/// salt and verifies against the secret.
pub fn prepare_registration(req: &UserReg) -> (r: Result<NewAccount, AuthError>)
    ensures
        r matches Ok(a) ==> hashed_with(req.passwd@, a.salt@, a.passwd_hash@),
        r matches Err(e) ==> e == AuthError::Internal,
{
    let usid = fresh_id();
    let addrid = fresh_id();
    let (salt, passwd_hash) = hash_password_salted(req.passwd.as_str())?;
    Ok(NewAccount { usid, addrid, salt, passwd_hash })
}

/// How the store answered an insert.
#[derive(Clone, Copy, Debug, PartialEq, Eq, Structural)]
pub enum StoreOutcome {
    Done,
    /// A uniqueness constraint was violated.
    Duplicate,
    Failed,
}

/// The insert whose answer is being handled.
#[derive(Clone, Copy, Debug, PartialEq, Eq, Structural)]
pub enum RegStage {
    UserRow,
    AddressRow,
}

/// What the transaction does next.
#[derive(Clone, Copy, Debug, PartialEq, Eq, Structural)]
pub enum RegAction {
    InsertAddress,
    Commit,
    Rollback(AuthError),
}

pub open spec fn next_action(stage: RegStage, outcome: StoreOutcome) -> RegAction {
    match outcome {
        StoreOutcome::Duplicate => RegAction::Rollback(AuthError::Conflict),
        StoreOutcome::Failed => RegAction::Rollback(AuthError::Internal),
        StoreOutcome::Done => match stage {
            RegStage::UserRow => RegAction::InsertAddress,
            RegStage::AddressRow => RegAction::Commit,
        },
    }
}

/// The next step of the registration transaction after an insert: the
/// address row follows the user row, commit follows both, and any failure
/// rolls the whole transaction back (a duplicate as a conflict).
pub fn registration_step(stage: RegStage, outcome: StoreOutcome) -> (r: RegAction)
    ensures
        r == next_action(stage, outcome),
{
    match outcome {
        StoreOutcome::Duplicate => RegAction::Rollback(AuthError::Conflict),
        StoreOutcome::Failed => RegAction::Rollback(AuthError::Internal),
        StoreOutcome::Done => match stage {
            RegStage::UserRow => RegAction::InsertAddress,
            RegStage::AddressRow => RegAction::Commit,
        },
    }
}

/// The answer to the client once the transaction has ended.
pub fn registration_result(action: RegAction) -> (r: Result<(), AuthError>)
    ensures
        r == match action {
            RegAction::Rollback(e) => Err(e),
            _ => Ok::<(), AuthError>(()),
        },
{
    match action {
        RegAction::Rollback(e) => Err(e),
        _ => Ok(()),
    }
}

/// A registration commits only after both rows were inserted; every other
/// path rolls back, and a duplicate at either insert is a conflict.
pub proof fn lemma_commit_only_when_complete(stage: RegStage, outcome: StoreOutcome)
    ensures
        next_action(stage, outcome) == RegAction::Commit <==> (stage == RegStage::AddressRow
            && outcome == StoreOutcome::Done),
        outcome != StoreOutcome::Done ==> next_action(stage, outcome) is Rollback,
        outcome == StoreOutcome::Duplicate ==> next_action(stage, outcome) == RegAction::Rollback(
            AuthError::Conflict,
        ),
{
}

} // verus!
