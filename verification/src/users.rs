//! The decisions in the handling of the user database: whether its file is ready, and whether a
//! new user may be created. The database itself is read and written by the server.
use vstd::prelude::*;

verus! {

/// How creating the database file went.
#[derive(Clone, Copy, Debug, PartialEq, Eq, Structural)]
pub enum FileCreation {
    /// The file was created.
    Created,
    /// The file was there already.
    AlreadyExists,
    /// Creating it failed for another reason.
    Failed,
}

/// Whether the database file is there to be used after trying to create it: it is when it was
/// created or was there already, and not when creating it failed otherwise.
pub fn database_ready(outcome: FileCreation) -> (res: bool)
    ensures
        res == (outcome != FileCreation::Failed),
{
    match outcome {
        FileCreation::Created => true,
        FileCreation::AlreadyExists => true,
        FileCreation::Failed => false,
    }
}

/// What stepping the query for a user of a given name gave.
#[derive(Clone, Copy, Debug, PartialEq, Eq, Structural)]
pub enum QueryStep {
    /// A row: a user of that name exists.
    Row,
    /// No row.
    Done,
    /// Stepping the query failed.
    Failed,
}

/// Why a user could not be created.
#[derive(Clone, Copy, Debug, PartialEq, Eq, Structural)]
pub enum CreateUserError {
    /// A user of that name exists already.
    AlreadyExists,
}

impl CreateUserError {
    /// The message of the error.
    pub fn message(&self) -> (res: &'static str)
        ensures
            res@ == "user already exists"@,
    {
        match self {
            CreateUserError::AlreadyExists => "user already exists",
        }
    }
}

/// Whether a user may be created, given what the lookup of its name gave: not when a user of
/// that name was found; otherwise (no row, or a lookup that failed) it may.
pub fn create_user(lookup: QueryStep) -> (res: Result<(), CreateUserError>)
    ensures
        lookup == QueryStep::Row ==> res == Err::<(), CreateUserError>(CreateUserError::AlreadyExists),
        lookup != QueryStep::Row ==> res is Ok,
{
    if lookup == QueryStep::Row {
        return Err(CreateUserError::AlreadyExists);
    }
    Ok(())
}

} // verus!
