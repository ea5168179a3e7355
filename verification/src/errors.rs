//! The kinds of failure, and what a caller is told of each.

use vstd::prelude::*;

verus! {

/// Whether a failure is an expected outcome of a request or a fault of the
/// system.
#[derive(Debug, Clone, Copy, PartialEq, Eq, Structural)]
pub enum ErrorKind {
    /// An expected outcome of a request that cannot be served as asked. It
    /// is no incident.
    Functional,
    /// A broken rule of the system's data, or a collaborator that failed.
    Technical,
}

/// What a caller is told of a failure: a stable code, a message that gives
/// away nothing of the system's inside, and the kind.
#[derive(Debug, Clone, Copy)]
pub struct ErrorTemplate {
    pub code: &'static str,
    pub message: &'static str,
    pub kind: ErrorKind,
}

/// The database could not be reached.
pub fn database_connection_failure() -> (template: ErrorTemplate)
    ensures
        template.code@ == "database_connection_failure"@,
        template.message@ == "Failed to connect to the database."@,
        template.kind == ErrorKind::Technical,
{
    ErrorTemplate {
        code: "database_connection_failure",
        message: "Failed to connect to the database.",
        kind: ErrorKind::Technical,
    }
}

/// A query found nothing.
pub fn no_entry_found() -> (template: ErrorTemplate)
    ensures
        template.code@ == "no_entry_found"@,
        template.message@ == "The query did return no results."@,
        template.kind == ErrorKind::Functional,
{
    ErrorTemplate {
        code: "no_entry_found",
        message: "The query did return no results.",
        kind: ErrorKind::Functional,
    }
}

/// Why a move did not happen.
#[derive(Debug, Clone, Copy, PartialEq, Eq, Structural)]
pub enum MoveError {
    /// The player has no stored state.
    PlayerNotFound,
    /// No passage leaves the player's location in the direction asked for.
    NoPassage,
    /// The world's data breaks one of its own rules: a passage leads to a
    /// location that does not exist, or two passages leave one location in
    /// one direction.
    DataIntegrityError,
    /// A store could not be reached, or failed.
    StoreUnavailable,
}

impl MoveError {
    /// The kind of this failure: a missing player and a missing passage are
    /// expected outcomes, the others are faults.
    pub open spec fn kind_of(self) -> ErrorKind {
        match self {
            MoveError::PlayerNotFound | MoveError::NoPassage => ErrorKind::Functional,
            MoveError::DataIntegrityError | MoveError::StoreUnavailable => ErrorKind::Technical,
        }
    }

    /// The stable code of this failure.
    pub open spec fn code_of(self) -> Seq<char> {
        match self {
            MoveError::PlayerNotFound => "player_not_found"@,
            MoveError::NoPassage => "no_passage"@,
            MoveError::DataIntegrityError => "data_integrity_error"@,
            MoveError::StoreUnavailable => "store_unavailable"@,
        }
    }

    /// What a caller is told of this failure. It gives away nothing of the
    /// system's inside.
    pub open spec fn message_of(self) -> Seq<char> {
        match self {
            MoveError::PlayerNotFound => "The player is not known."@,
            MoveError::NoPassage => "There is no passage in that direction."@,
            MoveError::DataIntegrityError => "The game world is inconsistent."@,
            MoveError::StoreUnavailable => "The game is unavailable at the moment."@,
        }
    }

    /// The kind of this failure.
    pub fn kind(&self) -> (kind: ErrorKind)
        ensures
            kind == self.kind_of(),
    {
        match self {
            MoveError::PlayerNotFound => ErrorKind::Functional,
            MoveError::NoPassage => ErrorKind::Functional,
            MoveError::DataIntegrityError => ErrorKind::Technical,
            MoveError::StoreUnavailable => ErrorKind::Technical,
        }
    }

    /// Whether this failure is to be recorded as an incident: faults are,
    /// expected outcomes never.
    pub fn is_incident(&self) -> (incident: bool)
        ensures
            incident == (self.kind_of() == ErrorKind::Technical),
    {
        match self {
            MoveError::PlayerNotFound => false,
            MoveError::NoPassage => false,
            MoveError::DataIntegrityError => true,
            MoveError::StoreUnavailable => true,
        }
    }

    /// What a caller is told of this failure.
    pub fn template(&self) -> (template: ErrorTemplate)
        ensures
            template.kind == self.kind_of(),
            template.code@ == self.code_of(),
            template.message@ == self.message_of(),
    {
        match self {
            MoveError::PlayerNotFound => ErrorTemplate {
                code: "player_not_found",
                message: "The player is not known.",
                kind: ErrorKind::Functional,
            },
            MoveError::NoPassage => ErrorTemplate {
                code: "no_passage",
                message: "There is no passage in that direction.",
                kind: ErrorKind::Functional,
            },
            MoveError::DataIntegrityError => ErrorTemplate {
                code: "data_integrity_error",
                message: "The game world is inconsistent.",
                kind: ErrorKind::Technical,
            },
            MoveError::StoreUnavailable => ErrorTemplate {
                code: "store_unavailable",
                message: "The game is unavailable at the moment.",
                kind: ErrorKind::Technical,
            },
        }
    }
}

} // verus!
