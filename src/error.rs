use vstd::prelude::*;

verus! {

/// Every outcome of a shortcut operation that is not a success.
///
/// `NotFound`, `NoMatches` and `UniqueConstraintError` are expected outcomes a
/// caller turns into guidance; the `FailedTo*` kinds report a storage fault.
#[derive(Debug, Clone, Copy, PartialEq, Eq, Structural)]
pub enum ShortcutError {
    NotFound,
    FailedToGet,
    FailedToCreate,
    UniqueConstraintError,
    FailedToUpdate,
    NoMatches,
    FailedToSearch,
    FailedToDelete,
    EmptyShortcut,
    FailedToCreateOrUpdate,
}

/// The user-facing text of each error kind.
pub open spec fn error_text(e: ShortcutError) -> Seq<char> {
    match e {
        ShortcutError::NotFound => "shortcut not found."@,
        ShortcutError::FailedToGet => "Failed to get shortcut."@,
        ShortcutError::FailedToCreate => "Failed to create shortcut. Please try again."@,
        ShortcutError::UniqueConstraintError => "Keyword is not unique."@,
        ShortcutError::FailedToUpdate => "Failed to update shortcut. Please try again."@,
        ShortcutError::NoMatches => "Failed to find match for keyword, would you like to create one?."@,
        ShortcutError::FailedToSearch => "Failed to search shortcut."@,
        ShortcutError::FailedToDelete => "Failed to delete shortcut."@,
        ShortcutError::EmptyShortcut => "Keyword must not be empty."@,
        ShortcutError::FailedToCreateOrUpdate => "Failed to create or update shortcut. Please try again."@,
    }
}

impl ShortcutError {
    /// The message shown to a user for this error.
    pub fn message(&self) -> (r: String)
        ensures
            r@ == error_text(*self),
    {
        let text = match self {
            ShortcutError::NotFound => "shortcut not found.",
            ShortcutError::FailedToGet => "Failed to get shortcut.",
            ShortcutError::FailedToCreate => "Failed to create shortcut. Please try again.",
            ShortcutError::UniqueConstraintError => "Keyword is not unique.",
            ShortcutError::FailedToUpdate => "Failed to update shortcut. Please try again.",
            ShortcutError::NoMatches => "Failed to find match for keyword, would you like to create one?.",
            ShortcutError::FailedToSearch => "Failed to search shortcut.",
            ShortcutError::FailedToDelete => "Failed to delete shortcut.",
            ShortcutError::EmptyShortcut => "Keyword must not be empty.",
            ShortcutError::FailedToCreateOrUpdate => "Failed to create or update shortcut. Please try again.",
        };
        text.to_owned()
    }
}

} // verus!
