//! The errors of the recipe path and the signal a request handler gives when
//! no recipe can be served.

use vstd::prelude::*;

verus! {

/// A column of a stored recipe row that can fail to hold what the schema asks.
#[derive(Debug, Clone, Copy, PartialEq, Eq)]
pub enum Column {
    Id,
    Ingredients,
    Tags,
}

/// Why a recipe could not be read, written or located.
#[derive(Debug, Clone, PartialEq, Eq)]
pub enum RecipeError {
    /// The requested identifier is not in the store.
    NotFound,
    /// A random recipe was asked of a store without rows.
    EmptyStore,
    /// A stored column does not hold what the schema asks for: a null
    /// identifier, or a list column whose text is not a JSON list of strings.
    DecodeError(Column),
    /// The JSON writer gave no text for a list of a recipe. The writer of
    /// this library always gives one; the variant is for rows assembled from
    /// the answers of another writer.
    EncodeError(Column),
    /// A row with this identifier is already stored, or stands earlier in
    /// the same batch.
    DuplicateId(String),
    /// The storage location is not one the server can use; holds the
    /// location as given.
    InvalidConfiguration(String),
    /// A file or the storage backend failed; holds the backend's message.
    IOFailure(String),
}

/// The mathematical content of a [`RecipeError`].
pub enum RecipeErrorView {
    NotFound,
    EmptyStore,
    DecodeError(Column),
    EncodeError(Column),
    DuplicateId(Seq<char>),
    InvalidConfiguration(Seq<char>),
    IOFailure(Seq<char>),
}

impl View for RecipeError {
    type V = RecipeErrorView;

    open spec fn view(&self) -> RecipeErrorView {
        match self {
            RecipeError::NotFound => RecipeErrorView::NotFound,
            RecipeError::EmptyStore => RecipeErrorView::EmptyStore,
            RecipeError::DecodeError(column) => RecipeErrorView::DecodeError(*column),
            RecipeError::EncodeError(column) => RecipeErrorView::EncodeError(*column),
            RecipeError::DuplicateId(id) => RecipeErrorView::DuplicateId(id@),
            RecipeError::InvalidConfiguration(location) => RecipeErrorView::InvalidConfiguration(
                location@,
            ),
            RecipeError::IOFailure(message) => RecipeErrorView::IOFailure(message@),
        }
    }
}

/// The content of a result whose error is a [`RecipeError`].
pub open spec fn view_result<T: View>(r: Result<T, RecipeError>) -> Result<T::V, RecipeErrorView> {
    match r {
        Ok(value) => Ok(value@),
        Err(error) => Err(error@),
    }
}

/// The status a handler answers with when it has no recipe to serve.
pub const NOT_FOUND: u16 = 404;

/// What a request handler returns in place of a recipe: the status for the
/// caller, and the cause for the server's own log. The cause never reaches
/// the caller.
#[derive(Debug, Clone, PartialEq, Eq)]
pub struct Unavailable {
    pub status: u16,
    pub cause: RecipeError,
}

impl Unavailable {
    /// Every failure of the recipe path is answered alike, with
    /// [`NOT_FOUND`].
    pub fn new(cause: RecipeError) -> (signal: Unavailable)
        ensures
            signal.status == NOT_FOUND,
            signal.cause == cause,
    {
        Unavailable { status: NOT_FOUND, cause }
    }
}

} // verus!
