//! Recipe selection: which lookup a request asks of the storage backend, and
//! which recipe, or which failure, the outcome of that lookup resolves to.

use vstd::prelude::*;
use crate::error::{view_result, RecipeError, RecipeErrorView};
use crate::recipe::{Recipe, RecipeView};
use crate::row::{decode_row, decoded, RecipeRow, RecipeRowView};
use crate::web::GetRecipeParams;

verus! {

/// The lookup that a request asks of the storage backend.
#[derive(Debug, PartialEq, Eq)]
pub enum RecipeQuery {
    /// The row stored under this identifier.
    ById(String),
    /// One row, selected at random among all rows.
    Random,
}

/// The lookup for a request: by identifier where the request names one, at
/// random where it names none.
pub fn query_for(params: &GetRecipeParams) -> (query: RecipeQuery)
    ensures
        match params.id {
            Some(id) => query matches RecipeQuery::ById(asked) && asked@ == id@,
            None => query is Random,
        },
{
    match &params.id {
        Some(id) => RecipeQuery::ById(id.clone()),
        None => RecipeQuery::Random,
    }
}

/// What a request resolves to, given whether it named an identifier and the
/// row that its lookup found.
pub open spec fn chosen(by_id: bool, found: Option<RecipeRowView>) -> Result<
    RecipeView,
    RecipeErrorView,
> {
    match found {
        Some(row) => decoded(row),
        None => if by_id {
            Err(RecipeErrorView::NotFound)
        } else {
            Err(RecipeErrorView::EmptyStore)
        },
    }
}

/// Resolves a request to a recipe, given the outcome of the lookup of
/// [`query_for`]: the row that the storage backend found, or `None` where it
/// found no row.
///
/// A row that was found is read. A request by identifier that found no row
/// fails with `NotFound`; a random selection that found no row fails with
/// `EmptyStore`; a row that cannot be read fails with `DecodeError`. Nothing
/// is retried and nothing is remembered between requests.
pub fn choose_recipe(params: &GetRecipeParams, found: Option<&RecipeRow>) -> (r: Result<
    Recipe,
    RecipeError,
>)
    ensures
        view_result(r) == chosen(params.id is Some, found.deep_view()),
        found is None && params.id is Some ==> r == Err::<Recipe, RecipeError>(
            RecipeError::NotFound,
        ),
        found is None && params.id is None ==> r == Err::<Recipe, RecipeError>(
            RecipeError::EmptyStore,
        ),
{
    match found {
        Some(row) => decode_row(row),
        None => match &params.id {
            Some(_) => Err(RecipeError::NotFound),
            None => Err(RecipeError::EmptyStore),
        },
    }
}

} // verus!
