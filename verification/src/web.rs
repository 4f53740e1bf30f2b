//! The HTML page of the server: `GET /`, with an optional `id` parameter.

use vstd::prelude::*;
use crate::error::{Unavailable, NOT_FOUND};
use crate::recipe::Recipe;
use crate::row::RecipeRow;
use crate::selector::{choose_recipe, chosen};
use crate::templates::{tag_line, tag_line_of, IndexTemplate, STYLESHEET};

verus! {

/// The query parameters of the page.
#[derive(Debug, Clone, PartialEq, Eq)]
pub struct GetRecipeParams {
    /// The identifier of the recipe to show; a random recipe is shown where
    /// it is absent.
    pub id: Option<String>,
    /// Accepted and not used.
    pub tags: Option<String>,
}

/// Answers a request for the page, given the outcome of the lookup that the
/// request asked for (see [`crate::selector::query_for`]).
///
/// Where the request resolves to a recipe, the answer is the page of that
/// recipe: the recipe unchanged, its tag line, and the stylesheet; the recipe
/// also becomes the server's current recipe. Where it resolves to a failure,
/// the answer is `NOT_FOUND` with the failure as its cause, and the current
/// recipe stays as it was.
pub fn get_recipe(
    current_recipe: &mut Recipe,
    params: &GetRecipeParams,
    found: Option<&RecipeRow>,
) -> (r: Result<IndexTemplate, Unavailable>)
    ensures
        match chosen(params.id is Some, found.deep_view()) {
            Ok(recipe) => {
                &&& r matches Ok(page)
                &&& page.recipe@ == recipe
                &&& page.tags@ == tag_line_of(recipe.tags)
                &&& page.stylesheet@ == STYLESHEET@
                &&& final(current_recipe)@ == recipe
            },
            Err(error) => {
                &&& r matches Err(signal)
                &&& signal.status == NOT_FOUND
                &&& signal.cause@ == error
                &&& *final(current_recipe) == *old(current_recipe)
            },
        },
{
    match choose_recipe(params, found) {
        Ok(recipe) => {
            let tags = tag_line(&recipe);
            *current_recipe = recipe.clone();
            Ok(IndexTemplate::new(recipe, tags))
        },
        Err(error) => Err(Unavailable::new(error)),
    }
}

} // verus!
