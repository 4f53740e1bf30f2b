//! The JSON interface of the server: `GET /api/v1/recipe/{id}` and
//! `GET /api/v1/random-recipe`.
//!
//! The payload of this module keeps the tags of a recipe as they are stored:
//! an optional list, in order, repetitions included. The payload in which the
//! tags are a set is [`crate::recipe::JsonRecipe`].

use vstd::prelude::*;
use vstd::std_specs::convert::FromSpecImpl;
use crate::error::{RecipeError, Unavailable, NOT_FOUND};
use crate::recipe::{get, get_random, got, got_random, Recipe, RecipeView};
use crate::row::RecipeRow;

verus! {

/// The JSON payload of a recipe, field for field the recipe itself.
#[derive(Debug, PartialEq, Eq)]
pub struct JsonRecipe {
    pub id: String,
    pub name: String,
    pub ingredients: Vec<String>,
    pub instructions: String,
    pub tags: Option<Vec<String>>,
    pub source: Option<String>,
}

impl View for JsonRecipe {
    type V = RecipeView;

    open spec fn view(&self) -> RecipeView {
        RecipeView {
            id: self.id@,
            name: self.name@,
            ingredients: self.ingredients.deep_view(),
            instructions: self.instructions@,
            tags: self.tags.deep_view(),
            source: self.source.deep_view(),
        }
    }
}

impl From<Recipe> for JsonRecipe {
    /// Every field passes through unchanged.
    fn from(r: Recipe) -> (payload: JsonRecipe) {
        JsonRecipe {
            id: r.id,
            name: r.name,
            ingredients: r.ingredients,
            instructions: r.instructions,
            tags: r.tags,
            source: r.source,
        }
    }
}

impl FromSpecImpl<Recipe> for JsonRecipe {
    open spec fn obeys_from_spec() -> bool {
        true
    }

    open spec fn from_spec(r: Recipe) -> JsonRecipe {
        JsonRecipe {
            id: r.id,
            name: r.name,
            ingredients: r.ingredients,
            instructions: r.instructions,
            tags: r.tags,
            source: r.source,
        }
    }
}

/// Answers a request for the recipe under an identifier, given the outcome of
/// the lookup: the row that the storage backend found under the identifier,
/// or `None` where it found no row.
///
/// Where the row is found and can be read, the answer is the payload of its
/// recipe. Every failure is answered with `NOT_FOUND`, with the failure as
/// the cause.
pub fn get_recipe_by_id(found: Option<&RecipeRow>) -> (r: Result<JsonRecipe, Unavailable>)
    ensures
        match got(found.deep_view()) {
            Ok((recipe, tags)) => r matches Ok(payload) && payload@ == recipe,
            Err(error) => r matches Err(signal) && signal.status == NOT_FOUND && signal.cause@
                == error,
        },
{
    match get(found) {
        Ok((recipe, _tags)) => Ok(JsonRecipe::from(recipe)),
        Err(error) => Err(Unavailable::new(error)),
    }
}

/// Handles `GET /api/v1/recipe/{id}`: see [`get_recipe_by_id`].
pub fn get_recipe(found: Option<&RecipeRow>) -> (r: Result<JsonRecipe, Unavailable>)
    ensures
        match got(found.deep_view()) {
            Ok((recipe, tags)) => r matches Ok(payload) && payload@ == recipe,
            Err(error) => r matches Err(signal) && signal.status == NOT_FOUND && signal.cause@
                == error,
        },
        found is None ==> r == Err::<JsonRecipe, Unavailable>(
            Unavailable { status: NOT_FOUND, cause: RecipeError::NotFound },
        ),
{
    get_recipe_by_id(found)
}

/// Handles the first half of `GET /api/v1/random-recipe`, given the outcome
/// of the random selection of one identifier: the identifier column of the
/// selected row, or `None` where the table has no row.
///
/// The answer is the identifier to look up next; the outcome of that lookup
/// goes to [`get_recipe_by_id`]. Every failure is answered with `NOT_FOUND`,
/// with the failure as the cause.
pub fn get_random_recipe(picked: Option<Option<String>>) -> (r: Result<String, Unavailable>)
    ensures
        match got_random(picked.deep_view()) {
            Ok(id) => r matches Ok(next) && next@ == id,
            Err(error) => r matches Err(signal) && signal.status == NOT_FOUND && signal.cause@
                == error,
        },
{
    match get_random(picked) {
        Ok(id) => Ok(id),
        Err(error) => Err(Unavailable::new(error)),
    }
}

} // verus!
