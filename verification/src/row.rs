//! Stored rows, and the codec between a row and a [`Recipe`].
//!
//! A row keeps the two list-valued fields of a recipe as JSON text. Reading a
//! row back checks every column; nothing is recovered from a row that fails.

use vstd::prelude::*;
use crate::error::{view_result, Column, RecipeError, RecipeErrorView};
use crate::json::{json_string_list, json_text, parse_string_list, write_string_list};
use crate::recipe::{Recipe, RecipeView};

verus! {

/// One row of the recipe table, as the storage backend holds it.
#[derive(Debug, Clone, PartialEq, Eq)]
pub struct RecipeRow {
    /// The primary key. The backend can hold a null here; such a row cannot
    /// be read as a recipe.
    pub id: Option<String>,
    pub name: String,
    /// JSON text of a list of strings.
    pub ingredients: String,
    pub instructions: String,
    /// JSON text of a list of strings, or null where no tags are recorded.
    pub tags: Option<String>,
    pub source: Option<String>,
}

/// The mathematical content of a [`RecipeRow`].
pub struct RecipeRowView {
    pub id: Option<Seq<char>>,
    pub name: Seq<char>,
    pub ingredients: Seq<char>,
    pub instructions: Seq<char>,
    pub tags: Option<Seq<char>>,
    pub source: Option<Seq<char>>,
}

impl View for RecipeRow {
    type V = RecipeRowView;

    open spec fn view(&self) -> RecipeRowView {
        RecipeRowView {
            id: self.id.deep_view(),
            name: self.name@,
            ingredients: self.ingredients@,
            instructions: self.instructions@,
            tags: self.tags.deep_view(),
            source: self.source.deep_view(),
        }
    }
}

impl DeepView for RecipeRow {
    type V = RecipeRowView;

    open spec fn deep_view(&self) -> RecipeRowView {
        self@
    }
}

/// The recipe that the parts of a row make, given what the JSON reader made of
/// the two list columns (`None`: the text was rejected). Columns are checked
/// in the order identifier, ingredients, tags; the first fault is reported.
pub open spec fn assembled(
    id: Option<Seq<char>>,
    name: Seq<char>,
    ingredients: Option<Seq<Seq<char>>>,
    instructions: Seq<char>,
    tags: Option<Option<Seq<Seq<char>>>>,
    source: Option<Seq<char>>,
) -> Result<RecipeView, RecipeErrorView> {
    if id is None {
        Err(RecipeErrorView::DecodeError(Column::Id))
    } else if ingredients is None {
        Err(RecipeErrorView::DecodeError(Column::Ingredients))
    } else if tags == Some(None::<Seq<Seq<char>>>) {
        Err(RecipeErrorView::DecodeError(Column::Tags))
    } else {
        Ok(
            RecipeView {
                id: id->0,
                name,
                ingredients: ingredients->0,
                instructions,
                tags: match tags {
                    Some(list) => list,
                    None => None,
                },
                source,
            },
        )
    }
}

/// What reading a row gives: the recipe it stores, or the first column at
/// fault.
pub open spec fn decoded(row: RecipeRowView) -> Result<RecipeView, RecipeErrorView> {
    assembled(
        row.id,
        row.name,
        json_string_list(row.ingredients),
        row.instructions,
        match row.tags {
            Some(text) => Some(json_string_list(text)),
            None => None,
        },
        row.source,
    )
}

/// The row in which a recipe is stored.
pub open spec fn encoded(recipe: RecipeView) -> RecipeRowView {
    RecipeRowView {
        id: Some(recipe.id),
        name: recipe.name,
        ingredients: json_text(recipe.ingredients),
        instructions: recipe.instructions,
        tags: match recipe.tags {
            Some(list) => Some(json_text(list)),
            None => None,
        },
        source: recipe.source,
    }
}

/// What the JSON reader made of a list column, without the reader's own
/// error value.
pub open spec fn list_of(parsed: Result<Vec<String>, serde_json::Error>) -> Option<Seq<Seq<char>>> {
    match parsed {
        Ok(list) => Some(list.deep_view()),
        Err(_) => None,
    }
}

/// As [`list_of`], for the nullable tags column.
pub open spec fn tags_of(parsed: Option<Result<Vec<String>, serde_json::Error>>) -> Option<
    Option<Seq<Seq<char>>>,
> {
    match parsed {
        Some(outcome) => Some(list_of(outcome)),
        None => None,
    }
}

/// Builds a recipe from the plain columns of a row and from what the JSON
/// reader returned for its two list columns.
pub fn recipe_from_parts(
    id: Option<String>,
    name: String,
    ingredients: Result<Vec<String>, serde_json::Error>,
    instructions: String,
    tags: Option<Result<Vec<String>, serde_json::Error>>,
    source: Option<String>,
) -> (r: Result<Recipe, RecipeError>)
    ensures
        view_result(r) == assembled(
            id.deep_view(),
            name@,
            list_of(ingredients),
            instructions@,
            tags_of(tags),
            source.deep_view(),
        ),
{
    let id = match id {
        Some(id) => id,
        None => {
            return Err(RecipeError::DecodeError(Column::Id));
        },
    };
    let ingredients = match ingredients {
        Ok(list) => list,
        Err(_) => {
            return Err(RecipeError::DecodeError(Column::Ingredients));
        },
    };
    let tags = match tags {
        Some(Ok(list)) => Some(list),
        Some(Err(_)) => {
            return Err(RecipeError::DecodeError(Column::Tags));
        },
        None => None,
    };
    Ok(Recipe { id, name, ingredients, instructions, tags, source })
}

/// Reads a stored row as a recipe.
///
/// Succeeds exactly on rows whose identifier is not null and whose list
/// columns hold JSON lists of strings; the recipe then has the row's texts
/// unchanged and the lists that the JSON texts denote.
pub fn decode_row(row: &RecipeRow) -> (r: Result<Recipe, RecipeError>)
    ensures
        view_result(r) == decoded(row@),
{
    let ingredients = parse_string_list(row.ingredients.as_str());
    let tags = match &row.tags {
        Some(text) => Some(parse_string_list(text.as_str())),
        None => None,
    };
    recipe_from_parts(
        row.id.clone(),
        row.name.clone(),
        ingredients,
        row.instructions.clone(),
        tags,
        row.source.clone(),
    )
}

/// What the JSON writer made of a list, without the writer's own error value.
pub open spec fn text_of(written: Result<String, serde_json::Error>) -> Option<Seq<char>> {
    match written {
        Ok(text) => Some(text@),
        Err(_) => None,
    }
}

/// As [`text_of`], for the optional tags.
pub open spec fn tags_text_of(written: Option<Result<String, serde_json::Error>>) -> Option<
    Option<Seq<char>>,
> {
    match written {
        Some(outcome) => Some(text_of(outcome)),
        None => None,
    }
}

/// The row that a recipe and the JSON texts of its two lists make (`None`:
/// the writer gave no text). The ingredients are checked before the tags.
pub open spec fn row_assembled(
    recipe: RecipeView,
    ingredients: Option<Seq<char>>,
    tags: Option<Option<Seq<char>>>,
) -> Result<RecipeRowView, RecipeErrorView> {
    if ingredients is None {
        Err(RecipeErrorView::EncodeError(Column::Ingredients))
    } else if tags == Some(None::<Seq<char>>) {
        Err(RecipeErrorView::EncodeError(Column::Tags))
    } else {
        Ok(
            RecipeRowView {
                id: Some(recipe.id),
                name: recipe.name,
                ingredients: ingredients->0,
                instructions: recipe.instructions,
                tags: match tags {
                    Some(text) => text,
                    None => None,
                },
                source: recipe.source,
            },
        )
    }
}

/// Builds the row of a recipe from what the JSON writer returned for its
/// ingredients and, where it has tags, for its tags.
pub fn row_from_parts(
    recipe: &Recipe,
    ingredients: Result<String, serde_json::Error>,
    tags: Option<Result<String, serde_json::Error>>,
) -> (r: Result<RecipeRow, RecipeError>)
    ensures
        view_result(r) == row_assembled(recipe@, text_of(ingredients), tags_text_of(tags)),
{
    let ingredients = match ingredients {
        Ok(text) => text,
        Err(_) => {
            return Err(RecipeError::EncodeError(Column::Ingredients));
        },
    };
    let tags = match tags {
        Some(Ok(text)) => Some(text),
        Some(Err(_)) => {
            return Err(RecipeError::EncodeError(Column::Tags));
        },
        None => None,
    };
    Ok(
        RecipeRow {
            id: Some(recipe.id.clone()),
            name: recipe.name.clone(),
            ingredients,
            instructions: recipe.instructions.clone(),
            tags,
            source: recipe.source.clone(),
        },
    )
}

/// Puts a recipe into the row that stores it.
///
/// Every recipe has a row: the result is `Ok`, the row is [`encoded`] of the
/// recipe, and reading it with [`decode_row`] gives the recipe again.
pub fn encode_row(recipe: &Recipe) -> (r: Result<RecipeRow, RecipeError>)
    ensures
        r is Ok,
        r matches Ok(row) ==> row@ == encoded(recipe@) && decoded(row@) == Ok::<
            RecipeView,
            RecipeErrorView,
        >(recipe@),
{
    let ingredients = write_string_list(&recipe.ingredients);
    let tags = match &recipe.tags {
        Some(list) => Some(write_string_list(list)),
        None => None,
    };
    row_from_parts(recipe, ingredients, tags)
}

/// The rows in which a batch of recipes is stored, in the batch's order.
pub open spec fn encoded_all(recipes: Seq<RecipeView>) -> Seq<RecipeRowView> {
    Seq::new(recipes.len(), |i: int| encoded(recipes[i]))
}

/// Puts a whole batch of recipes into rows.
///
/// Every batch has its rows: the result is `Ok`, with one row for each
/// recipe, in order, each reading back as its recipe. Rows are handed out
/// only for the whole batch, never for a part of it.
pub fn encode_rows(recipes: &Vec<Recipe>) -> (r: Result<Vec<RecipeRow>, RecipeError>)
    ensures
        r is Ok,
        r matches Ok(rows) ==> {
            &&& rows.deep_view() == encoded_all(recipes.deep_view())
            &&& forall|i: int|
                0 <= i < recipes.len() ==> decoded(#[trigger] rows[i]@) == Ok::<
                    RecipeView,
                    RecipeErrorView,
                >(recipes[i]@)
        },
{
    let mut rows: Vec<RecipeRow> = Vec::new();
    let mut i: usize = 0;
    while i < recipes.len()
        invariant
            i <= recipes.len(),
            rows.len() == i,
            forall|k: int| 0 <= k < i ==> (#[trigger] rows[k])@ == encoded(recipes[k]@),
            forall|k: int|
                0 <= k < i ==> decoded(#[trigger] rows[k]@) == Ok::<RecipeView, RecipeErrorView>(
                    recipes[k]@,
                ),
        decreases recipes.len() - i,
    {
        match encode_row(&recipes[i]) {
            Ok(row) => {
                rows.push(row);
            },
            Err(error) => {
                return Err(error);
            },
        }
        i += 1;
    }
    assert(rows.deep_view() =~= encoded_all(recipes.deep_view()));
    Ok(rows)
}

} // verus!
