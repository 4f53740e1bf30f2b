//! The recipe entity and the recipe shown when the store has nothing to offer.

use vstd::prelude::*;
use crate::error::{Column, RecipeError, RecipeErrorView};
use crate::row::{decode_row, decoded, RecipeRow, RecipeRowView};

verus! {

/// A recipe as the server holds it in memory.
#[derive(Debug, PartialEq, Eq)]
pub struct Recipe {
    pub id: String,
    pub name: String,
    pub ingredients: Vec<String>,
    pub instructions: String,
    pub tags: Option<Vec<String>>,
    pub source: Option<String>,
}

/// The mathematical content of a [`Recipe`]: every text as a sequence of
/// characters, every list as a sequence of texts.
pub struct RecipeView {
    pub id: Seq<char>,
    pub name: Seq<char>,
    pub ingredients: Seq<Seq<char>>,
    pub instructions: Seq<char>,
    pub tags: Option<Seq<Seq<char>>>,
    pub source: Option<Seq<char>>,
}

impl View for Recipe {
    type V = RecipeView;

    open spec fn view(&self) -> RecipeView {
        RecipeView {
            id: self.id@,
            name: self.name@,
            ingredients: self.ingredients.deep_view(),
            instructions: self.instructions@,
            tags: self.tags.deep_view(),
            source: self.source.deep_view(),
        }
    }
}

impl Clone for Recipe {
    /// A copy with the same content.
    fn clone(&self) -> (copy: Recipe)
        ensures
            copy@ == self@,
    {
        let ingredients = self.ingredients.clone();
        assert(ingredients.deep_view() =~= self.ingredients.deep_view());
        let tags = match &self.tags {
            Some(list) => {
                let copied = list.clone();
                assert(copied.deep_view() =~= list.deep_view());
                Some(copied)
            },
            None => None,
        };
        Recipe {
            id: self.id.clone(),
            name: self.name.clone(),
            ingredients,
            instructions: self.instructions.clone(),
            tags,
            source: self.source.clone(),
        }
    }
}

impl DeepView for Recipe {
    type V = RecipeView;

    open spec fn deep_view(&self) -> RecipeView {
        self@
    }
}

/// What [`fallback_recipe`] returns.
pub open spec fn fallback_recipe_view() -> RecipeView {
    RecipeView {
        id: "fallback"@,
        name: "PB&J Sandwich"@,
        ingredients: seq!["2 slices of bread"@, "2 tbsp peanut butter"@, "2 tbsp jelly"@],
        instructions: "Spread peanut butter on one slice of bread. Spread jelly on the other. Combine. Enjoy!"@,
        tags: Some(seq!["quick"@, "easy"@, "no-cook"@]),
        source: Some("Roha Khan"@),
    }
}

/// The recipe a server holds before any stored recipe has been selected.
pub fn fallback_recipe() -> (recipe: Recipe)
    ensures
        recipe@ == fallback_recipe_view(),
{
    let mut ingredients: Vec<String> = Vec::new();
    ingredients.push("2 slices of bread".to_string());
    ingredients.push("2 tbsp peanut butter".to_string());
    ingredients.push("2 tbsp jelly".to_string());
    let mut tags: Vec<String> = Vec::new();
    tags.push("quick".to_string());
    tags.push("easy".to_string());
    tags.push("no-cook".to_string());
    let recipe = Recipe {
        id: "fallback".to_string(),
        name: "PB&J Sandwich".to_string(),
        ingredients,
        instructions: "Spread peanut butter on one slice of bread. Spread jelly on the other. Combine. Enjoy!".to_string(),
        tags: Some(tags),
        source: Some("Roha Khan".to_string()),
    };
    assert(recipe.ingredients.deep_view() =~= fallback_recipe_view().ingredients);
    assert(recipe.tags.deep_view()->0 =~= fallback_recipe_view().tags->0);
    recipe
}

/// A list without its repetitions: each text stands once, at the place of its
/// first occurrence.
pub open spec fn distinct(list: Seq<Seq<char>>) -> Seq<Seq<char>>
    decreases list.len(),
{
    if list.len() == 0 {
        Seq::empty()
    } else {
        let earlier = distinct(list.drop_last());
        if earlier.contains(list.last()) {
            earlier
        } else {
            earlier.push(list.last())
        }
    }
}

/// [`distinct`] keeps exactly the texts of the list, each of them once.
pub proof fn lemma_distinct_is_the_set(list: Seq<Seq<char>>)
    ensures
        distinct(list).no_duplicates(),
        distinct(list).to_set() == list.to_set(),
        forall|text: Seq<char>| distinct(list).contains(text) <==> list.contains(text),
        distinct(list).len() <= list.len(),
    decreases list.len(),
{
    if list.len() == 0 {
        assert(distinct(list).to_set() =~= list.to_set());
    } else {
        let front = list.drop_last();
        let earlier = distinct(front);
        lemma_distinct_is_the_set(front);
        assert forall|text: Seq<char>| distinct(list).contains(text) <==> list.contains(
            text,
        ) by {
            if list.contains(text) {
                let i = choose|i: int| 0 <= i < list.len() && list[i] == text;
                if i < list.len() - 1 {
                    assert(front[i] == text);
                    assert(front.contains(text));
                    assert(earlier.contains(text));
                }
            }
            if distinct(list).contains(text) {
                if earlier.contains(text) {
                    assert(front.contains(text));
                    let i = choose|i: int| 0 <= i < front.len() && front[i] == text;
                    assert(list[i] == text);
                } else {
                    assert(text == list.last());
                    assert(list[list.len() - 1] == text);
                }
            }
            if earlier.contains(text) {
                let i = choose|i: int| 0 <= i < earlier.len() && earlier[i] == text;
                assert(distinct(list)[i] == text);
            }
            if text == list.last() && !earlier.contains(text) {
                assert(distinct(list)[earlier.len() as int] == text);
            }
        }
        assert(distinct(list).to_set() =~= list.to_set());
    }
}

/// A list that repeats nothing is its own [`distinct`].
pub proof fn lemma_distinct_of_distinct(list: Seq<Seq<char>>)
    requires
        list.no_duplicates(),
    ensures
        distinct(list) == list,
    decreases list.len(),
{
    if list.len() == 0 {
        assert(distinct(list) =~= list);
    } else {
        let front = list.drop_last();
        lemma_distinct_of_distinct(front);
        if front.contains(list.last()) {
            let i = choose|i: int| 0 <= i < front.len() && front[i] == list.last();
            assert(list[i] == list[list.len() - 1]);
        }
        assert(distinct(list) =~= list);
    }
}

/// Collapsing a list twice gives what collapsing it once gives.
pub proof fn lemma_distinct_is_idempotent(list: Seq<Seq<char>>)
    ensures
        distinct(distinct(list)) == distinct(list),
{
    lemma_distinct_is_the_set(list);
    lemma_distinct_of_distinct(distinct(list));
}

/// The tags of a recipe as a list: none where no tags are recorded.
pub open spec fn tags_or_none(tags: Option<Seq<Seq<char>>>) -> Seq<Seq<char>> {
    match tags {
        Some(list) => list,
        None => Seq::empty(),
    }
}

/// The JSON payload of a recipe in which the tags are a set: no tag stands
/// twice. The tags are kept in the order of their first occurrence.
#[derive(Debug, PartialEq, Eq)]
pub struct JsonRecipe {
    id: String,
    name: String,
    ingredients: Vec<String>,
    instructions: String,
    tags: Vec<String>,
    source: Option<String>,
}

/// The mathematical content of a [`JsonRecipe`]. Its `tags` repeat nothing.
pub struct JsonRecipeView {
    pub id: Seq<char>,
    pub name: Seq<char>,
    pub ingredients: Seq<Seq<char>>,
    pub instructions: Seq<char>,
    pub tags: Seq<Seq<char>>,
    pub source: Option<Seq<char>>,
}

impl JsonRecipeView {
    /// The tags as the set that the payload stands for.
    pub open spec fn tag_set(self) -> Set<Seq<char>> {
        self.tags.to_set()
    }
}

impl View for JsonRecipe {
    type V = JsonRecipeView;

    closed spec fn view(&self) -> JsonRecipeView {
        JsonRecipeView {
            id: self.id@,
            name: self.name@,
            ingredients: self.ingredients.deep_view(),
            instructions: self.instructions@,
            tags: self.tags.deep_view(),
            source: self.source.deep_view(),
        }
    }
}

impl JsonRecipe {
    #[verifier::type_invariant]
    spec fn tags_are_a_set(self) -> bool {
        self.tags.deep_view().no_duplicates()
    }

    /// The payload of a recipe with the given tags. Every field of the recipe
    /// but its own tags passes through unchanged; the given tags are
    /// collapsed to a set.
    pub fn new(recipe: Recipe, tags: Vec<String>) -> (payload: JsonRecipe)
        ensures
            payload@ == (JsonRecipeView {
                id: recipe@.id,
                name: recipe@.name,
                ingredients: recipe@.ingredients,
                instructions: recipe@.instructions,
                tags: distinct(tags.deep_view()),
                source: recipe@.source,
            }),
            payload@.tags.no_duplicates(),
            payload@.tag_set() == tags.deep_view().to_set(),
    {
        let ghost given = tags.deep_view();
        let mut kept: Vec<String> = Vec::new();
        let mut i: usize = 0;
        while i < tags.len()
            invariant
                i <= tags.len(),
                given == tags.deep_view(),
                kept.deep_view() == distinct(given.take(i as int)),
            decreases tags.len() - i,
        {
            proof {
                assert(given.take(i + 1).drop_last() =~= given.take(i as int));
                assert(given.take(i + 1).last() == tags[i as int]@);
            }
            if !holds_text(&kept, &tags[i]) {
                kept.push(tags[i].clone());
                assert(kept.deep_view() =~= distinct(given.take(i as int)).push(tags[i as int]@));
            }
            i += 1;
        }
        proof {
            assert(given.take(tags.len() as int) =~= given);
            lemma_distinct_is_the_set(given);
        }
        JsonRecipe {
            id: recipe.id,
            name: recipe.name,
            ingredients: recipe.ingredients,
            instructions: recipe.instructions,
            tags: kept,
            source: recipe.source,
        }
    }

    /// The recipe that the payload stands for, with all its tags recorded,
    /// and beside it the tags on their own.
    pub fn to_recipe(&self) -> (pair: (Recipe, Vec<String>))
        ensures
            pair.0@ == (RecipeView {
                id: self@.id,
                name: self@.name,
                ingredients: self@.ingredients,
                instructions: self@.instructions,
                tags: Some(self@.tags),
                source: self@.source,
            }),
            pair.1.deep_view() == self@.tags,
            self@.tags.no_duplicates(),
    {
        proof {
            use_type_invariant(self);
        }
        let ingredients = self.ingredients.clone();
        assert(ingredients.deep_view() =~= self.ingredients.deep_view());
        let recorded = self.tags.clone();
        assert(recorded.deep_view() =~= self.tags.deep_view());
        let tags = self.tags.clone();
        assert(tags.deep_view() =~= self.tags.deep_view());
        let recipe = Recipe {
            id: self.id.clone(),
            name: self.name.clone(),
            ingredients,
            instructions: self.instructions.clone(),
            tags: Some(recorded),
            source: self.source.clone(),
        };
        (recipe, tags)
    }
}

/// Whether a list holds a text.
fn holds_text(list: &Vec<String>, text: &String) -> (held: bool)
    ensures
        held == list.deep_view().contains(text@),
{
    let mut i: usize = 0;
    while i < list.len()
        invariant
            i <= list.len(),
            forall|k: int| 0 <= k < i ==> (#[trigger] list.deep_view()[k]) != text@,
        decreases list.len() - i,
    {
        if list[i] == *text {
            assert(list.deep_view()[i as int] == text@);
            return true;
        }
        i += 1;
    }
    false
}

/// What [`get`] makes of the outcome of a lookup by identifier: the recipe of
/// the row that was found, and beside it the recipe's tags as a list.
pub open spec fn got(found: Option<RecipeRowView>) -> Result<
    (RecipeView, Seq<Seq<char>>),
    RecipeErrorView,
> {
    match found {
        None => Err(RecipeErrorView::NotFound),
        Some(row) => match decoded(row) {
            Ok(recipe) => Ok((recipe, tags_or_none(recipe.tags))),
            Err(error) => Err(error),
        },
    }
}

/// Reads the outcome of a lookup by identifier: the row that the storage
/// backend found under the identifier, or `None` where it found no row.
///
/// Returns the recipe of the row and, beside it, the recipe's tags (no tags
/// where none are recorded). Fails with `NotFound` exactly if no row was
/// found, and with `DecodeError` exactly if the row cannot be read.
pub fn get(found: Option<&RecipeRow>) -> (r: Result<(Recipe, Vec<String>), RecipeError>)
    ensures
        match got(found.deep_view()) {
            Ok((recipe, tags)) => r matches Ok(pair) && pair.0@ == recipe && pair.1.deep_view()
                == tags,
            Err(error) => r matches Err(e) && e@ == error,
        },
        found is None ==> r == Err::<(Recipe, Vec<String>), RecipeError>(RecipeError::NotFound),
{
    let row = match found {
        Some(row) => row,
        None => {
            return Err(RecipeError::NotFound);
        },
    };
    let recipe = match decode_row(row) {
        Ok(recipe) => recipe,
        Err(error) => {
            return Err(error);
        },
    };
    let tags = match &recipe.tags {
        Some(list) => {
            let copied = list.clone();
            assert(copied.deep_view() =~= list.deep_view());
            copied
        },
        None => {
            let none: Vec<String> = Vec::new();
            assert(none.deep_view() =~= Seq::<Seq<char>>::empty());
            none
        },
    };
    Ok((recipe, tags))
}

/// What [`get_random`] makes of the outcome of a random selection.
pub open spec fn got_random(picked: Option<Option<Seq<char>>>) -> Result<
    Seq<char>,
    RecipeErrorView,
> {
    match picked {
        None => Err(RecipeErrorView::EmptyStore),
        Some(None) => Err(RecipeErrorView::DecodeError(Column::Id)),
        Some(Some(id)) => Ok(id),
    }
}

/// Reads the outcome of a random selection of one identifier: the identifier
/// column of the row that the storage backend selected, or `None` where the
/// table has no row.
///
/// Fails with `EmptyStore` exactly if no row was selected, and with
/// `DecodeError` exactly if the selected row has a null identifier.
pub fn get_random(picked: Option<Option<String>>) -> (r: Result<String, RecipeError>)
    ensures
        match got_random(picked.deep_view()) {
            Ok(id) => r matches Ok(text) && text@ == id,
            Err(error) => r matches Err(e) && e@ == error,
        },
        picked is None ==> r == Err::<String, RecipeError>(RecipeError::EmptyStore),
{
    match picked {
        None => Err(RecipeError::EmptyStore),
        Some(None) => Err(RecipeError::DecodeError(Column::Id)),
        Some(Some(id)) => Ok(id),
    }
}

} // verus!
