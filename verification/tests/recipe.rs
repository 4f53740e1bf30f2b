use recipe_server::error::{Column, RecipeError};
use recipe_server::recipe::{fallback_recipe, get, get_random, JsonRecipe, Recipe};
use recipe_server::row::RecipeRow;

fn text(s: &str) -> String {
    s.to_string()
}

fn toast_row() -> RecipeRow {
    RecipeRow {
        id: Some(text("r1")),
        name: text("Toast"),
        ingredients: text("[\"Bread\"]"),
        instructions: text("Toast it."),
        tags: Some(text("[\"quick\"]")),
        source: None,
    }
}

#[test]
fn fallback_recipe_is_the_sandwich() {
    let recipe = fallback_recipe();
    assert_eq!(recipe.id, "fallback");
    assert_eq!(recipe.name, "PB&J Sandwich");
    assert_eq!(
        recipe.ingredients,
        vec![text("2 slices of bread"), text("2 tbsp peanut butter"), text("2 tbsp jelly")]
    );
    assert_eq!(
        recipe.instructions,
        "Spread peanut butter on one slice of bread. Spread jelly on the other. Combine. Enjoy!"
    );
    assert_eq!(recipe.tags, Some(vec![text("quick"), text("easy"), text("no-cook")]));
    assert_eq!(recipe.source, Some(text("Roha Khan")));
}

#[test]
fn clone_keeps_every_field() {
    let recipe = fallback_recipe();
    assert_eq!(recipe.clone(), recipe);
    let mut bare = fallback_recipe();
    bare.tags = None;
    bare.source = None;
    assert_eq!(bare.clone(), bare);
}

#[test]
fn json_recipe_collapses_repeated_tags() {
    let tags = vec![text("quick"), text("easy"), text("quick"), text("Quick"), text("easy")];
    let payload = JsonRecipe::new(fallback_recipe(), tags);
    let (recipe, listed) = payload.to_recipe();
    assert_eq!(listed, vec![text("quick"), text("easy"), text("Quick")]);
    assert_eq!(recipe.tags, Some(listed));
}

#[test]
fn json_recipe_passes_the_other_fields_through() {
    let payload = JsonRecipe::new(fallback_recipe(), vec![]);
    let (recipe, listed) = payload.to_recipe();
    let given = fallback_recipe();
    assert_eq!(recipe.id, given.id);
    assert_eq!(recipe.name, given.name);
    assert_eq!(recipe.ingredients, given.ingredients);
    assert_eq!(recipe.instructions, given.instructions);
    assert_eq!(recipe.source, given.source);
    assert_eq!(recipe.tags, Some(vec![]));
    assert_eq!(listed, Vec::<String>::new());
}

#[test]
fn json_recipe_takes_the_given_tags_not_the_recipes() {
    let payload = JsonRecipe::new(fallback_recipe(), vec![text("lunch")]);
    let (recipe, listed) = payload.to_recipe();
    assert_eq!(listed, vec![text("lunch")]);
    assert_eq!(recipe.tags, Some(vec![text("lunch")]));
}

#[test]
fn json_recipe_of_its_own_tags_is_unchanged() {
    let first = JsonRecipe::new(fallback_recipe(), vec![text("b"), text("a"), text("b")]);
    let (recipe, listed) = first.to_recipe();
    let second = JsonRecipe::new(recipe, listed);
    assert_eq!(second, first);
}

#[test]
fn get_reads_the_found_row() {
    let row = toast_row();
    let (recipe, tags) = get(Some(&row)).unwrap();
    assert_eq!(
        recipe,
        Recipe {
            id: text("r1"),
            name: text("Toast"),
            ingredients: vec![text("Bread")],
            instructions: text("Toast it."),
            tags: Some(vec![text("quick")]),
            source: None,
        }
    );
    assert_eq!(tags, vec![text("quick")]);
}

#[test]
fn get_gives_no_tags_where_none_are_recorded() {
    let mut row = toast_row();
    row.tags = None;
    let (recipe, tags) = get(Some(&row)).unwrap();
    assert_eq!(recipe.tags, None);
    assert_eq!(tags, Vec::<String>::new());
}

#[test]
fn get_without_a_row_is_not_found() {
    assert_eq!(get(None), Err(RecipeError::NotFound));
}

#[test]
fn get_of_an_unreadable_row_is_a_decode_error() {
    let mut row = toast_row();
    row.ingredients = text("Bread");
    assert_eq!(get(Some(&row)), Err(RecipeError::DecodeError(Column::Ingredients)));
    let mut row = toast_row();
    row.tags = Some(text("quick"));
    assert_eq!(get(Some(&row)), Err(RecipeError::DecodeError(Column::Tags)));
    let mut row = toast_row();
    row.id = None;
    assert_eq!(get(Some(&row)), Err(RecipeError::DecodeError(Column::Id)));
}

#[test]
fn get_random_reads_the_selected_identifier() {
    assert_eq!(get_random(Some(Some(text("r1")))), Ok(text("r1")));
    assert_eq!(get_random(Some(Some(text("")))), Ok(text("")));
    assert_eq!(get_random(None), Err(RecipeError::EmptyStore));
    assert_eq!(get_random(Some(None)), Err(RecipeError::DecodeError(Column::Id)));
}
