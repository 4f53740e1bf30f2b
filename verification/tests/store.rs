use recipe_server::error::{Column, RecipeError};
use recipe_server::recipe::Recipe;
use recipe_server::row::RecipeRow;
use recipe_server::store::RecipeStore;

fn recipe(id: &str, name: &str) -> Recipe {
    Recipe {
        id: id.to_string(),
        name: name.to_string(),
        ingredients: vec!["Bread".to_string()],
        instructions: "Toast it.".to_string(),
        tags: Some(vec!["quick".to_string()]),
        source: None,
    }
}

fn row(id: Option<&str>, ingredients: &str, tags: Option<&str>) -> RecipeRow {
    RecipeRow {
        id: id.map(|text| text.to_string()),
        name: "Soup".to_string(),
        ingredients: ingredients.to_string(),
        instructions: "Boil.".to_string(),
        tags: tags.map(|text| text.to_string()),
        source: Some("Grandma".to_string()),
    }
}

#[test]
fn seeded_recipe_is_fetched_by_id() {
    let toast = recipe("r1", "Toast");
    let mut store = RecipeStore::new();
    assert_eq!(store.insert_many(&vec![toast.clone()]), Ok(1));
    let fetched = store.fetch_by_id("r1").unwrap();
    assert_eq!(fetched, toast);
    assert_eq!(fetched.ingredients, vec!["Bread".to_string()]);
    assert_eq!(fetched.tags, Some(vec!["quick".to_string()]));
    assert_eq!(fetched.source, None);
}

#[test]
fn random_fetch_on_empty_store_is_empty_store() {
    let mut store = RecipeStore::new();
    assert_eq!(store.insert_many(&vec![]), Ok(0));
    assert_eq!(store.len(), 0);
    assert_eq!(store.fetch_random(0), Err(RecipeError::EmptyStore));
    assert_eq!(store.fetch_random(17), Err(RecipeError::EmptyStore));
}

#[test]
fn fetch_by_absent_id_is_not_found() {
    let mut store = RecipeStore::new();
    assert_eq!(store.fetch_by_id("r1"), Err(RecipeError::NotFound));
    store.insert_many(&vec![recipe("r1", "Toast")]).unwrap();
    assert_eq!(store.fetch_by_id("missing-id"), Err(RecipeError::NotFound));
    assert_eq!(store.fetch_by_id(""), Err(RecipeError::NotFound));
    assert_eq!(store.fetch_by_id("R1"), Err(RecipeError::NotFound));
}

#[test]
fn every_stored_recipe_reads_back_under_its_id() {
    let batch = vec![recipe("a", "Toast"), recipe("b", "Jam"), recipe("c", "Tea")];
    let mut store = RecipeStore::new();
    assert_eq!(store.insert_many(&batch), Ok(3));
    assert_eq!(store.len(), 3);
    for stored in &batch {
        assert_eq!(store.fetch_by_id(&stored.id), Ok(stored.clone()));
    }
}

#[test]
fn fetch_random_reads_the_row_at_draw_modulo_len() {
    let batch = vec![recipe("a", "Toast"), recipe("b", "Jam"), recipe("c", "Tea")];
    let mut store = RecipeStore::new();
    store.insert_many(&batch).unwrap();
    assert_eq!(store.fetch_random(0), Ok(batch[0].clone()));
    assert_eq!(store.fetch_random(1), Ok(batch[1].clone()));
    assert_eq!(store.fetch_random(2), Ok(batch[2].clone()));
    assert_eq!(store.fetch_random(3), Ok(batch[0].clone()));
    assert_eq!(store.fetch_random(7), Ok(batch[1].clone()));
    assert_eq!(store.fetch_random(usize::MAX), Ok(batch[usize::MAX % 3].clone()));
}

#[test]
fn consecutive_draws_read_every_row_once() {
    let batch = vec![recipe("a", "Toast"), recipe("b", "Jam"), recipe("c", "Tea"), recipe("d", "Egg")];
    let mut store = RecipeStore::new();
    store.insert_many(&batch).unwrap();
    let mut counts = vec![0usize; batch.len()];
    for draw in 100..(100 + 4 * 25) {
        let drawn = store.fetch_random(draw).unwrap();
        let at = batch.iter().position(|stored| *stored == drawn).unwrap();
        counts[at] += 1;
    }
    assert_eq!(counts, vec![25, 25, 25, 25]);
}

#[test]
fn batch_with_repeated_id_leaves_store_unchanged() {
    let mut store = RecipeStore::new();
    store.insert_many(&vec![recipe("r1", "Toast")]).unwrap();
    let before = store.rows().clone();
    let batch = vec![recipe("r2", "Jam"), recipe("r3", "Tea"), recipe("r2", "Egg")];
    assert_eq!(
        store.insert_many(&batch),
        Err(RecipeError::DuplicateId("r2".to_string()))
    );
    assert_eq!(store.rows(), &before);
    assert_eq!(store.len(), 1);
    assert_eq!(store.fetch_by_id("r2"), Err(RecipeError::NotFound));
    assert_eq!(store.fetch_by_id("r3"), Err(RecipeError::NotFound));
}

#[test]
fn batch_with_stored_id_leaves_store_unchanged() {
    let mut store = RecipeStore::new();
    store.insert_many(&vec![recipe("r1", "Toast"), recipe("r2", "Jam")]).unwrap();
    let before = store.rows().clone();
    let batch = vec![recipe("r3", "Tea"), recipe("r2", "Egg"), recipe("r1", "Ham")];
    assert_eq!(
        store.insert_many(&batch),
        Err(RecipeError::DuplicateId("r2".to_string()))
    );
    assert_eq!(store.rows(), &before);
    assert_eq!(store.fetch_by_id("r2"), Ok(recipe("r2", "Jam")));
    assert_eq!(store.fetch_by_id("r3"), Err(RecipeError::NotFound));
}

#[test]
fn insert_many_appends_in_batch_order() {
    let mut store = RecipeStore::new();
    assert_eq!(store.insert_many(&vec![recipe("r1", "Toast")]), Ok(1));
    assert_eq!(store.insert_many(&vec![recipe("r2", "Jam"), recipe("r3", "Tea")]), Ok(2));
    let ids: Vec<Option<String>> = store.rows().iter().map(|stored| stored.id.clone()).collect();
    assert_eq!(
        ids,
        vec![Some("r1".to_string()), Some("r2".to_string()), Some("r3".to_string())]
    );
    assert_eq!(store.rows()[1].ingredients, "[\"Bread\"]");
    assert_eq!(store.rows()[1].tags, Some("[\"quick\"]".to_string()));
}

#[test]
fn insert_rows_is_all_or_nothing() {
    let mut store = RecipeStore::new();
    let batch = vec![
        row(Some("a"), "[\"Water\"]", None),
        row(Some("b"), "[\"Water\"]", None),
    ];
    assert_eq!(store.insert_rows(batch.clone()), Ok(2));
    assert_eq!(store.rows(), &batch);
    let clash = vec![row(Some("c"), "[]", None), row(Some("a"), "[]", None)];
    assert_eq!(
        store.insert_rows(clash),
        Err(RecipeError::DuplicateId("a".to_string()))
    );
    assert_eq!(store.rows(), &batch);
}

#[test]
fn rows_with_null_id_may_repeat() {
    let mut store = RecipeStore::new();
    let batch = vec![row(None, "[]", None), row(None, "[]", None), row(Some("a"), "[]", None)];
    assert_eq!(store.insert_rows(batch), Ok(3));
    assert_eq!(store.fetch_random(0), Err(RecipeError::DecodeError(Column::Id)));
    assert_eq!(store.fetch_random(1), Err(RecipeError::DecodeError(Column::Id)));
    assert_eq!(store.fetch_by_id("a").unwrap().id, "a");
}

#[test]
fn stored_row_with_bad_column_is_a_decode_error() {
    let mut store = RecipeStore::new();
    let batch = vec![
        row(Some("bad-ingredients"), "Water, Salt", None),
        row(Some("bad-tags"), "[\"Water\"]", Some("{\"a\":1}")),
        row(Some("good"), "[\"Water\"]", Some("[\"warm\",\"warm\"]")),
    ];
    assert_eq!(store.insert_rows(batch), Ok(3));
    assert_eq!(
        store.fetch_by_id("bad-ingredients"),
        Err(RecipeError::DecodeError(Column::Ingredients))
    );
    assert_eq!(
        store.fetch_by_id("bad-tags"),
        Err(RecipeError::DecodeError(Column::Tags))
    );
    assert_eq!(
        store.fetch_random(4),
        Err(RecipeError::DecodeError(Column::Tags))
    );
    let good = store.fetch_by_id("good").unwrap();
    assert_eq!(good.ingredients, vec!["Water".to_string()]);
    assert_eq!(good.tags, Some(vec!["warm".to_string(), "warm".to_string()]));
    assert_eq!(good.source, Some("Grandma".to_string()));
}

#[test]
fn batch_with_distinct_ids_is_stored_whole() {
    let mut store = RecipeStore::new();
    store.insert_many(&vec![recipe("r1", "Toast")]).unwrap();
    let before = store.rows().clone();
    let batch = vec![recipe("r2", "Jam"), recipe("r3", "Tea")];
    assert_eq!(store.insert_many(&batch), Ok(2));
    assert_eq!(store.len(), 3);
    assert_eq!(store.rows()[0], before[0]);
    for (at, stored) in batch.iter().enumerate() {
        let row = &store.rows()[1 + at];
        assert_eq!(row.id, Some(stored.id.clone()));
        assert_eq!(row.name, stored.name);
        assert_eq!(row.ingredients, "[\"Bread\"]");
        assert_eq!(row.instructions, stored.instructions);
        assert_eq!(row.tags, Some("[\"quick\"]".to_string()));
        assert_eq!(row.source, None);
    }
}

#[test]
fn recipe_without_tags_and_source_is_stored_with_nulls() {
    let water = Recipe {
        id: "r2".to_string(),
        name: "Water".to_string(),
        ingredients: vec!["Water".to_string()],
        instructions: "Pour.".to_string(),
        tags: None,
        source: None,
    };
    let mut store = RecipeStore::new();
    assert_eq!(store.insert_many(&vec![water.clone()]), Ok(1));
    assert_eq!(
        store.rows(),
        &vec![RecipeRow {
            id: Some("r2".to_string()),
            name: "Water".to_string(),
            ingredients: "[\"Water\"]".to_string(),
            instructions: "Pour.".to_string(),
            tags: None,
            source: None,
        }]
    );
    assert_eq!(store.fetch_by_id("r2"), Ok(water));
}
