use recipe_server::config::{extract_db_dir, get_db_uri, DB_URI_VARIABLE, DEFAULT_DB_URI};
use recipe_server::error::RecipeError;

#[test]
fn db_uri_from_the_command_line_wins() {
    assert_eq!(
        get_db_uri(Some("sqlite://cli.db"), Some("sqlite://env.db".to_string())),
        "sqlite://cli.db"
    );
    assert_eq!(get_db_uri(Some("sqlite://cli.db"), None), "sqlite://cli.db");
    assert_eq!(get_db_uri(Some(""), Some("sqlite://env.db".to_string())), "");
}

#[test]
fn db_uri_from_the_environment_comes_second() {
    assert_eq!(
        get_db_uri(None, Some("sqlite://env.db".to_string())),
        "sqlite://env.db"
    );
}

#[test]
fn db_uri_defaults_to_the_local_file() {
    assert_eq!(get_db_uri(None, None), "sqlite://db/recipe.db");
    assert_eq!(DEFAULT_DB_URI, "sqlite://db/recipe.db");
    assert_eq!(DB_URI_VARIABLE, "RECIPE_DB_URI");
}

#[test]
fn db_dir_is_what_stands_before_the_last_slash() {
    assert_eq!(extract_db_dir("sqlite://db/recipe.db"), Ok("db"));
    assert_eq!(extract_db_dir("sqlite://data/2024/recipe.db"), Ok("data/2024"));
    assert_eq!(extract_db_dir("sqlite:///var/lib/recipes/recipe.db"), Ok("/var/lib/recipes"));
    assert_eq!(extract_db_dir("sqlite://./recipe.db"), Ok("."));
    assert_eq!(extract_db_dir("sqlite://d\u{e9}p\u{f4}t/recettes.db"), Ok("d\u{e9}p\u{f4}t"));
    assert_eq!(extract_db_dir("sqlite://db//recipe.db"), Ok("db/"));
}

#[test]
fn db_dir_is_empty_without_a_slash() {
    assert_eq!(extract_db_dir("sqlite://recipe.db"), Ok(""));
    assert_eq!(extract_db_dir("sqlite://.db"), Ok(""));
    assert_eq!(extract_db_dir("sqlite:///recipe.db"), Ok(""));
}

#[test]
fn db_dir_is_refused_for_other_locations() {
    for location in [
        "",
        "sqlite://",
        ".db",
        "sqlite:/db/recipe.db",
        "sqlite://db/recipe.sqlite",
        "postgres://db/recipe.db",
        "SQLITE://db/recipe.db",
        "sqlite://db/recipe.db ",
        " sqlite://db/recipe.db",
        "sqlite://db/recipe.DB",
    ] {
        assert_eq!(
            extract_db_dir(location),
            Err(RecipeError::InvalidConfiguration(location.to_string()))
        );
    }
}
