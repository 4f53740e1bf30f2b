//! The view-model of the HTML page of a recipe.

use vstd::prelude::*;
use vstd::string::StringExecFns;
use crate::recipe::{tags_or_none, Recipe};

verus! {

/// The path under which the page's stylesheet is served.
pub const STYLESHEET: &'static str = "/recipe.css";

/// What stands between two tags in the tag line of a page.
pub const TAG_SEPARATOR: &'static str = ", ";

/// The texts of a list written one after the other, with the separator
/// between each two neighbours. An empty list gives the empty text.
pub open spec fn joined(list: Seq<Seq<char>>, separator: Seq<char>) -> Seq<char>
    decreases list.len(),
{
    if list.len() == 0 {
        Seq::empty()
    } else if list.len() == 1 {
        list[0]
    } else {
        joined(list.drop_last(), separator) + separator + list.last()
    }
}

/// The tag line of a recipe: its tags joined by [`TAG_SEPARATOR`], and the
/// empty text where the recipe records no tags.
pub open spec fn tag_line_of(tags: Option<Seq<Seq<char>>>) -> Seq<char> {
    joined(tags_or_none(tags), TAG_SEPARATOR@)
}

/// Writes the texts of a list one after the other, with the separator between
/// each two neighbours.
pub fn join(list: &Vec<String>, separator: &str) -> (line: String)
    ensures
        line@ == joined(list.deep_view(), separator@),
{
    let ghost texts = list.deep_view();
    let mut line = String::new();
    let mut i: usize = 0;
    while i < list.len()
        invariant
            i <= list.len(),
            texts == list.deep_view(),
            line@ == joined(texts.take(i as int), separator@),
        decreases list.len() - i,
    {
        proof {
            assert(texts.take(i + 1).drop_last() =~= texts.take(i as int));
            assert(texts.take(i + 1).last() == list[i as int]@);
        }
        if i > 0 {
            line.append(separator);
        } else {
            assert(texts.take(1)[0] == list[0]@);
            assert(line@ + list[0]@ =~= list[0]@);
        }
        line.append(list[i].as_str());
        i += 1;
    }
    assert(texts.take(list.len() as int) =~= texts);
    line
}

/// Writes the tag line of a recipe: see [`tag_line_of`].
pub fn tag_line(recipe: &Recipe) -> (line: String)
    ensures
        line@ == tag_line_of(recipe@.tags),
        recipe.tags is None ==> line@ == Seq::<char>::empty(),
{
    match &recipe.tags {
        Some(list) => join(list, TAG_SEPARATOR),
        None => String::new(),
    }
}

/// The view-model from which the HTML page of a recipe is rendered: the
/// recipe, the path of the stylesheet, and the tag line.
#[derive(Debug, PartialEq, Eq)]
pub struct IndexTemplate {
    pub recipe: Recipe,
    pub stylesheet: &'static str,
    pub tags: String,
}

impl IndexTemplate {
    /// The page of a recipe with a given tag line. The recipe and the line
    /// pass through unchanged; the stylesheet is always [`STYLESHEET`].
    pub fn new(recipe: Recipe, tags: String) -> (page: IndexTemplate)
        ensures
            page.recipe == recipe,
            page.tags == tags,
            page.stylesheet@ == STYLESHEET@,
    {
        IndexTemplate { recipe, stylesheet: STYLESHEET, tags }
    }
}

} // verus!
