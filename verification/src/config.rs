//! Where the recipe table is stored: which location the server uses, and
//! which directory has to exist before a database file can be created there.

use vstd::prelude::*;
use vstd::string::{StrSliceExecFns, StringExecFns};
use crate::error::{RecipeError, RecipeErrorView};

verus! {

/// The environment variable that can name the storage location.
pub const DB_URI_VARIABLE: &'static str = "RECIPE_DB_URI";

/// The storage location used where neither the command line nor the
/// environment names one.
pub const DEFAULT_DB_URI: &'static str = "sqlite://db/recipe.db";

/// How the location of a database file begins.
pub const DB_SCHEME: &'static str = "sqlite://";

/// How the location of a database file ends.
pub const DB_SUFFIX: &'static str = ".db";

/// The storage location the server uses: the one given on the command line;
/// else the one the environment gives; else [`DEFAULT_DB_URI`].
pub open spec fn db_uri_of(db_uri: Option<Seq<char>>, env_uri: Option<Seq<char>>) -> Seq<char> {
    match db_uri {
        Some(location) => location,
        None => match env_uri {
            Some(location) => location,
            None => DEFAULT_DB_URI@,
        },
    }
}

/// Picks the storage location: see [`db_uri_of`]. `env_uri` is the value of
/// the variable [`DB_URI_VARIABLE`], where it is set.
pub fn get_db_uri(db_uri: Option<&str>, env_uri: Option<String>) -> (location: String)
    ensures
        location@ == db_uri_of(db_uri.deep_view(), env_uri.deep_view()),
{
    match db_uri {
        Some(location) => String::from_str(location),
        None => match env_uri {
            Some(location) => location,
            None => String::from_str(DEFAULT_DB_URI),
        },
    }
}

/// Whether a location names a database file: it begins with [`DB_SCHEME`] and
/// ends with [`DB_SUFFIX`].
pub open spec fn is_db_file_uri(location: Seq<char>) -> bool {
    DB_SCHEME@.is_prefix_of(location) && DB_SUFFIX@.is_suffix_of(location)
}

/// The position of the last occurrence of a character in a text, and `-1`
/// where the text does not hold it.
pub open spec fn last_position(text: Seq<char>, c: char) -> int
    decreases text.len(),
{
    if text.len() == 0 {
        -1
    } else if text.last() == c {
        text.len() - 1
    } else {
        last_position(text.drop_last(), c)
    }
}

/// [`last_position`] is the position of an occurrence after which the
/// character does not occur again, and is `-1` exactly if the character does
/// not occur at all.
pub proof fn lemma_last_position(text: Seq<char>, c: char)
    ensures
        -1 <= last_position(text, c) < text.len(),
        last_position(text, c) >= 0 ==> text[last_position(text, c)] == c,
        forall|i: int| last_position(text, c) < i < text.len() ==> text[i] != c,
        last_position(text, c) == -1 <==> !text.contains(c),
    decreases text.len(),
{
    if text.len() > 0 {
        let front = text.drop_last();
        lemma_last_position(front, c);
        if text.last() != c {
            assert forall|i: int| last_position(text, c) < i < text.len() implies text[i]
                != c by {
                if i < front.len() {
                    assert(front[i] == text[i]);
                }
            }
            if text.contains(c) {
                let i = choose|i: int| 0 <= i < text.len() && text[i] == c;
                assert(front[i] == c);
                assert(front.contains(c));
            }
            if front.contains(c) {
                let i = choose|i: int| 0 <= i < front.len() && front[i] == c;
                assert(text[i] == c);
            }
        } else {
            assert(text[text.len() - 1] == c);
        }
    }
}

/// The directory of the database file that a location names: what stands
/// between [`DB_SCHEME`] and the last `/` after it, and the empty text where
/// no `/` follows the scheme.
pub open spec fn db_dir_of(location: Seq<char>) -> Seq<char> {
    let path = location.skip(DB_SCHEME@.len() as int);
    let end = last_position(path, '/');
    if end < 0 {
        Seq::empty()
    } else {
        path.take(end)
    }
}

/// Whether a text begins with another.
fn begins_with(text: &str, prefix: &str) -> (b: bool)
    ensures
        b == prefix@.is_prefix_of(text@),
{
    let n = prefix.unicode_len();
    if text.unicode_len() < n {
        return false;
    }
    let mut i: usize = 0;
    while i < n
        invariant
            i <= n,
            n == prefix@.len(),
            n <= text@.len(),
            forall|k: int| 0 <= k < i ==> text@[k] == prefix@[k],
        decreases n - i,
    {
        if text.get_char(i) != prefix.get_char(i) {
            assert(text@.subrange(0, n as int)[i as int] != prefix@[i as int]);
            return false;
        }
        i += 1;
    }
    assert(prefix@ =~= text@.subrange(0, n as int));
    true
}

/// Whether a text ends with another.
fn ends_with(text: &str, suffix: &str) -> (b: bool)
    ensures
        b == suffix@.is_suffix_of(text@),
{
    let n = suffix.unicode_len();
    let len = text.unicode_len();
    if len < n {
        return false;
    }
    let start = len - n;
    let mut i: usize = 0;
    while i < n
        invariant
            i <= n,
            n == suffix@.len(),
            len == text@.len(),
            start == len - n,
            forall|k: int| 0 <= k < i ==> text@[start + k] == suffix@[k],
        decreases n - i,
    {
        if text.get_char(start + i) != suffix.get_char(i) {
            assert(text@.subrange(len - n, len as int)[i as int] != suffix@[i as int]);
            return false;
        }
        i += 1;
    }
    assert(suffix@ =~= text@.subrange(len - n, len as int));
    true
}

/// The directory in which the database file of a location lies, so that it
/// can be created before the file.
///
/// Succeeds exactly on locations that name a database file (see
/// [`is_db_file_uri`]), with [`db_dir_of`] the location. Every other location
/// is refused with `InvalidConfiguration`, which holds the location as given.
pub fn extract_db_dir(db_uri: &str) -> (r: Result<&str, RecipeError>)
    ensures
        match r {
            Ok(dir) => is_db_file_uri(db_uri@) && dir@ == db_dir_of(db_uri@),
            Err(error) => !is_db_file_uri(db_uri@) && error@
                == RecipeErrorView::InvalidConfiguration(db_uri@),
        },
{
    if !(begins_with(db_uri, DB_SCHEME) && ends_with(db_uri, DB_SUFFIX)) {
        return Err(RecipeError::InvalidConfiguration(String::from_str(db_uri)));
    }
    let start = DB_SCHEME.unicode_len();
    let path = db_uri.substring_char(start, db_uri.unicode_len());
    assert(path@ =~= db_uri@.skip(start as int));
    let mut end = path.unicode_len();
    assert(path@.take(end as int) =~= path@);
    while end > 0
        invariant
            end <= path@.len(),
            is_db_file_uri(db_uri@),
            path@ == db_uri@.skip(DB_SCHEME@.len() as int),
            last_position(path@, '/') == last_position(path@.take(end as int), '/'),
        decreases end,
    {
        if path.get_char(end - 1) == '/' {
            assert(path@.take(end as int).last() == '/');
            assert(last_position(path@, '/') == end - 1);
            assert(path@.subrange(0, end - 1) =~= path@.take(end - 1));
            return Ok(path.substring_char(0, end - 1));
        }
        assert(path@.take(end as int).drop_last() =~= path@.take(end - 1));
        end -= 1;
    }
    assert(path@.take(0).len() == 0);
    assert(path@.subrange(0, 0) =~= Seq::<char>::empty());
    Ok(path.substring_char(0, 0))
}

} // verus!
