//! The recipe table held in memory, with the three operations the recipe path
//! asks of its storage: lookup by identifier, selection of one row by a draw,
//! and insertion of a batch that either enters whole or not at all.
//!
//! The table is a sequence of rows in insertion order. No two rows carry the
//! same identifier; rows with a null identifier may repeat.

use vstd::prelude::*;
use crate::error::{view_result, RecipeError, RecipeErrorView};
use crate::recipe::{Recipe, RecipeView};
use crate::row::{
    decode_row, decoded, encode_rows, encoded, encoded_all, RecipeRow, RecipeRowView,
};

verus! {

/// Some row of the table carries this identifier.
pub open spec fn has_id(table: Seq<RecipeRowView>, id: Seq<char>) -> bool {
    exists|i: int| #![trigger table[i]] 0 <= i < table.len() && table[i].id == Some(id)
}

/// No identifier stands in two rows of the table.
pub open spec fn unique_ids(table: Seq<RecipeRowView>) -> bool {
    forall|i: int, j: int|
        #![trigger table[i], table[j]]
        0 <= i < j < table.len() && table[i].id is Some ==> table[i].id != table[j].id
}

/// Row `k` carries an identifier that an earlier row carries too.
pub open spec fn repeats(table: Seq<RecipeRowView>, k: int) -> bool {
    table[k].id is Some && exists|j: int|
        #![trigger table[j]]
        0 <= j < k && table[j].id == table[k].id
}

/// Row `k` is the first row of the table that [`repeats`] an identifier.
pub open spec fn first_repeat(table: Seq<RecipeRowView>, k: int) -> bool {
    &&& 0 <= k < table.len()
    &&& repeats(table, k)
    &&& forall|m: int| 0 <= m < k ==> !repeats(table, m)
}

/// A row of the table that carries this identifier, if there is one.
pub open spec fn stored_row(table: Seq<RecipeRowView>, id: Seq<char>) -> Option<RecipeRowView> {
    if has_id(table, id) {
        Some(
            table[choose|i: int|
                #![trigger table[i]]
                0 <= i < table.len() && table[i].id == Some(id)],
        )
    } else {
        None
    }
}

/// What a lookup by identifier gives on a table.
pub open spec fn fetched_by_id(table: Seq<RecipeRowView>, id: Seq<char>) -> Result<
    RecipeView,
    RecipeErrorView,
> {
    match stored_row(table, id) {
        Some(row) => decoded(row),
        None => Err(RecipeErrorView::NotFound),
    }
}

/// What a selection by draw gives on a table: the draw, reduced by the number
/// of rows, is the position of the row that is read.
pub open spec fn fetched_by_draw(table: Seq<RecipeRowView>, draw: int) -> Result<
    RecipeView,
    RecipeErrorView,
> {
    if table.len() == 0 {
        Err(RecipeErrorView::EmptyStore)
    } else {
        decoded(table[draw % (table.len() as int)])
    }
}

/// In a table without repeated identifiers, the row found under an identifier
/// is the row that carries it: a lookup by the identifier of any stored row
/// reads that very row.
pub proof fn lemma_lookup_reads_stored_row(table: Seq<RecipeRowView>, i: int)
    requires
        unique_ids(table),
        0 <= i < table.len(),
        table[i].id is Some,
    ensures
        stored_row(table, table[i].id->0) == Some(table[i]),
        fetched_by_id(table, table[i].id->0) == decoded(table[i]),
{
    let id = table[i].id->0;
    assert(table[i].id == Some(id));
    let c = choose|c: int| #![trigger table[c]] 0 <= c < table.len() && table[c].id == Some(id);
    if c < i {
        assert(table[c].id != table[i].id);
    } else if i < c {
        assert(table[i].id != table[c].id);
    }
}

/// A lookup by an identifier that no row carries finds nothing.
pub proof fn lemma_lookup_of_absent_id(table: Seq<RecipeRowView>, id: Seq<char>)
    requires
        !has_id(table, id),
    ensures
        fetched_by_id(table, id) == Err::<RecipeView, RecipeErrorView>(RecipeErrorView::NotFound),
{
}

/// A draw on a table that holds rows reads one of them, and every row is read
/// by the draw equal to its position: no row is out of a draw's reach, and
/// over any run of consecutive draws as long as the table each row is read
/// once.
pub proof fn lemma_every_row_is_drawn(table: Seq<RecipeRowView>, i: int)
    requires
        0 <= i < table.len(),
    ensures
        fetched_by_draw(table, i) == decoded(table[i]),
        forall|turn: int|
            0 <= turn ==> #[trigger] fetched_by_draw(table, i + turn * table.len())
                == decoded(table[i]),
{
    assert forall|turn: int| 0 <= turn implies #[trigger] fetched_by_draw(
        table,
        i + turn * table.len(),
    ) == decoded(table[i]) by {
        let n = table.len() as int;
        assert((i + turn * n) % n == i) by (nonlinear_arith)
            requires
                0 <= i < n,
                0 <= turn,
        ;
    }
    assert(fetched_by_draw(table, i + 0 * table.len()) == decoded(table[i]));
}

/// A table is free of repeated identifiers exactly if no row repeats one.
pub proof fn lemma_unique_iff_no_repeat(table: Seq<RecipeRowView>)
    ensures
        unique_ids(table) <==> forall|k: int| 0 <= k < table.len() ==> !repeats(table, k),
{
    if unique_ids(table) {
        assert forall|k: int| 0 <= k < table.len() implies !repeats(table, k) by {
            if repeats(table, k) {
                let j = choose|j: int|
                    #![trigger table[j]]
                    0 <= j < k && table[j].id == table[k].id;
                assert(table[j].id != table[k].id);
            }
        }
    }
    if forall|k: int| 0 <= k < table.len() ==> !repeats(table, k) {
        assert forall|i: int, j: int|
            #![trigger table[i], table[j]]
            0 <= i < j < table.len() && table[i].id is Some implies table[i].id
            != table[j].id by {
            if table[i].id == table[j].id {
                assert(repeats(table, j));
            }
        }
    }
}

/// The recipe table.
#[derive(Debug)]
pub struct RecipeStore {
    rows: Vec<RecipeRow>,
}

impl View for RecipeStore {
    type V = Seq<RecipeRowView>;

    /// The rows of the table, in insertion order.
    closed spec fn view(&self) -> Seq<RecipeRowView> {
        self.rows.deep_view()
    }
}

impl RecipeStore {
    #[verifier::type_invariant]
    spec fn ids_are_unique(self) -> bool {
        unique_ids(self.rows.deep_view())
    }

    /// A table without rows.
    pub fn new() -> (store: RecipeStore)
        ensures
            store@ == Seq::<RecipeRowView>::empty(),
    {
        let store = RecipeStore { rows: Vec::new() };
        assert(store@ =~= Seq::<RecipeRowView>::empty());
        store
    }

    /// The number of rows.
    pub fn len(&self) -> (count: usize)
        ensures
            count == self@.len(),
    {
        self.rows.len()
    }

    /// The rows, in insertion order. They never repeat an identifier.
    pub fn rows(&self) -> (rows: &Vec<RecipeRow>)
        ensures
            rows.deep_view() == self@,
            unique_ids(self@),
    {
        proof {
            use_type_invariant(self);
        }
        &self.rows
    }

    /// The position of the row that carries an identifier.
    fn position_of(&self, id: &String) -> (found: Option<usize>)
        ensures
            match found {
                Some(i) => i < self@.len() && self@[i as int].id == Some(id@),
                None => !has_id(self@, id@),
            },
    {
        holds_id(&self.rows, self.rows.len(), id)
    }

    /// Looks up the recipe stored under an identifier.
    ///
    /// Fails with `NotFound` exactly if no row carries the identifier, and
    /// with `DecodeError` exactly if the row that carries it cannot be read.
    pub fn fetch_by_id(&self, id: &str) -> (r: Result<Recipe, RecipeError>)
        ensures
            view_result(r) == fetched_by_id(self@, id@),
            !has_id(self@, id@) ==> r == Err::<Recipe, RecipeError>(RecipeError::NotFound),
            forall|i: int|
                0 <= i < self@.len() && (#[trigger] self@[i]).id == Some(id@) ==> view_result(r)
                    == decoded(self@[i]),
    {
        let key = id.to_owned();
        match self.position_of(&key) {
            Some(i) => {
                proof {
                    use_type_invariant(self);
                    lemma_lookup_reads_stored_row(self@, i as int);
                    assert forall|k: int|
                        0 <= k < self@.len() && (#[trigger] self@[k]).id == Some(
                            id@,
                        ) implies self@[k] == self@[i as int] by {
                        lemma_lookup_reads_stored_row(self@, k);
                    }
                }
                decode_row(&self.rows[i])
            },
            None => Err(RecipeError::NotFound),
        }
    }

    /// Reads the row that a draw selects: the row at the position `draw`
    /// modulo the number of rows.
    ///
    /// Fails with `EmptyStore` exactly if the table has no rows. The caller
    /// supplies the draw; a draw that is uniform over a multiple of the
    /// number of rows selects every row equally often.
    pub fn fetch_random(&self, draw: usize) -> (r: Result<Recipe, RecipeError>)
        ensures
            view_result(r) == fetched_by_draw(self@, draw as int),
            self@.len() == 0 ==> r == Err::<Recipe, RecipeError>(RecipeError::EmptyStore),
    {
        let count = self.rows.len();
        if count == 0 {
            return Err(RecipeError::EmptyStore);
        }
        decode_row(&self.rows[draw % count])
    }

    /// Inserts a batch of rows, all of them or none.
    ///
    /// The batch enters exactly if the table extended by it repeats no
    /// identifier. Otherwise the table stays as it was, and the error names
    /// the identifier of the first row of the batch that is already stored
    /// or stands earlier in the batch.
    pub fn insert_rows(&mut self, rows: Vec<RecipeRow>) -> (r: Result<usize, RecipeError>)
        ensures
            r is Ok <==> unique_ids(old(self)@ + rows.deep_view()),
            match r {
                Ok(count) => {
                    &&& count == rows.len()
                    &&& final(self)@ == old(self)@ + rows.deep_view()
                },
                Err(error) => {
                    &&& final(self)@ == old(self)@
                    &&& exists|k: int|
                        first_repeat(old(self)@ + rows.deep_view(), k) && error@
                            == RecipeErrorView::DuplicateId(
                            (#[trigger] (old(self)@ + rows.deep_view())[k]).id->0,
                        )
                },
            },
    {
        let ghost all = self@ + rows.deep_view();
        let ghost stored = self@.len() as int;
        proof {
            use_type_invariant(&*self);
            lemma_unique_iff_no_repeat(self@);
            assert forall|m: int| 0 <= m < stored implies !repeats(all, m) by {
                assert(all[m] == self@[m]);
                if repeats(all, m) {
                    let j = choose|j: int|
                        #![trigger all[j]]
                        0 <= j < m && all[j].id == all[m].id;
                    assert(all[j] == self@[j]);
                    assert(repeats(self@, m));
                }
            }
        }
        let mut k: usize = 0;
        while k < rows.len()
            invariant
                k <= rows.len(),
                self@ == old(self)@,
                all == self@ + rows.deep_view(),
                stored == self@.len(),
                forall|m: int| 0 <= m < stored + k ==> !repeats(all, m),
            decreases rows.len() - k,
        {
            match &rows[k].id {
                Some(id) => {
                    let earlier = match self.position_of(id) {
                        Some(_) => true,
                        None => holds_id(&rows, k, id).is_some(),
                    };
                    if earlier {
                        proof {
                            let at = stored + k;
                            assert(all[at] == rows[k as int]@);
                            if has_id(self@, id@) {
                                let j = choose|j: int|
                                    #![trigger self@[j]]
                                    0 <= j < self@.len() && self@[j].id == Some(id@);
                                assert(all[j] == self@[j]);
                                assert(repeats(all, at));
                            } else {
                                let j = choose|j: int|
                                    #![trigger rows.deep_view()[j]]
                                    0 <= j < k && rows.deep_view()[j].id == Some(id@);
                                assert(all[stored + j] == rows.deep_view()[j]);
                                assert(repeats(all, at));
                            }
                            assert(first_repeat(all, at));
                            lemma_unique_iff_no_repeat(all);
                        }
                        return Err(RecipeError::DuplicateId(id.clone()));
                    }
                    proof {
                        let at = stored + k;
                        assert(all[at] == rows[k as int]@);
                        if repeats(all, at) {
                            let j = choose|j: int|
                                #![trigger all[j]]
                                0 <= j < at && all[j].id == all[at].id;
                            if j < stored {
                                assert(all[j] == self@[j]);
                                assert(has_id(self@, id@));
                            } else {
                                assert(all[j] == rows.deep_view()[j - stored]);
                                assert(false);
                            }
                        }
                    }
                },
                None => {
                    assert(all[stored + k] == rows[k as int]@);
                },
            }
            k += 1;
        }
        proof {
            lemma_unique_iff_no_repeat(all);
        }
        let count = rows.len();
        let mut batch = rows;
        let mut taken = RecipeStore::new();
        core::mem::swap(self, &mut taken);
        let RecipeStore { rows: mut merged } = taken;
        merged.append(&mut batch);
        assert(merged.deep_view() =~= all);
        *self = RecipeStore { rows: merged };
        Ok(count)
    }

    /// Stores a batch of recipes, all of them or none.
    ///
    /// Every recipe is put into its row, and the rows enter the table under
    /// the rule of [`RecipeStore::insert_rows`]: the batch is stored exactly
    /// if the table extended by its rows repeats no identifier. After a
    /// success the result is the number of recipes, the table is extended by
    /// their rows in order, and each recipe of the batch is read back
    /// unchanged under its identifier. After a failure the table is as it was
    /// before the call, and the error names the first identifier of the batch
    /// that is already stored or stands earlier in the batch.
    pub fn insert_many(&mut self, recipes: &Vec<Recipe>) -> (r: Result<usize, RecipeError>)
        ensures
            r is Ok <==> unique_ids(old(self)@ + encoded_all(recipes.deep_view())),
            r is Err ==> final(self)@ == old(self)@,
            match r {
                Ok(count) => {
                    &&& count == recipes.len()
                    &&& final(self)@ == old(self)@ + encoded_all(recipes.deep_view())
                    &&& forall|i: int|
                        0 <= i < recipes.len() ==> fetched_by_id(
                            final(self)@,
                            (#[trigger] recipes[i])@.id,
                        ) == Ok::<RecipeView, RecipeErrorView>(recipes[i]@)
                },
                Err(error) => exists|k: int|
                    first_repeat(old(self)@ + encoded_all(recipes.deep_view()), k) && error@
                        == RecipeErrorView::DuplicateId(
                        (#[trigger] (old(self)@ + encoded_all(recipes.deep_view()))[k]).id->0,
                    ),
            },
    {
        let rows = match encode_rows(recipes) {
            Ok(rows) => rows,
            Err(error) => {
                return Err(error);
            },
        };
        let ghost batch = rows.deep_view();
        let outcome = self.insert_rows(rows);
        proof {
            if outcome is Ok {
                let table = self@;
                let stored = old(self)@.len() as int;
                assert forall|i: int| 0 <= i < recipes.len() implies fetched_by_id(
                    table,
                    (#[trigger] recipes[i])@.id,
                ) == Ok::<RecipeView, RecipeErrorView>(recipes[i]@) by {
                    assert(table[stored + i] == batch[i]);
                    assert(batch[i] == encoded(recipes[i]@));
                    lemma_lookup_reads_stored_row(table, stored + i);
                }
            }
        }
        outcome
    }
}

/// The position of the first of the leading `end` rows that carries an
/// identifier.
fn holds_id(rows: &Vec<RecipeRow>, end: usize, id: &String) -> (found: Option<usize>)
    requires
        end <= rows.len(),
    ensures
        match found {
            Some(i) => i < end && rows.deep_view()[i as int].id == Some(id@),
            None => forall|k: int| 0 <= k < end ==> (#[trigger] rows.deep_view()[k]).id != Some(id@),
        },
{
    let mut i: usize = 0;
    while i < end
        invariant
            i <= end <= rows.len(),
            forall|k: int| 0 <= k < i ==> (#[trigger] rows.deep_view()[k]).id != Some(id@),
        decreases end - i,
    {
        let same = match &rows[i].id {
            Some(other) => *other == *id,
            None => false,
        };
        if same {
            return Some(i);
        }
        i += 1;
    }
    None
}

} // verus!
