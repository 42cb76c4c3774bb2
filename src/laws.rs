//! What holds of the repository operations taken together, stated over the
//! store model that their contracts use.
use vstd::prelude::*;
use crate::error::ErrorKind;
use crate::model::{
    after_create, after_delete, after_schema_init, after_update, create_result, delete_result,
    listing, update_result, StoreModel,
};
use crate::record::MovieView;

verus! {

/// A record created under an identifier that the store does not hold yet is
/// accepted, and every later listing of the store holds it with exactly the
/// fields it was created with.
pub proof fn lemma_create_then_fetch(s: StoreModel, m: MovieView)
    requires
        s.has_table,
        !s.rows.contains_key(m.index),
    ensures
        create_result(s, m) is None,
        after_create(s, m).rows.contains_key(m.index),
        after_create(s, m).rows[m.index] == m,
        forall|list: Seq<MovieView>|
            listing(list, #[trigger] after_create(s, m).rows) ==> exists|i: int|
                0 <= i < list.len() && list[i] == m,
{
    let rows = after_create(s, m).rows;
    assert forall|list: Seq<MovieView>| listing(list, #[trigger] after_create(s, m).rows) implies exists|i: int|
        0 <= i < list.len() && list[i] == m by {
        assert(rows.contains_key(m.index));
        let i = choose|i: int| 0 <= i < list.len() && list[i].index == m.index;
        assert(list[i] == rows[list[i].index]);
    }
}

/// Editing the year of an existing record: every later listing shows the new
/// year under the identifier, with the title and genre as they were.
pub proof fn lemma_edit_year_visible(s: StoreModel, index: Seq<char>, year: i32)
    requires
        s.has_table,
        s.rows.contains_key(index),
    ensures
        ({
            let m = MovieView { index, title: s.rows[index].title, year, genre: s.rows[index].genre };
            &&& update_result(s, m) is None
            &&& forall|list: Seq<MovieView>|
                listing(list, #[trigger] after_update(s, m).rows) ==> exists|i: int|
                    0 <= i < list.len() && list[i].index == index && list[i].year == year
                        && list[i].title == s.rows[index].title && list[i].genre
                        == s.rows[index].genre
        }),
{
    let m = MovieView { index, title: s.rows[index].title, year, genre: s.rows[index].genre };
    let rows = after_update(s, m).rows;
    assert forall|list: Seq<MovieView>| listing(list, #[trigger] after_update(s, m).rows) implies exists|i: int|
        0 <= i < list.len() && list[i].index == index && list[i].year == year && list[i].title
            == s.rows[index].title && list[i].genre == s.rows[index].genre by {
        assert(rows.contains_key(index));
        let i = choose|i: int| 0 <= i < list.len() && list[i].index == index;
        assert(list[i] == rows[list[i].index]);
    }
}

/// After a delete on a store with the movie table, no listing of the store
/// holds the identifier.
pub proof fn lemma_delete_removes(s: StoreModel, index: Seq<char>)
    requires
        s.has_table,
    ensures
        !after_delete(s, index).rows.contains_key(index),
        forall|list: Seq<MovieView>|
            listing(list, #[trigger] after_delete(s, index).rows) ==> forall|i: int|
                0 <= i < list.len() ==> list[i].index != index,
{
}

/// An update of an identifier that the store does not hold fails with
/// `NotFound` and changes nothing.
pub proof fn lemma_update_missing(s: StoreModel, m: MovieView)
    requires
        s.has_table,
        !s.rows.contains_key(m.index),
    ensures
        update_result(s, m) == Some(ErrorKind::NotFound),
        after_update(s, m) == s,
{
}

/// A delete of an identifier that the store does not hold fails with
/// `NotFound` and changes nothing.
pub proof fn lemma_delete_missing(s: StoreModel, index: Seq<char>)
    requires
        s.has_table,
        !s.rows.contains_key(index),
    ensures
        delete_result(s, index) == Some(ErrorKind::NotFound),
        after_delete(s, index) == s,
{
}

/// Creating the table twice in a row is the same as creating it once, and
/// neither changes the rows already there.
pub proof fn lemma_schema_init_idempotent(s: StoreModel)
    ensures
        after_schema_init(after_schema_init(s)) == after_schema_init(s),
        after_schema_init(s).rows == s.rows,
        after_schema_init(s).has_table,
{
}

/// The store after creating each record of `ms` in turn.
pub open spec fn create_all(s: StoreModel, ms: Seq<MovieView>) -> StoreModel
    decreases ms.len(),
{
    if ms.len() == 0 {
        s
    } else {
        after_create(create_all(s, ms.drop_last()), ms.last())
    }
}

/// Whether each create of `ms`, in turn, succeeds.
pub open spec fn all_created(s: StoreModel, ms: Seq<MovieView>) -> bool
    decreases ms.len(),
{
    ms.len() == 0 || (all_created(s, ms.drop_last()) && create_result(
        create_all(s, ms.drop_last()),
        ms.last(),
    ) is None)
}

/// Creates that all succeed were made under pairwise distinct identifiers,
/// and the store holds each of them afterwards.
pub proof fn lemma_created_ids_distinct(s: StoreModel, ms: Seq<MovieView>)
    requires
        all_created(s, ms),
    ensures
        forall|i: int, j: int|
            0 <= i < ms.len() && 0 <= j < ms.len() && i != j ==> #[trigger] ms[i].index
                != #[trigger] ms[j].index,
        forall|i: int| 0 <= i < ms.len() ==> create_all(s, ms).rows.contains_key(#[trigger] ms[i].index),
    decreases ms.len(),
{
    if ms.len() > 0 {
        let init = ms.drop_last();
        lemma_created_ids_distinct(s, init);
        let before = create_all(s, init);
        assert forall|i: int| 0 <= i < init.len() implies #[trigger] ms[i].index != ms.last().index by {
            assert(init[i] == ms[i]);
            assert(before.rows.contains_key(init[i].index));
        }
        assert forall|i: int, j: int|
            0 <= i < ms.len() && 0 <= j < ms.len() && i != j implies #[trigger] ms[i].index
            != #[trigger] ms[j].index by {
            if i < init.len() && j < init.len() {
                assert(init[i] == ms[i] && init[j] == ms[j]);
            }
        }
        assert forall|i: int| 0 <= i < ms.len() implies create_all(s, ms).rows.contains_key(
            #[trigger] ms[i].index,
        ) by {
            if i < init.len() {
                assert(init[i] == ms[i]);
            }
        }
    }
}

} // verus!
