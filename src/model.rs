//! What a store holds, and what each repository operation does to it.
use vstd::prelude::*;
use crate::error::ErrorKind;
use crate::record::MovieView;

verus! {

/// The state of a store: whether the movie table exists, and its rows keyed
/// by identifier.
pub struct StoreModel {
    pub has_table: bool,
    pub rows: Map<Seq<char>, MovieView>,
}

/// `list` holds each row of `rows` exactly once, and nothing else.
pub open spec fn listing(list: Seq<MovieView>, rows: Map<Seq<char>, MovieView>) -> bool {
    &&& forall|i: int, j: int|
        0 <= i < j < list.len() ==> #[trigger] list[i].index != #[trigger] list[j].index
    &&& forall|i: int|
        0 <= i < list.len() ==> rows.contains_key(#[trigger] list[i].index) && rows[list[i].index]
            == list[i]
    &&& forall|k: Seq<char>|
        #[trigger] rows.contains_key(k) ==> exists|i: int| 0 <= i < list.len() && list[i].index == k
}

/// Listing all rows fails only where the table is missing.
pub open spec fn fetch_result(s: StoreModel) -> Option<ErrorKind> {
    if s.has_table {
        None
    } else {
        Some(ErrorKind::Query)
    }
}

/// Creating a record fails where the table is missing or its identifier is
/// taken (a primary-key violation).
pub open spec fn create_result(s: StoreModel, m: MovieView) -> Option<ErrorKind> {
    if !s.has_table || s.rows.contains_key(m.index) {
        Some(ErrorKind::Query)
    } else {
        None
    }
}

/// The store after a create: the new row added, or nothing changed.
pub open spec fn after_create(s: StoreModel, m: MovieView) -> StoreModel {
    if create_result(s, m) is None {
        StoreModel { has_table: s.has_table, rows: s.rows.insert(m.index, m) }
    } else {
        s
    }
}

/// Updating a record fails where the table is missing, and with `NotFound`
/// where no row has its identifier.
pub open spec fn update_result(s: StoreModel, m: MovieView) -> Option<ErrorKind> {
    if !s.has_table {
        Some(ErrorKind::Query)
    } else if !s.rows.contains_key(m.index) {
        Some(ErrorKind::NotFound)
    } else {
        None
    }
}

/// The store after an update: the row overwritten with the new fields, or
/// nothing changed.
pub open spec fn after_update(s: StoreModel, m: MovieView) -> StoreModel {
    if update_result(s, m) is None {
        StoreModel { has_table: s.has_table, rows: s.rows.insert(m.index, m) }
    } else {
        s
    }
}

/// Deleting a record fails where the table is missing, and with `NotFound`
/// where no row has the identifier.
pub open spec fn delete_result(s: StoreModel, index: Seq<char>) -> Option<ErrorKind> {
    if !s.has_table {
        Some(ErrorKind::Query)
    } else if !s.rows.contains_key(index) {
        Some(ErrorKind::NotFound)
    } else {
        None
    }
}

/// The store after a delete: the row removed, or nothing changed.
pub open spec fn after_delete(s: StoreModel, index: Seq<char>) -> StoreModel {
    if delete_result(s, index) is None {
        StoreModel { has_table: s.has_table, rows: s.rows.remove(index) }
    } else {
        s
    }
}

/// The store after the table is created where it does not exist yet: the
/// rows are kept as they are.
pub open spec fn after_schema_init(s: StoreModel) -> StoreModel {
    StoreModel { has_table: true, rows: s.rows }
}

} // verus!
