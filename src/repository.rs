//! The repository contract: what every storage backend of the catalog offers.
use vstd::prelude::*;
use crate::error::{outcome, RepoError};
use crate::model::{
    after_create, after_delete, after_update, create_result, delete_result, fetch_result, listing,
    update_result, StoreModel,
};
use crate::record::{views, MovieEntity};

verus! {

/// The four operations of a storage backend.
///
/// Each operation either does what `crate::model` says of the store, or
/// fails with an internal error and leaves the store as it was (the store
/// could not be reached, say). A backend that is `reliable` never takes the
/// second way: its outcome is always the model's. A `NotFound` error always
/// means that no record has the identifier.
pub trait MovieRepoImpl: Sized {
    /// The state of the store behind the repository.
    spec fn store(&self) -> StoreModel;

    /// Whether every operation reaches the store, so that each outcome is
    /// the one the model gives.
    spec fn reliable(&self) -> bool;

    /// All records of the store.
    fn fetch_movies(&self) -> (r: Result<Vec<MovieEntity>, RepoError>)
        ensures
            r matches Ok(list) ==> fetch_result(self.store()) is None && listing(
                views(list@),
                self.store().rows,
            ),
            r matches Err(e) ==> e.is_internal(),
            self.reliable() ==> outcome(r) == fetch_result(self.store()),
            self.store().rows.dom().finite(),
    ;

    /// Adds `movie`, whose identifier the caller has chosen.
    fn create_movie(&mut self, movie: &MovieEntity) -> (r: Result<(), RepoError>)
        ensures
            (outcome(r) == create_result(old(self).store(), movie@) && final(self).store()
                == after_create(old(self).store(), movie@)) || (r matches Err(e) && e.is_internal()
                && final(self).store() == old(self).store()),
            old(self).reliable() ==> outcome(r) == create_result(old(self).store(), movie@),
            final(self).reliable() == old(self).reliable(),
            final(self).store().rows.dom().finite(),
    ;

    /// Overwrites the title, year and genre of the record with `movie`'s
    /// identifier.
    fn update_movie(&mut self, movie: &MovieEntity) -> (r: Result<(), RepoError>)
        ensures
            (outcome(r) == update_result(old(self).store(), movie@) && final(self).store()
                == after_update(old(self).store(), movie@)) || (r matches Err(e) && e.is_internal()
                && final(self).store() == old(self).store()),
            old(self).reliable() ==> outcome(r) == update_result(old(self).store(), movie@),
            final(self).reliable() == old(self).reliable(),
            final(self).store().rows.dom().finite(),
    ;

    /// Removes the record with identifier `index`.
    fn delete_movie(&mut self, index: String) -> (r: Result<(), RepoError>)
        ensures
            (outcome(r) == delete_result(old(self).store(), index@) && final(self).store()
                == after_delete(old(self).store(), index@)) || (r matches Err(e) && e.is_internal()
                && final(self).store() == old(self).store()),
            old(self).reliable() ==> outcome(r) == delete_result(old(self).store(), index@),
            final(self).reliable() == old(self).reliable(),
            final(self).store().rows.dom().finite(),
    ;
}

} // verus!
