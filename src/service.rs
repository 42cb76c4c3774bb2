//! The service layer: assigns identifiers to new records and hands each
//! request to the repository, passing its errors on unchanged.
use vstd::prelude::*;
use crate::error::{outcome, RepoError};
use crate::model::{
    after_create, after_delete, after_update, create_result, delete_result, fetch_result, listing,
    update_result,
};
use crate::record::{views, MovieEntity, MovieView};
use crate::repository::MovieRepoImpl;

verus! {

/// A lowercase hexadecimal digit.
pub open spec fn is_lower_hex(c: char) -> bool {
    ('0' <= c && c <= '9') || ('a' <= c && c <= 'f')
}

/// The text of a random UUID: 36 characters, hyphens at 8, 13, 18 and 23,
/// lowercase hexadecimal digits elsewhere, and the version digit 4 at 14.
pub open spec fn is_uuid_text(s: Seq<char>) -> bool {
    &&& s.len() == 36
    &&& forall|i: int|
        0 <= i < 36 ==> if i == 8 || i == 13 || i == 18 || i == 23 {
            #[trigger] s[i] == '-'
        } else {
            is_lower_hex(s[i])
        }
    &&& s[14] == '4'
}

/// Relies on `uuid::Uuid::new_v4`, which draws 122 random bits and sets the
/// version to 4, and on `Uuid`'s `Display`, which writes the lowercase
/// hyphenated form.
#[verifier::external_body]
fn new_identifier() -> (r: String)
    ensures
        is_uuid_text(r@),
{
    uuid::Uuid::new_v4().to_string()
}

/// The catalog service over a repository `db`.
pub struct MovieService<M> {
    pub db: M,
}

impl<M: MovieRepoImpl> MovieService<M> {
    pub fn new(db: M) -> (r: Self)
        ensures
            r.db == db,
    {
        MovieService { db }
    }

    /// All records, as the repository lists them.
    pub fn get_movies(&self) -> (r: Result<Vec<MovieEntity>, RepoError>)
        ensures
            r matches Ok(list) ==> fetch_result(self.db.store()) is None && listing(
                views(list@),
                self.db.store().rows,
            ),
            r matches Err(e) ==> e.is_internal(),
            self.db.reliable() ==> outcome(r) == fetch_result(self.db.store()),
    {
        self.db.fetch_movies()
    }

    /// Creates a record with the given identifier and fields, and returns it.
    pub fn add_movie_with_index(&mut self, index: String, title: String, year: i32, genre: String) -> (r:
        Result<MovieEntity, RepoError>)
        ensures
            r matches Ok(m) ==> {
                &&& m@ == (MovieView { index: index@, title: title@, year, genre: genre@ })
                &&& create_result(old(self).db.store(), m@) is None
                &&& final(self).db.store() == after_create(old(self).db.store(), m@)
                &&& final(self).db.store().rows == old(self).db.store().rows.insert(m.index@, m@)
            },
            r matches Err(e) ==> e.is_internal() && final(self).db.store() == old(self).db.store(),
            old(self).db.reliable() ==> outcome(r) == create_result(
                old(self).db.store(),
                MovieView { index: index@, title: title@, year, genre: genre@ },
            ),
            final(self).db.reliable() == old(self).db.reliable(),
    {
        let movie = MovieEntity::new(index, title, year, genre);
        match self.db.create_movie(&movie) {
            Ok(()) => Ok(movie),
            Err(e) => Err(e),
        }
    }

    /// Creates a record with the given fields under a new random identifier,
    /// and returns it. On a reliable store it fails only where the table is
    /// missing or the drawn identifier is already taken.
    pub fn add_movie(&mut self, title: String, year: i32, genre: String) -> (r: Result<
        MovieEntity,
        RepoError,
    >)
        ensures
            r matches Ok(m) ==> {
                &&& m.title@ == title@ && m.year == year && m.genre@ == genre@
                &&& is_uuid_text(m.index@)
                &&& old(self).db.store().has_table
                &&& !old(self).db.store().rows.contains_key(m.index@)
                &&& final(self).db.store() == after_create(old(self).db.store(), m@)
                &&& final(self).db.store().rows == old(self).db.store().rows.insert(m.index@, m@)
            },
            r matches Err(e) ==> e.is_internal() && final(self).db.store() == old(self).db.store(),
            old(self).db.reliable() ==> (r is Err ==> !old(self).db.store().has_table
                || exists|k: Seq<char>|
                is_uuid_text(k) && #[trigger] old(self).db.store().rows.contains_key(k)),
            final(self).db.reliable() == old(self).db.reliable(),
    {
        let index = new_identifier();
        let r = self.add_movie_with_index(index, title, year, genre);
        proof {
            if old(self).db.reliable() && r is Err && old(self).db.store().has_table {
                assert(is_uuid_text(index@) && old(self).db.store().rows.contains_key(index@));
            }
        }
        r
    }

    /// Overwrites the title, year and genre of the record with `movie`'s
    /// identifier; `NotFound` where there is none.
    pub fn edit_movie(&mut self, movie: MovieEntity) -> (r: Result<(), RepoError>)
        ensures
            (outcome(r) == update_result(old(self).db.store(), movie@) && final(self).db.store()
                == after_update(old(self).db.store(), movie@)) || (r matches Err(e)
                && e.is_internal() && final(self).db.store() == old(self).db.store()),
            old(self).db.reliable() ==> outcome(r) == update_result(old(self).db.store(), movie@),
            final(self).db.reliable() == old(self).db.reliable(),
    {
        self.db.update_movie(&movie)
    }

    /// Removes the record with identifier `index`; `NotFound` where there is
    /// none.
    pub fn delete_movie(&mut self, index: String) -> (r: Result<(), RepoError>)
        ensures
            (outcome(r) == delete_result(old(self).db.store(), index@) && final(self).db.store()
                == after_delete(old(self).db.store(), index@)) || (r matches Err(e)
                && e.is_internal() && final(self).db.store() == old(self).db.store()),
            old(self).db.reliable() ==> outcome(r) == delete_result(old(self).db.store(), index@),
            final(self).db.reliable() == old(self).db.reliable(),
    {
        self.db.delete_movie(index)
    }
}

} // verus!
