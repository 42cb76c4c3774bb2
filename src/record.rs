//! The movie record, as held in memory and as seen by contracts.
use vstd::prelude::*;

verus! {

/// A movie record as the contracts see it: every text as a sequence of
/// characters.
pub struct MovieView {
    pub index: Seq<char>,
    pub title: Seq<char>,
    pub year: i32,
    pub genre: Seq<char>,
}

/// One movie record. `index` is the record's identifier: assigned once, when
/// the record is created, and never changed by an edit.
#[derive(Debug)]
pub struct MovieEntity {
    pub index: String,
    pub title: String,
    pub year: i32,
    pub genre: String,
}

impl View for MovieEntity {
    type V = MovieView;

    open spec fn view(&self) -> MovieView {
        MovieView {
            index: self.index@,
            title: self.title@,
            year: self.year,
            genre: self.genre@,
        }
    }
}

/// The views of a sequence of records, one for one.
pub open spec fn views(rows: Seq<MovieEntity>) -> Seq<MovieView> {
    rows.map_values(|m: MovieEntity| m@)
}

impl MovieEntity {
    /// A record with the given identifier and fields.
    pub fn new(index: String, title: String, year: i32, genre: String) -> (r: MovieEntity)
        ensures
            r@ == (MovieView { index: index@, title: title@, year, genre: genre@ }),
    {
        MovieEntity { index, title, year, genre }
    }
}

impl Clone for MovieEntity {
    fn clone(&self) -> (r: MovieEntity)
        ensures
            r@ == self@,
    {
        MovieEntity {
            index: self.index.clone(),
            title: self.title.clone(),
            year: self.year,
            genre: self.genre.clone(),
        }
    }
}

/// A movie record in the shape the remote-procedure messages carry it.
#[derive(Debug)]
pub struct MovieItem {
    pub index: String,
    pub title: String,
    pub year: i32,
    pub genre: String,
}

impl View for MovieItem {
    type V = MovieView;

    open spec fn view(&self) -> MovieView {
        MovieView {
            index: self.index@,
            title: self.title@,
            year: self.year,
            genre: self.genre@,
        }
    }
}

impl From<MovieEntity> for MovieItem {
    fn from(entity: MovieEntity) -> (r: MovieItem)
        ensures
            r@ == entity@,
    {
        MovieItem { index: entity.index, title: entity.title, year: entity.year, genre: entity.genre }
    }
}

impl vstd::std_specs::convert::FromSpecImpl<MovieEntity> for MovieItem {
    open spec fn obeys_from_spec() -> bool {
        true
    }

    open spec fn from_spec(entity: MovieEntity) -> MovieItem {
        MovieItem { index: entity.index, title: entity.title, year: entity.year, genre: entity.genre }
    }
}

impl From<MovieItem> for MovieEntity {
    fn from(item: MovieItem) -> (r: MovieEntity)
        ensures
            r@ == item@,
    {
        MovieEntity { index: item.index, title: item.title, year: item.year, genre: item.genre }
    }
}

impl vstd::std_specs::convert::FromSpecImpl<MovieItem> for MovieEntity {
    open spec fn obeys_from_spec() -> bool {
        true
    }

    open spec fn from_spec(item: MovieItem) -> MovieEntity {
        MovieEntity { index: item.index, title: item.title, year: item.year, genre: item.genre }
    }
}

} // verus!
