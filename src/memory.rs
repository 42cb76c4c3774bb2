//! A store held in memory: the substitute for the relational store where no
//! database is at hand, with the same outcomes.
use vstd::prelude::*;
use vstd::seq_lib::seq_to_set_is_finite;
use vstd::string::*;
use crate::error::{outcome, ErrorKind, RepoError};
use crate::model::{
    after_create, after_delete, after_schema_init, after_update, create_result, delete_result,
    fetch_result, listing, update_result, StoreModel,
};
use crate::record::{views, MovieEntity, MovieView};
use crate::repository::MovieRepoImpl;

verus! {

/// No two records of `rows` share an identifier.
spec fn distinct_ids(rows: Seq<MovieView>) -> bool {
    forall|i: int, j: int|
        0 <= i < rows.len() && 0 <= j < rows.len() && i != j ==> #[trigger] rows[i].index
            != #[trigger] rows[j].index
}

/// Whether some record of `rows` has identifier `k`.
spec fn holds_id(rows: Seq<MovieView>, k: Seq<char>) -> bool {
    exists|i: int| 0 <= i < rows.len() && rows[i].index == k
}

/// The rows of `rows`, keyed by identifier.
spec fn catalog_of(rows: Seq<MovieView>) -> Map<Seq<char>, MovieView> {
    Map::new(
        |k: Seq<char>| holds_id(rows, k),
        |k: Seq<char>| rows[choose|i: int| 0 <= i < rows.len() && rows[i].index == k],
    )
}

proof fn lemma_catalog_at(rows: Seq<MovieView>, i: int)
    requires
        distinct_ids(rows),
        0 <= i < rows.len(),
    ensures
        catalog_of(rows).contains_key(rows[i].index),
        catalog_of(rows)[rows[i].index] == rows[i],
{
    let k = rows[i].index;
    assert(holds_id(rows, k));
    let j = choose|j: int| 0 <= j < rows.len() && rows[j].index == k;
    assert(j == i);
}

proof fn lemma_catalog_finite(rows: Seq<MovieView>)
    ensures
        catalog_of(rows).dom().finite(),
{
    let ids = rows.map_values(|m: MovieView| m.index);
    assert forall|k: Seq<char>| #[trigger] catalog_of(rows).dom().contains(k) <==> ids.to_set().contains(k) by {
        if holds_id(rows, k) {
            let i = choose|i: int| 0 <= i < rows.len() && rows[i].index == k;
            assert(ids[i] == k);
        }
        if ids.to_set().contains(k) {
            let i = choose|i: int| 0 <= i < ids.len() && ids[i] == k;
            assert(rows[i].index == k);
        }
    }
    assert(catalog_of(rows).dom() =~= ids.to_set());
    seq_to_set_is_finite(ids);
}

proof fn lemma_listing(rows: Seq<MovieView>)
    requires
        distinct_ids(rows),
    ensures
        listing(rows, catalog_of(rows)),
{
    assert forall|i: int| 0 <= i < rows.len() implies catalog_of(rows).contains_key(
        #[trigger] rows[i].index,
    ) && catalog_of(rows)[rows[i].index] == rows[i] by {
        lemma_catalog_at(rows, i);
    }
}

proof fn lemma_push(rows: Seq<MovieView>, m: MovieView)
    requires
        distinct_ids(rows),
        !catalog_of(rows).contains_key(m.index),
    ensures
        distinct_ids(rows.push(m)),
        catalog_of(rows.push(m)) == catalog_of(rows).insert(m.index, m),
{
    let rows2 = rows.push(m);
    assert forall|i: int| 0 <= i < rows.len() implies #[trigger] rows[i].index != m.index by {
        if rows[i].index == m.index {
            assert(holds_id(rows, m.index));
        }
    }
    assert(distinct_ids(rows2)) by {
        assert forall|i: int, j: int|
            0 <= i < rows2.len() && 0 <= j < rows2.len() && i != j implies #[trigger] rows2[i].index
            != #[trigger] rows2[j].index by {
            if i < rows.len() && j < rows.len() {
                assert(rows2[i] == rows[i] && rows2[j] == rows[j]);
            } else if i < rows.len() {
                assert(rows2[i] == rows[i]);
            } else {
                assert(rows2[j] == rows[j]);
            }
        }
    }
    let c = catalog_of(rows).insert(m.index, m);
    assert forall|k: Seq<char>| #[trigger] catalog_of(rows2).contains_key(k) <==> c.contains_key(
        k,
    ) by {
        if holds_id(rows, k) {
            let j = choose|j: int| 0 <= j < rows.len() && rows[j].index == k;
            assert(rows2[j] == rows[j]);
        }
        if k == m.index {
            assert(rows2[rows.len() as int] == m);
        }
        if holds_id(rows2, k) && k != m.index {
            let j = choose|j: int| 0 <= j < rows2.len() && rows2[j].index == k;
            assert(j < rows.len());
            assert(rows[j] == rows2[j]);
        }
    }
    assert forall|k: Seq<char>| #[trigger] catalog_of(rows2).contains_key(k) implies catalog_of(
        rows2,
    )[k] == c[k] by {
        let j = choose|j: int| 0 <= j < rows2.len() && rows2[j].index == k;
        lemma_catalog_at(rows2, j);
        if j < rows.len() {
            assert(rows[j] == rows2[j]);
            lemma_catalog_at(rows, j);
        }
    }
    assert(catalog_of(rows2) =~= c);
}

proof fn lemma_update(rows: Seq<MovieView>, i: int, m: MovieView)
    requires
        distinct_ids(rows),
        0 <= i < rows.len(),
        rows[i].index == m.index,
    ensures
        distinct_ids(rows.update(i, m)),
        catalog_of(rows.update(i, m)) == catalog_of(rows).insert(m.index, m),
{
    let rows2 = rows.update(i, m);
    assert(distinct_ids(rows2)) by {
        assert forall|a: int, b: int|
            0 <= a < rows2.len() && 0 <= b < rows2.len() && a != b implies #[trigger] rows2[a].index
            != #[trigger] rows2[b].index by {
            assert(rows2[a].index == rows[a].index);
            assert(rows2[b].index == rows[b].index);
        }
    }
    let c = catalog_of(rows).insert(m.index, m);
    assert forall|k: Seq<char>| #[trigger] catalog_of(rows2).contains_key(k) <==> c.contains_key(
        k,
    ) by {
        if holds_id(rows, k) {
            let j = choose|j: int| 0 <= j < rows.len() && rows[j].index == k;
            assert(rows2[j].index == k);
        }
        if k == m.index {
            assert(rows2[i].index == k);
        }
        if holds_id(rows2, k) {
            let j = choose|j: int| 0 <= j < rows2.len() && rows2[j].index == k;
            assert(rows[j].index == k);
        }
    }
    assert forall|k: Seq<char>| #[trigger] catalog_of(rows2).contains_key(k) implies catalog_of(
        rows2,
    )[k] == c[k] by {
        let j = choose|j: int| 0 <= j < rows2.len() && rows2[j].index == k;
        lemma_catalog_at(rows2, j);
        if j != i {
            assert(rows[j] == rows2[j]);
            lemma_catalog_at(rows, j);
        }
    }
    assert(catalog_of(rows2) =~= c);
}

proof fn lemma_remove(rows: Seq<MovieView>, i: int)
    requires
        distinct_ids(rows),
        0 <= i < rows.len(),
    ensures
        distinct_ids(rows.remove(i)),
        catalog_of(rows.remove(i)) == catalog_of(rows).remove(rows[i].index),
{
    let rows2 = rows.remove(i);
    let gone = rows[i].index;
    assert forall|a: int| 0 <= a < rows2.len() implies #[trigger] rows2[a] == rows[if a < i {
        a
    } else {
        a + 1
    }] by {}
    assert(distinct_ids(rows2)) by {
        assert forall|a: int, b: int|
            0 <= a < rows2.len() && 0 <= b < rows2.len() && a != b implies #[trigger] rows2[a].index
            != #[trigger] rows2[b].index by {
            assert(rows2[a] == rows[if a < i { a } else { a + 1 }]);
            assert(rows2[b] == rows[if b < i { b } else { b + 1 }]);
        }
    }
    let c = catalog_of(rows).remove(gone);
    assert forall|k: Seq<char>| #[trigger] catalog_of(rows2).contains_key(k) <==> c.contains_key(
        k,
    ) by {
        if holds_id(rows, k) && k != gone {
            let j = choose|j: int| 0 <= j < rows.len() && rows[j].index == k;
            assert(j != i);
            let a = if j < i { j } else { j - 1 };
            assert(rows2[a] == rows[j]);
        }
        if holds_id(rows2, k) {
            let a = choose|a: int| 0 <= a < rows2.len() && rows2[a].index == k;
            let j = if a < i { a } else { a + 1 };
            assert(rows2[a] == rows[j]);
            assert(j != i);
        }
    }
    assert forall|k: Seq<char>| #[trigger] catalog_of(rows2).contains_key(k) implies catalog_of(
        rows2,
    )[k] == c[k] by {
        let a = choose|a: int| 0 <= a < rows2.len() && rows2[a].index == k;
        let j = if a < i { a } else { a + 1 };
        assert(rows2[a] == rows[j]);
        lemma_catalog_at(rows2, a);
        lemma_catalog_at(rows, j);
    }
    assert(catalog_of(rows2) =~= c);
}

/// A store whose rows live in memory.
pub struct MemoryRepo {
    has_table: bool,
    rows: Vec<MovieEntity>,
}

impl MemoryRepo {
    #[verifier::type_invariant]
    spec fn inv(&self) -> bool {
        distinct_ids(views(self.rows@))
    }

    /// A store without the movie table.
    pub fn new() -> (r: MemoryRepo)
        ensures
            r.store() == (StoreModel { has_table: false, rows: Map::empty() }),
    {
        let r = MemoryRepo { has_table: false, rows: Vec::new() };
        assert(catalog_of(views(r.rows@)) =~= Map::empty());
        r
    }

    /// A store with an empty movie table, ready to serve.
    pub fn init() -> (r: MemoryRepo)
        ensures
            r.store() == (StoreModel { has_table: true, rows: Map::empty() }),
    {
        let mut r = MemoryRepo::new();
        let _ = r.init_schema();
        r
    }

    /// Creates the movie table where it does not exist yet; the rows already
    /// there are kept.
    pub fn init_schema(&mut self) -> (r: Result<(), RepoError>)
        ensures
            r is Ok,
            final(self).store() == after_schema_init(old(self).store()),
    {
        proof { use_type_invariant(&*self); }
        self.has_table = true;
        Ok(())
    }

    /// Where the record with identifier `index` stands among the rows.
    fn position(&self, index: &String) -> (r: Option<usize>)
        ensures
            match r {
                Some(i) => i < self.rows@.len() && self.rows@[i as int].index@ == index@,
                None => !self.store().rows.contains_key(index@),
            },
    {
        let n = self.rows.len();
        let mut i: usize = 0;
        while i < n
            invariant
                n == self.rows@.len(),
                i <= n,
                forall|j: int| 0 <= j < i ==> #[trigger] self.rows@[j].index@ != index@,
            decreases n - i,
        {
            if self.rows[i].index == *index {
                return Some(i);
            }
            i = i + 1;
        }
        assert forall|j: int|
            0 <= j < views(self.rows@).len() implies #[trigger] views(self.rows@)[j].index
            != index@ by {
            assert(self.rows@[j].index@ != index@);
        }
        None
    }

    fn not_found(index: &String) -> (r: RepoError)
        ensures
            r.kind == ErrorKind::NotFound,
    {
        let detail = String::from_str("no movie with identifier ").concat(index.as_str());
        RepoError::new(ErrorKind::NotFound, detail)
    }

    fn missing_table() -> (r: RepoError)
        ensures
            r.kind == ErrorKind::Query,
    {
        RepoError::new(ErrorKind::Query, String::from_str("relation \"movies\" does not exist"))
    }
}

impl MovieRepoImpl for MemoryRepo {
    closed spec fn store(&self) -> StoreModel {
        StoreModel { has_table: self.has_table, rows: catalog_of(views(self.rows@)) }
    }

    /// Memory is always at hand.
    open spec fn reliable(&self) -> bool {
        true
    }

    fn fetch_movies(&self) -> (r: Result<Vec<MovieEntity>, RepoError>)
        ensures
            outcome(r) == fetch_result(self.store()),
    {
        proof {
            use_type_invariant(self);
            lemma_catalog_finite(views(self.rows@));
        }
        if !self.has_table {
            return Err(MemoryRepo::missing_table());
        }
        let n = self.rows.len();
        let mut list: Vec<MovieEntity> = Vec::new();
        let mut i: usize = 0;
        while i < n
            invariant
                n == self.rows@.len(),
                i <= n,
                views(list@) =~= views(self.rows@).subrange(0, i as int),
            decreases n - i,
        {
            let ghost prev = list@;
            list.push(self.rows[i].clone());
            proof {
                assert(views(list@) =~= views(prev).push(self.rows@[i as int]@));
                assert(views(self.rows@).subrange(0, i + 1) =~= views(self.rows@).subrange(
                    0,
                    i as int,
                ).push(self.rows@[i as int]@));
            }
            i = i + 1;
        }
        proof {
            assert(views(list@) =~= views(self.rows@));
            lemma_listing(views(self.rows@));
        }
        Ok(list)
    }

    fn create_movie(&mut self, movie: &MovieEntity) -> (r: Result<(), RepoError>)
        ensures
            outcome(r) == create_result(old(self).store(), movie@),
            final(self).store() == after_create(old(self).store(), movie@),
    {
        proof {
            use_type_invariant(&*self);
            lemma_catalog_finite(views(self.rows@));
        }
        if !self.has_table {
            return Err(MemoryRepo::missing_table());
        }
        if let Some(i) = self.position(&movie.index) {
            proof { lemma_catalog_at(views(self.rows@), i as int); }
            return Err(
                RepoError::new(
                    ErrorKind::Query,
                    String::from_str("duplicate key value violates unique constraint"),
                ),
            );
        }
        let mut rows: Vec<MovieEntity> = Vec::new();
        std::mem::swap(&mut rows, &mut self.rows);
        let ghost before = views(rows@);
        rows.push(movie.clone());
        proof {
            assert(views(rows@) =~= before.push(movie@));
            lemma_push(before, movie@);
        }
        self.rows = rows;
        proof { lemma_catalog_finite(views(self.rows@)); }
        Ok(())
    }

    fn update_movie(&mut self, movie: &MovieEntity) -> (r: Result<(), RepoError>)
        ensures
            outcome(r) == update_result(old(self).store(), movie@),
            final(self).store() == after_update(old(self).store(), movie@),
    {
        proof {
            use_type_invariant(&*self);
            lemma_catalog_finite(views(self.rows@));
        }
        if !self.has_table {
            return Err(MemoryRepo::missing_table());
        }
        match self.position(&movie.index) {
            None => Err(MemoryRepo::not_found(&movie.index)),
            Some(i) => {
                let mut rows: Vec<MovieEntity> = Vec::new();
                std::mem::swap(&mut rows, &mut self.rows);
                let ghost before = views(rows@);
                rows.set(i, movie.clone());
                proof {
                    assert(views(rows@) =~= before.update(i as int, movie@));
                    lemma_catalog_at(before, i as int);
                    lemma_update(before, i as int, movie@);
                }
                self.rows = rows;
                proof { lemma_catalog_finite(views(self.rows@)); }
                Ok(())
            },
        }
    }

    fn delete_movie(&mut self, index: String) -> (r: Result<(), RepoError>)
        ensures
            outcome(r) == delete_result(old(self).store(), index@),
            final(self).store() == after_delete(old(self).store(), index@),
    {
        proof {
            use_type_invariant(&*self);
            lemma_catalog_finite(views(self.rows@));
        }
        if !self.has_table {
            return Err(MemoryRepo::missing_table());
        }
        match self.position(&index) {
            None => Err(MemoryRepo::not_found(&index)),
            Some(i) => {
                let mut rows: Vec<MovieEntity> = Vec::new();
                std::mem::swap(&mut rows, &mut self.rows);
                let ghost before = views(rows@);
                let _gone = rows.remove(i);
                proof {
                    assert(views(rows@) =~= before.remove(i as int));
                    lemma_catalog_at(before, i as int);
                    lemma_remove(before, i as int);
                }
                self.rows = rows;
                proof { lemma_catalog_finite(views(self.rows@)); }
                Ok(())
            },
        }
    }
}

} // verus!
