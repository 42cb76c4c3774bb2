use std::collections::HashSet;

use movie_catalog::config::load_configuration;
use movie_catalog::error::{ErrorKind, RepoError, RpcCode};
use movie_catalog::memory::MemoryRepo;
use movie_catalog::record::{MovieEntity, MovieItem};
use movie_catalog::repository::MovieRepoImpl;
use movie_catalog::service::MovieService;
use movie_catalog::store::{
    create_table_statement, delete_statement, insert_statement, keyed_write_outcome,
    select_all_statement, startup_error, statement_error, update_statement, StartupStep, DB_NAME,
};

fn movie(index: &str, title: &str, year: i32, genre: &str) -> MovieEntity {
    MovieEntity::new(index.to_string(), title.to_string(), year, genre.to_string())
}

fn ready_service() -> MovieService<MemoryRepo> {
    MovieService::new(MemoryRepo::init())
}

fn is_uuid_text(s: &str) -> bool {
    let chars: Vec<char> = s.chars().collect();
    chars.len() == 36
        && chars.iter().enumerate().all(|(i, c)| {
            if i == 8 || i == 13 || i == 18 || i == 23 {
                *c == '-'
            } else {
                c.is_ascii_digit() || ('a'..='f').contains(c)
            }
        })
        && chars[14] == '4'
}

#[test]
fn round_trip_create_then_fetch() {
    let mut service = ready_service();
    let before: Vec<String> = service.get_movies().unwrap().into_iter().map(|m| m.index).collect();
    let created = service
        .add_movie("Interstellar".to_string(), 2014, "Sci-Fi".to_string())
        .unwrap();
    assert!(!before.contains(&created.index));
    let movies = service.get_movies().unwrap();
    assert!(movies.iter().any(|m| m.index == created.index
        && m.title == "Interstellar"
        && m.year == 2014
        && m.genre == "Sci-Fi"));
}

#[test]
fn edit_year_keeps_title_and_genre() {
    let mut service = ready_service();
    let created = service
        .add_movie("Interstellar".to_string(), 2014, "Sci-Fi".to_string())
        .unwrap();
    service
        .edit_movie(movie(&created.index, "Interstellar", 2015, "Sci-Fi"))
        .unwrap();
    let movies = service.get_movies().unwrap();
    let edited: Vec<&MovieEntity> = movies.iter().filter(|m| m.index == created.index).collect();
    assert_eq!(edited.len(), 1);
    assert_eq!(edited[0].year, 2015);
    assert_eq!(edited[0].title, "Interstellar");
    assert_eq!(edited[0].genre, "Sci-Fi");
}

#[test]
fn delete_removes_identifier() {
    let mut service = ready_service();
    let kept = service.add_movie("Whiplash".to_string(), 2014, "Drama".to_string()).unwrap();
    let gone = service.add_movie("Interstellar".to_string(), 2014, "Sci-Fi".to_string()).unwrap();
    service.delete_movie(gone.index.clone()).unwrap();
    let movies = service.get_movies().unwrap();
    assert_eq!(movies.len(), 1);
    assert!(movies.iter().all(|m| m.index != gone.index));
    assert_eq!(movies[0].index, kept.index);
}

#[test]
fn update_of_missing_identifier_is_not_found() {
    let mut service = ready_service();
    service.add_movie("Whiplash".to_string(), 2014, "Drama".to_string()).unwrap();
    let err = service.edit_movie(movie("never-created", "X", 2000, "Y")).unwrap_err();
    assert_eq!(err.kind, ErrorKind::NotFound);
    assert_eq!(err.rpc_code(), RpcCode::NotFound);
    assert_eq!(service.get_movies().unwrap().len(), 1);
}

#[test]
fn delete_of_missing_identifier_is_not_found() {
    let mut service = ready_service();
    let err = service.delete_movie("never-created".to_string()).unwrap_err();
    assert_eq!(err.kind, ErrorKind::NotFound);
    assert_eq!(err.detail, "no movie with identifier never-created");
}

#[test]
fn schema_init_twice_keeps_rows() {
    let mut repo = MemoryRepo::new();
    repo.init_schema().unwrap();
    repo.create_movie(&movie("a", "Interstellar", 2014, "Sci-Fi")).unwrap();
    repo.init_schema().unwrap();
    repo.init_schema().unwrap();
    let movies = repo.fetch_movies().unwrap();
    assert_eq!(movies.len(), 1);
    assert_eq!(movies[0].index, "a");
    assert_eq!(movies[0].title, "Interstellar");
}

#[test]
fn thousand_adds_give_distinct_identifiers() {
    let mut service = ready_service();
    let mut seen = HashSet::new();
    for i in 0..1000 {
        let created = service.add_movie(format!("Movie {}", i), 2000, "Drama".to_string()).unwrap();
        assert!(is_uuid_text(&created.index));
        seen.insert(created.index);
    }
    assert_eq!(seen.len(), 1000);
    assert_eq!(service.get_movies().unwrap().len(), 1000);
}

#[test]
fn add_returns_record_with_given_fields() {
    let mut service = ready_service();
    let created = service.add_movie("Arrival".to_string(), 2016, "Sci-Fi".to_string()).unwrap();
    assert_eq!(created.title, "Arrival");
    assert_eq!(created.year, 2016);
    assert_eq!(created.genre, "Sci-Fi");
    assert!(is_uuid_text(&created.index));
}

#[test]
fn duplicate_identifier_is_query_failure() {
    let mut repo = MemoryRepo::init();
    repo.create_movie(&movie("a", "Interstellar", 2014, "Sci-Fi")).unwrap();
    let err = repo.create_movie(&movie("a", "Whiplash", 2014, "Drama")).unwrap_err();
    assert_eq!(err.kind, ErrorKind::Query);
    assert_eq!(err.rpc_code(), RpcCode::Internal);
    let movies = repo.fetch_movies().unwrap();
    assert_eq!(movies.len(), 1);
    assert_eq!(movies[0].title, "Interstellar");
}

#[test]
fn operations_without_table_fail() {
    let mut repo = MemoryRepo::new();
    assert_eq!(repo.fetch_movies().unwrap_err().kind, ErrorKind::Query);
    assert_eq!(repo.create_movie(&movie("a", "T", 1, "G")).unwrap_err().kind, ErrorKind::Query);
    assert_eq!(repo.update_movie(&movie("a", "T", 1, "G")).unwrap_err().kind, ErrorKind::Query);
    assert_eq!(repo.delete_movie("a".to_string()).unwrap_err().kind, ErrorKind::Query);
}

#[test]
fn empty_store_lists_nothing() {
    let repo = MemoryRepo::init();
    assert!(repo.fetch_movies().unwrap().is_empty());
}

#[test]
fn update_overwrites_all_fields_but_identifier() {
    let mut repo = MemoryRepo::init();
    repo.create_movie(&movie("a", "Interstellar", 2014, "Sci-Fi")).unwrap();
    repo.create_movie(&movie("b", "Whiplash", 2014, "Drama")).unwrap();
    repo.update_movie(&movie("b", "Dune", 2021, "Adventure")).unwrap();
    let movies = repo.fetch_movies().unwrap();
    assert_eq!(movies.len(), 2);
    let b = movies.iter().find(|m| m.index == "b").unwrap();
    assert_eq!((b.title.as_str(), b.year, b.genre.as_str()), ("Dune", 2021, "Adventure"));
    let a = movies.iter().find(|m| m.index == "a").unwrap();
    assert_eq!(a.title, "Interstellar");
}

#[test]
fn error_codes_keep_not_found_distinct() {
    let make = |kind| RepoError::new(kind, "cause".to_string());
    assert_eq!(make(ErrorKind::NotFound).rpc_code(), RpcCode::NotFound);
    assert_eq!(make(ErrorKind::Connection).rpc_code(), RpcCode::Internal);
    assert_eq!(make(ErrorKind::SchemaInit).rpc_code(), RpcCode::Internal);
    assert_eq!(make(ErrorKind::Query).rpc_code(), RpcCode::Internal);
}

#[test]
fn statements_use_parameters() {
    assert_eq!(
        create_table_statement(DB_NAME),
        "CREATE TABLE IF NOT EXISTS movies (index TEXT PRIMARY KEY, title TEXT NOT NULL, year INT NOT NULL, genre TEXT NOT NULL)"
    );
    assert_eq!(select_all_statement(DB_NAME), "SELECT index, title, year, genre FROM movies");
    assert_eq!(
        insert_statement(DB_NAME),
        "INSERT INTO movies (index, title, year, genre) VALUES ($1, $2, $3, $4)"
    );
    assert_eq!(
        update_statement("cinema"),
        "UPDATE cinema SET title = $1, year = $2, genre = $3 WHERE index = $4"
    );
    assert_eq!(delete_statement(DB_NAME), "DELETE FROM movies WHERE index = $1");
}

#[test]
fn zero_rows_affected_is_not_found() {
    let id = "bd24fa48-690d-476e-b9c9-e6a746f02941".to_string();
    let err = keyed_write_outcome(0, &id).unwrap_err();
    assert_eq!(err.kind, ErrorKind::NotFound);
    assert_eq!(err.detail, "no movie with identifier bd24fa48-690d-476e-b9c9-e6a746f02941");
    assert!(keyed_write_outcome(1, &id).is_ok());
}

#[test]
fn statement_errors_keep_their_cause() {
    let closed = statement_error(true, "connection closed".to_string());
    assert_eq!(closed.kind, ErrorKind::Connection);
    assert_eq!(closed.detail, "connection closed");
    let failed = statement_error(false, "syntax error".to_string());
    assert_eq!(failed.kind, ErrorKind::Query);
    assert_eq!(failed.detail, "syntax error");
}

#[test]
fn configuration_from_lookups() {
    let ok = load_configuration(Ok("postgres://db".to_string()), Ok("movies".to_string())).unwrap();
    assert_eq!(ok.postgres_url, "postgres://db");
    assert_eq!(ok.postgres_db_name, "movies");
    assert_eq!(
        load_configuration(Err("a".to_string()), Err("b".to_string())).unwrap_err(),
        "Postgres URL and NAME not found"
    );
    assert_eq!(
        load_configuration(Ok("u".to_string()), Err("not present".to_string())).unwrap_err(),
        "Postgres DB Name error: not present"
    );
    assert_eq!(
        load_configuration(Err("not present".to_string()), Ok("n".to_string())).unwrap_err(),
        "Postgres URL error: not present"
    );
}

#[test]
fn wire_conversions_keep_every_field() {
    let item = MovieItem::from(movie("a1", "Whiplash", 2014, "Drama"));
    assert_eq!(
        (item.index.as_str(), item.title.as_str(), item.year, item.genre.as_str()),
        ("a1", "Whiplash", 2014, "Drama")
    );
    let back = MovieEntity::from(item);
    assert_eq!(
        (back.index.as_str(), back.title.as_str(), back.year, back.genre.as_str()),
        ("a1", "Whiplash", 2014, "Drama")
    );
}

#[test]
fn add_with_given_identifier_is_exact() {
    let mut service = ready_service();
    let created = service
        .add_movie_with_index("id-1".to_string(), "Interstellar".to_string(), 2014, "Sci-Fi".to_string())
        .unwrap();
    assert_eq!(
        (created.index.as_str(), created.title.as_str(), created.year, created.genre.as_str()),
        ("id-1", "Interstellar", 2014, "Sci-Fi")
    );
    let err = service
        .add_movie_with_index("id-1".to_string(), "Whiplash".to_string(), 2014, "Drama".to_string())
        .unwrap_err();
    assert_eq!(err.kind, ErrorKind::Query);
    let movies = service.get_movies().unwrap();
    assert_eq!(movies.len(), 1);
    assert_eq!(movies[0].title, "Interstellar");
}

#[test]
fn service_passes_repository_errors_on() {
    let mut service = MovieService::new(MemoryRepo::new());
    assert_eq!(service.get_movies().unwrap_err().kind, ErrorKind::Query);
    let err = service.delete_movie("x".to_string()).unwrap_err();
    assert_eq!(err.kind, ErrorKind::Query);
    assert_eq!(err.detail, "relation \"movies\" does not exist");
}

#[test]
fn startup_errors_by_step() {
    let connect = startup_error(StartupStep::Connect, "refused".to_string());
    assert_eq!(connect.kind, ErrorKind::Connection);
    assert_eq!(connect.detail, "refused");
    assert_eq!(startup_error(StartupStep::Ping, "timeout".to_string()).kind, ErrorKind::Connection);
    let schema = startup_error(StartupStep::CreateTable, "permission denied".to_string());
    assert_eq!(schema.kind, ErrorKind::SchemaInit);
    assert_eq!(schema.rpc_code(), RpcCode::Internal);
}
