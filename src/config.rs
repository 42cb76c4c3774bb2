//! The process configuration: where the store is and what its database is
//! called, decided once at startup from two looked-up values.
use vstd::prelude::*;
use vstd::string::*;

verus! {

#[derive(Debug, Clone)]
pub struct Config {
    pub postgres_url: String,
    pub postgres_db_name: String,
}

/// The configuration from the looked-up connection string and database name,
/// each either its value or the reason the lookup failed.
pub fn load_configuration(url: Result<String, String>, db_name: Result<String, String>) -> (r:
    Result<Config, String>)
    ensures
        match (url, db_name) {
            (Ok(u), Ok(n)) => r matches Ok(c) && c.postgres_url@ == u@ && c.postgres_db_name@
                == n@,
            (Err(_), Err(_)) => r matches Err(msg) && msg@ == "Postgres URL and NAME not found"@,
            (Ok(_), Err(e)) => r matches Err(msg) && msg@ == "Postgres DB Name error: "@ + e@,
            (Err(e), Ok(_)) => r matches Err(msg) && msg@ == "Postgres URL error: "@ + e@,
        },
{
    match (url, db_name) {
        (Ok(postgres_url), Ok(postgres_db_name)) => Ok(Config { postgres_url, postgres_db_name }),
        (Err(_), Err(_)) => Err(String::from_str("Postgres URL and NAME not found")),
        (Ok(_), Err(e)) => Err(String::from_str("Postgres DB Name error: ").concat(e.as_str())),
        (Err(e), Ok(_)) => Err(String::from_str("Postgres URL error: ").concat(e.as_str())),
    }
}

} // verus!
