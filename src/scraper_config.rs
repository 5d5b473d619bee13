//! The names of the environment variables that the scrape worker reads.
use vstd::prelude::*;

verus! {

/// The environment variables of the scrape worker, by name.
#[allow(non_snake_case)]
pub struct Env {
    pub PJATK_SCRAPPER_PORT: &'static str,
    pub PJATK_SCRAPPER_URL_WITH_PROTOCOL: &'static str,
    pub MONGO_INITDB_ROOT_USERNAME: &'static str,
    pub MONGO_INITDB_ROOT_PASSWORD: &'static str,
    pub MONGO_HOST: &'static str,
    pub MONGO_PORT: &'static str,
    pub MONGO_INITDB_DATABASE: &'static str,
    pub MONGO_INITDB_COLLECTION: &'static str,
    pub MANAGER_URL: &'static str,
    pub UPLOAD_URL: &'static str,
    pub UPLOAD_KEY: &'static str,
    pub SCRAPE_CONCURRENCY: &'static str,
    pub SCRAPE_INTER_DAY_SLEEP_MS: &'static str,
    pub LOG_LEVEL: &'static str,
}

impl Env {
    /// Each variable is named as its field.
    pub fn new() -> (r: Self)
        ensures
            r.PJATK_SCRAPPER_PORT@ == "PJATK_SCRAPPER_PORT"@,
            r.PJATK_SCRAPPER_URL_WITH_PROTOCOL@ == "PJATK_SCRAPPER_URL_WITH_PROTOCOL"@,
            r.MONGO_INITDB_ROOT_USERNAME@ == "MONGO_INITDB_ROOT_USERNAME"@,
            r.MONGO_INITDB_ROOT_PASSWORD@ == "MONGO_INITDB_ROOT_PASSWORD"@,
            r.MONGO_HOST@ == "MONGO_HOST"@,
            r.MONGO_PORT@ == "MONGO_PORT"@,
            r.MONGO_INITDB_DATABASE@ == "MONGO_INITDB_DATABASE"@,
            r.MONGO_INITDB_COLLECTION@ == "MONGO_INITDB_COLLECTION"@,
            r.MANAGER_URL@ == "MANAGER_URL"@,
            r.UPLOAD_URL@ == "UPLOAD_URL"@,
            r.UPLOAD_KEY@ == "UPLOAD_KEY"@,
            r.SCRAPE_CONCURRENCY@ == "SCRAPE_CONCURRENCY"@,
            r.SCRAPE_INTER_DAY_SLEEP_MS@ == "SCRAPE_INTER_DAY_SLEEP_MS"@,
            r.LOG_LEVEL@ == "LOG_LEVEL"@,
    {
        Env {
            PJATK_SCRAPPER_PORT: "PJATK_SCRAPPER_PORT",
            PJATK_SCRAPPER_URL_WITH_PROTOCOL: "PJATK_SCRAPPER_URL_WITH_PROTOCOL",
            MONGO_INITDB_ROOT_USERNAME: "MONGO_INITDB_ROOT_USERNAME",
            MONGO_INITDB_ROOT_PASSWORD: "MONGO_INITDB_ROOT_PASSWORD",
            MONGO_HOST: "MONGO_HOST",
            MONGO_PORT: "MONGO_PORT",
            MONGO_INITDB_DATABASE: "MONGO_INITDB_DATABASE",
            MONGO_INITDB_COLLECTION: "MONGO_INITDB_COLLECTION",
            MANAGER_URL: "MANAGER_URL",
            UPLOAD_URL: "UPLOAD_URL",
            UPLOAD_KEY: "UPLOAD_KEY",
            SCRAPE_CONCURRENCY: "SCRAPE_CONCURRENCY",
            SCRAPE_INTER_DAY_SLEEP_MS: "SCRAPE_INTER_DAY_SLEEP_MS",
            LOG_LEVEL: "LOG_LEVEL",
        }
    }
}

/// The timetable page.
pub fn timetable_url() -> (r: &'static str)
    ensures
        r@ == "https://planzajec.pjwstk.edu.pl/PlanOgolny3.aspx"@,
{
    "https://planzajec.pjwstk.edu.pl/PlanOgolny3.aspx"
}

} // verus!
