//! The names of the environment variables that the browser-driven scraper
//! service reads.
use crate::text::{concat, decimal, decimal_text};
use vstd::prelude::*;

verus! {

/// The environment variables of the browser-driven scraper service, by name.
#[allow(non_snake_case)]
pub struct Env {
    pub PJATK_SCRAPPER_PORT: &'static str,
    pub PJATK_SCRAPPER_URL_WITH_PROTOCOL: &'static str,
    pub MONGO_INITDB_ROOT_USERNAME: &'static str,
    pub MONGO_INITDB_ROOT_PASSWORD: &'static str,
    pub MONGO_HOST: &'static str,
    pub MONGO_PORT: &'static str,
    pub MONGO_INITDB_DATABASE: &'static str,
    pub MONGO_INITDB_COLLECTION: &'static str,
    pub ALTAPI_URL: &'static str,
    pub ALTAPI_KEY: &'static str,
    pub AUTH_KEY: &'static str,
}

impl Env {
    /// Each variable is named as its field.
    pub fn new() -> (r: Self)
        ensures
            r.PJATK_SCRAPPER_PORT@ == "PJATK_SCRAPPER_PORT"@,
            r.PJATK_SCRAPPER_URL_WITH_PROTOCOL@ == "PJATK_SCRAPPER_URL_WITH_PROTOCOL"@,
            r.MONGO_INITDB_ROOT_USERNAME@ == "MONGO_INITDB_ROOT_USERNAME"@,
            r.MONGO_INITDB_ROOT_PASSWORD@ == "MONGO_INITDB_ROOT_PASSWORD"@,
            r.MONGO_HOST@ == "MONGO_HOST"@,
            r.MONGO_PORT@ == "MONGO_PORT"@,
            r.MONGO_INITDB_DATABASE@ == "MONGO_INITDB_DATABASE"@,
            r.MONGO_INITDB_COLLECTION@ == "MONGO_INITDB_COLLECTION"@,
            r.ALTAPI_URL@ == "ALTAPI_URL"@,
            r.ALTAPI_KEY@ == "ALTAPI_KEY"@,
            r.AUTH_KEY@ == "AUTH_KEY"@,
    {
        Env {
            PJATK_SCRAPPER_PORT: "PJATK_SCRAPPER_PORT",
            PJATK_SCRAPPER_URL_WITH_PROTOCOL: "PJATK_SCRAPPER_URL_WITH_PROTOCOL",
            MONGO_INITDB_ROOT_USERNAME: "MONGO_INITDB_ROOT_USERNAME",
            MONGO_INITDB_ROOT_PASSWORD: "MONGO_INITDB_ROOT_PASSWORD",
            MONGO_HOST: "MONGO_HOST",
            MONGO_PORT: "MONGO_PORT",
            MONGO_INITDB_DATABASE: "MONGO_INITDB_DATABASE",
            MONGO_INITDB_COLLECTION: "MONGO_INITDB_COLLECTION",
            ALTAPI_URL: "ALTAPI_URL",
            ALTAPI_KEY: "ALTAPI_KEY",
            AUTH_KEY: "AUTH_KEY",
        }
    }
}

} // verus!

verus! {

/// The browser-driven scraper service's address settings. Its datastore
/// and browser clients are held by the service itself.
pub struct Config {
    pub port: u16,
    pub server_url_with_protocol: String,
}

impl Config {
    pub fn new(port: u16, server_url_with_protocol: String) -> (r: Self)
        ensures
            r.port == port,
            r.server_url_with_protocol@ == server_url_with_protocol@,
    {
        Config { port, server_url_with_protocol }
    }

    /// `<url>:<port>/api`.
    pub fn get_complete_server_url(&self) -> (r: String)
        ensures
            r@ == self.server_url_with_protocol@ + ":"@ + decimal(self.port as nat) + "/api"@,
    {
        let a = concat(self.server_url_with_protocol.as_str(), ":");
        let p = decimal_text(self.port as u64);
        let b = concat(a.as_str(), p.as_str());
        concat(b.as_str(), "/api")
    }

    pub fn get_port(&self) -> (r: u16)
        ensures
            r == self.port,
    {
        self.port
    }
}

} // verus!
