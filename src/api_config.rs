//! The names of the environment variables that the query service reads.
use crate::text::{concat, decimal, decimal_text};
use vstd::prelude::*;

verus! {

/// The environment variables of the query service, by name.
#[allow(non_snake_case)]
pub struct Env {
    pub PJATK_API_PORT: &'static str,
    pub PJATK_API_URL_WITH_PROTOCOL: &'static str,
    pub MONGO_INITDB_ROOT_USERNAME: &'static str,
    pub MONGO_INITDB_ROOT_PASSWORD: &'static str,
    pub MONGO_HOST: &'static str,
    pub MONGO_PORT: &'static str,
}

impl Env {
    /// Each variable is named as its field.
    pub fn new() -> (r: Self)
        ensures
            r.PJATK_API_PORT@ == "PJATK_API_PORT"@,
            r.PJATK_API_URL_WITH_PROTOCOL@ == "PJATK_API_URL_WITH_PROTOCOL"@,
            r.MONGO_INITDB_ROOT_USERNAME@ == "MONGO_INITDB_ROOT_USERNAME"@,
            r.MONGO_INITDB_ROOT_PASSWORD@ == "MONGO_INITDB_ROOT_PASSWORD"@,
            r.MONGO_HOST@ == "MONGO_HOST"@,
            r.MONGO_PORT@ == "MONGO_PORT"@,
    {
        Env {
            PJATK_API_PORT: "PJATK_API_PORT",
            PJATK_API_URL_WITH_PROTOCOL: "PJATK_API_URL_WITH_PROTOCOL",
            MONGO_INITDB_ROOT_USERNAME: "MONGO_INITDB_ROOT_USERNAME",
            MONGO_INITDB_ROOT_PASSWORD: "MONGO_INITDB_ROOT_PASSWORD",
            MONGO_HOST: "MONGO_HOST",
            MONGO_PORT: "MONGO_PORT",
        }
    }
}

} // verus!

verus! {

/// The query service's address settings. Its datastore client is held by
/// the service itself.
pub struct Config {
    pub port: u8,
    pub server_url_with_protocol: String,
}

impl Config {
    pub fn new(port: u8, server_url_with_protocol: String) -> (r: Self)
        ensures
            r.port == port,
            r.server_url_with_protocol@ == server_url_with_protocol@,
    {
        Config { port, server_url_with_protocol }
    }

    /// `<url>:<port>`.
    pub fn get_complete_server_url(&self) -> (r: String)
        ensures
            r@ == self.server_url_with_protocol@ + ":"@ + decimal(self.port as nat),
    {
        let a = concat(self.server_url_with_protocol.as_str(), ":");
        let p = decimal_text(self.port as u64);
        concat(a.as_str(), p.as_str())
    }

    pub fn get_port(&self) -> (r: u8)
        ensures
            r == self.port,
    {
        self.port
    }
}

} // verus!
