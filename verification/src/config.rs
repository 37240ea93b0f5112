//! The plain parts of the gateway's settings.

use vstd::prelude::*;

verus! {

/// How to reach exmo.
#[derive(Debug, Clone)]
pub struct Client {
    pub dns_threads: usize,
    pub exmo_url: String,
    pub timeout_s: Option<u64>,
    pub retry_attempts: Option<usize>,
    pub retry_timeout: Option<u64>,
}

/// The credentials of the gateway's exmo account.
#[derive(Debug, Clone)]
pub struct Auth {
    pub exmo_api_key: String,
    pub exmo_api_secret: String,
}

/// Where the gateway listens.
#[derive(Debug, Clone)]
pub struct Server {
    pub host: String,
    pub port: String,
}

/// Where the gateway's database is.
#[derive(Debug, Clone)]
pub struct Database {
    pub url: String,
}

/// How many threads run database work.
#[derive(Debug, Clone)]
pub struct CpuPool {
    pub size: usize,
}

} // verus!
