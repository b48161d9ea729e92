//! The storage side: where the database is and what a row holds.

pub mod model;

use vstd::prelude::*;

verus! {

/// Where the database is and who connects to it.
#[derive(Debug, Default)]
pub struct Config {
    pub host: String,
    pub port: u16,
    pub db_name: String,
    pub username: String,
    pub password: String,
}

impl Clone for Config {
    fn clone(&self) -> (copy: Config)
        ensures
            copy == *self,
    {
        Config {
            host: self.host.clone(),
            port: self.port,
            db_name: self.db_name.clone(),
            username: self.username.clone(),
            password: self.password.clone(),
        }
    }
}

} // verus!
