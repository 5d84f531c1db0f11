//! Who logs in, and with what.

use vstd::prelude::*;

verus! {

/// The settings of a client.
#[derive(Debug)]
pub struct Config {
    pub betfair: BetfairConfig,
}

/// The account and the application that a client acts for.
#[derive(Debug)]
pub struct BetfairConfig {
    pub username: String,
    pub password: String,
    pub api_key: String,
    pub pem_path: String,
}

impl Clone for BetfairConfig {
    fn clone(&self) -> (copy: Self)
        ensures
            copy == *self,
    {
        BetfairConfig {
            username: self.username.clone(),
            password: self.password.clone(),
            api_key: self.api_key.clone(),
            pem_path: self.pem_path.clone(),
        }
    }
}

impl Clone for Config {
    fn clone(&self) -> (copy: Self)
        ensures
            copy == *self,
    {
        Config { betfair: self.betfair.clone() }
    }
}

} // verus!
