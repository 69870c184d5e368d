//! The values the bot is configured with. Loading them from files or the
//! environment is the embedding program's business; the library only
//! gives them their shape.

use vstd::prelude::*;

verus! {

/// Everything the bot needs to run.
#[derive(Debug)]
pub struct Settings {
    pub database: Database,
    pub discord: Discord,
}

/// Where the relational store lives.
#[derive(Debug)]
pub struct Database {
    pub url: String,
    pub schema: Option<String>,
}

/// How the chat gateway is reached.
#[derive(Debug)]
pub struct Discord {
    pub token: String,
}

} // verus!
