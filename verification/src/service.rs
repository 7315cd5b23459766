//! The settings the service is started with.

use vstd::prelude::*;

verus! {

/// Application settings, loaded from the environment by the surrounding
/// application before the service is built.
pub struct Settings {
    /// The port on which the HTTP server should listen.
    pub port: u16,
    /// The connection URL for the database.
    pub database_url: String,
}

} // verus!
