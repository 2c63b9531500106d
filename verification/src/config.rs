//! The daemon's settings.

use vstd::prelude::*;
use crate::error::AppError;

verus! {

/// The settings, as they were read from the configuration file and from the
/// environment.
#[derive(Debug)]
pub struct Config {
    pub twitter_client_id: String,
    pub twitter_client_secret: String,
    pub redirect_host: String,
    pub socket_path: String,
    pub cache_path: String,
    pub filter_dir: String,
    pub scopes: Vec<String>,
    pub database_url: String,
    pub database_type: String,
}

impl Config {
    /// The settings made of the given values, each in the field of its name.
    pub fn new(
        twitter_client_id: String,
        twitter_client_secret: String,
        redirect_host: String,
        socket_path: String,
        cache_path: String,
        filter_dir: String,
        scopes: Vec<String>,
        database_url: String,
        database_type: String,
    ) -> (r: Result<Config, AppError>)
        ensures
            r matches Ok(config) && config == (Config {
                twitter_client_id,
                twitter_client_secret,
                redirect_host,
                socket_path,
                cache_path,
                filter_dir,
                scopes,
                database_url,
                database_type,
            }),
    {
        Ok(
            Config {
                twitter_client_id,
                twitter_client_secret,
                redirect_host,
                socket_path,
                cache_path,
                filter_dir,
                scopes,
                database_url,
                database_type,
            },
        )
    }
}

} // verus!
