//! The configuration that a run reads: credentials and named environments.

use vstd::prelude::*;
use std::collections::HashMap;
use crate::error::AppError;

verus! {

/// How to reach and authenticate with the backend.
#[derive(Debug, Clone)]
pub struct Credentials {
    pub url: String,
    pub service_account: String,
    pub service_key: Option<String>,
    pub access_token: String,
}

/// A named environment: a backend project and the instance it deploys to.
#[derive(Debug, Clone)]
pub struct Environment {
    pub project: String,
    pub instance: String,
}

/// A release: the environment it came from and the latest issue it holds.
#[derive(Debug, Clone)]
pub struct Release {
    pub from_env: String,
    pub issue_number: u32,
    pub source_project: String,
}

/// The whole configuration.
#[derive(Debug)]
pub struct AppConfig {
    /// The environment that runs take their changes from.
    pub default_source_env: Option<String>,
    pub credentials: Option<Credentials>,
    pub environments: HashMap<String, Environment>,
    pub releases: HashMap<String, Release>,
}

impl AppConfig {
    /// The stored credentials; without them the user must log in first.
    pub fn get_credentials(&self) -> (r: Result<&Credentials, AppError>)
        ensures
            match (r, self.credentials) {
                (Ok(c), Some(sc)) => *c == sc,
                (Err(AppError::Config(m)), None) => m@ == "No credentials found. please run `shelltide login`"@,
                _ => false,
            },
    {
        match &self.credentials {
            Some(c) => Ok(c),
            None => Err(AppError::Config("No credentials found. please run `shelltide login`".to_string())),
        }
    }
}

} // verus!
