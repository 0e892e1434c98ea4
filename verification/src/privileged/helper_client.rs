use vstd::prelude::*;
use crate::error::{AppError, AppResult};
use super::Privileged;

verus! {

/// Talks to the session-scoped privileged helper. Its protocol is not wired
/// up yet: it reports itself available and every operation is `NotImplemented`.
pub struct HelperClient;

impl HelperClient {
    pub fn new() -> (s: Self)
        ensures
            s == HelperClient,
    {
        HelperClient
    }
}

impl Default for HelperClient {
    fn default() -> (d: Self)
        ensures
            d == HelperClient,
    {
        HelperClient::new()
    }
}

impl Privileged for HelperClient {
    fn is_available(&self) -> (b: bool)
        ensures
            b,
    {
        true
    }

    fn ensure_authorized(&mut self) -> (r: AppResult<()>)
        ensures
            r == Err::<(), AppError>(AppError::NotImplemented),
    {
        Err(AppError::NotImplemented)
    }

    fn read_dir_entries(&self, path: &str) -> (r: AppResult<Vec<String>>)
        ensures
            r matches Err(AppError::NotImplemented),
    {
        Err(AppError::NotImplemented)
    }

    fn unlink(&self, path: &str) -> (r: AppResult<()>)
        ensures
            r == Err::<(), AppError>(AppError::NotImplemented),
    {
        Err(AppError::NotImplemented)
    }

    fn move_to_quarantine(&self, src: &str, dst: &str) -> (r: AppResult<()>)
        ensures
            r == Err::<(), AppError>(AppError::NotImplemented),
    {
        Err(AppError::NotImplemented)
    }
}

} // verus!
