use vstd::prelude::*;
use crate::error::{AppError, AppResult};
use super::Privileged;

verus! {

/// The sandboxed build cannot perform privileged operations: every one of
/// them fails with `PrivilegedUnavailable`.
pub struct Disabled;

impl Disabled {
    pub fn new() -> (s: Self)
        ensures
            s == Disabled,
    {
        Disabled
    }
}

impl Default for Disabled {
    fn default() -> (d: Self)
        ensures
            d == Disabled,
    {
        Disabled::new()
    }
}

impl Privileged for Disabled {
    fn is_available(&self) -> (b: bool)
        ensures
            !b,
    {
        false
    }

    fn ensure_authorized(&mut self) -> (r: AppResult<()>)
        ensures
            r == Err::<(), AppError>(AppError::PrivilegedUnavailable),
    {
        Err(AppError::PrivilegedUnavailable)
    }

    fn read_dir_entries(&self, path: &str) -> (r: AppResult<Vec<String>>)
        ensures
            r matches Err(AppError::PrivilegedUnavailable),
    {
        Err(AppError::PrivilegedUnavailable)
    }

    fn unlink(&self, path: &str) -> (r: AppResult<()>)
        ensures
            r == Err::<(), AppError>(AppError::PrivilegedUnavailable),
    {
        Err(AppError::PrivilegedUnavailable)
    }

    fn move_to_quarantine(&self, src: &str, dst: &str) -> (r: AppResult<()>)
        ensures
            r == Err::<(), AppError>(AppError::PrivilegedUnavailable),
    {
        Err(AppError::PrivilegedUnavailable)
    }
}

} // verus!
