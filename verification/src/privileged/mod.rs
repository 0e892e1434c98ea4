//! Operations that need root. Both builds provide the same surface; the
//! helper-backed one is not wired up yet and the sandboxed one refuses.

pub mod disabled;
pub mod helper_client;

use vstd::prelude::*;
use crate::error::AppResult;

verus! {

pub trait Privileged {
    fn is_available(&self) -> bool;

    fn ensure_authorized(&mut self) -> AppResult<()>;

    fn read_dir_entries(&self, path: &str) -> AppResult<Vec<String>>;

    fn unlink(&self, path: &str) -> AppResult<()>;

    fn move_to_quarantine(&self, src: &str, dst: &str) -> AppResult<()>;
}

} // verus!
