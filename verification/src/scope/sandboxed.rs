use vstd::prelude::*;
use vstd::string::StringExecFns;
use crate::paths::{lexically_under, lexically_within};
use super::ScanScope;

verus! {

/// Scope inside the App Sandbox: the user's home directory (as `HOME` names
/// it at each call) plus folders the user granted explicitly.
pub struct SandboxedScope {
    user_selected_roots: Vec<String>,
}

impl SandboxedScope {
    pub closed spec fn selected(&self) -> Seq<String> {
        self.user_selected_roots@
    }

    /// A scope with no user-selected folders.
    pub fn new() -> (s: Self)
        ensures
            s.selected() == Seq::<String>::empty(),
    {
        SandboxedScope { user_selected_roots: Vec::new() }
    }

    /// Grants one more folder.
    pub fn add_user_selected(&mut self, path: String)
        ensures
            final(self).selected() == old(self).selected().push(path),
    {
        self.user_selected_roots.push(path);
    }

    /// Whether the scope reaches `path`: with the ".." resolved, it lies (by
    /// whole components) under the home directory or under one of the
    /// granted folders.
    pub open spec fn reaches(&self, path: Seq<char>, home: Option<&str>) -> bool {
        ||| (home matches Some(h) && lexically_within(path, h@))
        ||| exists|i: int| 0 <= i < self.selected().len() && lexically_within(path, #[trigger] self.selected()[i]@)
    }
}

impl Default for SandboxedScope {
    fn default() -> (s: Self)
        ensures
            s.selected() == Seq::<String>::empty(),
    {
        SandboxedScope::new()
    }
}

impl ScanScope for SandboxedScope {
    fn allows(&self, path: &str, home: Option<&str>) -> (b: bool)
        ensures
            b == self.reaches(path@, home),
    {
        match home {
            Some(h) => {
                if lexically_under(path, h) {
                    return true;
                }
            },
            None => {},
        }
        let mut i: usize = 0;
        while i < self.user_selected_roots.len()
            invariant
                i <= self.user_selected_roots@.len(),
                !(home matches Some(h) && lexically_within(path@, h@)),
                forall|j: int| 0 <= j < i ==> !lexically_within(path@, #[trigger] self.selected()[j]@),
            decreases self.user_selected_roots.len() - i,
        {
            if lexically_under(path, self.user_selected_roots[i].as_str()) {
                assert(lexically_within(path@, self.selected()[i as int]@));
                return true;
            }
            i = i + 1;
        }
        false
    }

    /// The granted folders in the order they were added, then the home directory.
    fn allowed_roots(&self, home: Option<&str>) -> (roots: Vec<String>)
        ensures
            roots@.len() == self.selected().len() + if home is Some { 1int } else { 0int },
            forall|i: int| 0 <= i < self.selected().len() ==> #[trigger] roots@[i] == self.selected()[i],
            home matches Some(h) ==> roots@.last()@ == h@,
    {
        let mut roots: Vec<String> = Vec::new();
        let mut i: usize = 0;
        while i < self.user_selected_roots.len()
            invariant
                i <= self.user_selected_roots@.len(),
                roots@ == self.selected().subrange(0, i as int),
            decreases self.user_selected_roots.len() - i,
        {
            roots.push(self.user_selected_roots[i].clone());
            assert(roots@ =~= self.selected().subrange(0, i + 1));
            i = i + 1;
        }
        assert(self.selected().subrange(0, self.selected().len() as int) =~= self.selected());
        match home {
            Some(h) => roots.push(String::from_str(h)),
            None => {},
        }
        roots
    }

    fn human_name(&self) -> (n: &'static str)
        ensures
            n@ == "Sandboxed (App Store build)"@,
    {
        "Sandboxed (App Store build)"
    }
}

} // verus!
