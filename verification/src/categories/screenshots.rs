//! Screenshots: files named like macOS (or CleanShot) screen captures in the
//! configured screenshot location, `~/Desktop` by default.

use vstd::prelude::*;
use vstd::string::StringExecFns;
use crate::paths::{joined, path_join};
use crate::text::{has_prefix, same_text, starts_with, strip_leading, strip_trailing, trimmed, unicode_whitespace};
use super::{placeholder_list, placeholders, Category, Risk};

verus! {

pub struct Screenshots;

impl Category for Screenshots {
    fn id(&self) -> (s: &'static str)
        ensures
            s@ == "screenshots"@,
    {
        "screenshots"
    }

    fn name(&self) -> (s: &'static str)
        ensures
            s@ == "Screenshots"@,
    {
        "Screenshots"
    }

    fn description(&self) -> (s: &'static str)
        ensures
            s@ == "Screen captures from macOS's built-in tool (and CleanShot). Review and bulk-delete."@,
    {
        "Screen captures from macOS's built-in tool (and CleanShot). Review and bulk-delete."
    }

    fn risk(&self) -> (r: Risk)
        ensures
            r == Risk::Safe,
    {
        Risk::Safe
    }

    fn summary_sql(&self, n: usize) -> (sql: String)
        ensures
            sql@ == summary_sql_text(n as nat),
    {
        String::from_str(
            "SELECT COALESCE(SUM(size), 0), COUNT(*)\n             FROM files\n             WHERE scan_id = ?\n               AND is_dir = 0\n               AND is_clone = 0\n               AND parent_path IN (",
        ).concat(placeholders(n).as_str()).concat(")\n               AND ").concat(
            "(name LIKE 'Screen Shot %' OR name LIKE 'Screenshot %' OR name LIKE 'CleanShot %')",
        )
    }

    fn items_sql(&self, n: usize) -> (sql: String)
        ensures
            sql@ == items_sql_text(n as nat),
    {
        String::from_str(
            "SELECT full_path, size, mtime, is_dir, parent_path\n             FROM files\n             WHERE scan_id = ?\n               AND is_dir = 0\n               AND is_clone = 0\n               AND parent_path IN (",
        ).concat(placeholders(n).as_str()).concat(")\n               AND ").concat(
            "(name LIKE 'Screen Shot %' OR name LIKE 'Screenshot %' OR name LIKE 'CleanShot %')",
        ).concat("\n             ORDER BY mtime DESC\n             LIMIT ?")
    }
}

/// `~/rest` with the home directory substituted when it is known.
pub open spec fn tilde_expanded(path: Seq<char>, home: Option<Seq<char>>) -> Seq<char> {
    if has_prefix(path, "~/"@) && home is Some {
        joined(home->0, path.subrange(2, path.len() as int))
    } else {
        path
    }
}

/// Expands a leading `~/` against the home directory.
pub fn expand_tilde(path: &str, home: Option<&str>) -> (e: String)
    ensures
        e@ == tilde_expanded(path@, match home { Some(h) => Some(h@), None => None }),
{
    proof {
        reveal_strlit("~/");
    }
    if starts_with(path, "~/") {
        match home {
            Some(h) => {
                let rest = path.substring_char(2, path.unicode_len());
                return path_join(h, rest);
            },
            None => {},
        }
    }
    String::from_str(path)
}

pub open spec fn trim_spec(s: Seq<char>) -> Seq<char> {
    strip_trailing(strip_leading(s, |c: char| unicode_whitespace(c)), |c: char| unicode_whitespace(c))
}

/// Where screenshots are looked for: `<home>/Desktop` when the home
/// directory is known, then the configured screenshot folder (`configured`
/// is the output of reading the screenshot preference, when that succeeded)
/// once trimmed and tilde-expanded, unless empty or already listed.
pub open spec fn locations_spec(home: Option<Seq<char>>, configured: Option<Seq<char>>) -> Seq<Seq<char>> {
    let base: Seq<Seq<char>> = match home {
        Some(h) => seq![joined(h, "Desktop"@)],
        None => Seq::empty(),
    };
    match configured {
        Some(out) => {
            let t = trim_spec(out);
            if t.len() == 0 {
                base
            } else {
                let e = tilde_expanded(t, home);
                if base.contains(e) { base } else { base.push(e) }
            }
        },
        None => base,
    }
}

pub fn locations(home: Option<&str>, configured: Option<&str>) -> (locs: Vec<String>)
    ensures
        locs@.map_values(|s: String| s@) == locations_spec(
            match home { Some(h) => Some(h@), None => None },
            match configured { Some(c) => Some(c@), None => None },
        ),
{
    let ghost hv = match home { Some(h) => Some(h@), None => None::<Seq<char>> };
    let mut locs: Vec<String> = Vec::new();
    match home {
        Some(h) => {
            locs.push(path_join(h, "Desktop"));
        },
        None => {},
    }
    let ghost base = locs@.map_values(|s: String| s@);
    assert(base =~= match hv { Some(h) => seq![joined(h, "Desktop"@)], None => Seq::<Seq<char>>::empty() });
    match configured {
        Some(out) => {
            let t = trimmed(out);
            if t.unicode_len() > 0 {
                let e = expand_tilde(t.as_str(), home);
                let mut present = false;
                if locs.len() > 0 && same_text(locs[0].as_str(), e.as_str()) {
                    present = true;
                }
                assert(present == base.contains(e@)) by {
                    if base.contains(e@) {
                        let k = choose|k: int| 0 <= k < base.len() && base[k] == e@;
                        assert(k == 0);
                    }
                    if present {
                        assert(base[0] == e@);
                    }
                }
                if !present {
                    locs.push(e);
                    assert(locs@.map_values(|s: String| s@) =~= base.push(e@));
                }
            }
        },
        None => {},
    }
    locs
}

/// Matches the screenshot file names: "Screen Shot …" (legacy),
/// "Screenshot …" (current) and "CleanShot …".
pub open spec fn name_filter() -> Seq<char> {
    "(name LIKE 'Screen Shot %' OR name LIKE 'Screenshot %' OR name LIKE 'CleanShot %')"@
}

/// Total size and count of non-clone screenshot files in `n` locations.
/// Parameters: the scan id, then the locations.
pub open spec fn summary_sql_text(n: nat) -> Seq<char> {
    "SELECT COALESCE(SUM(size), 0), COUNT(*)\n             FROM files\n             WHERE scan_id = ?\n               AND is_dir = 0\n               AND is_clone = 0\n               AND parent_path IN ("@
        + placeholder_list(n) + ")\n               AND "@ + name_filter()
}


/// Screenshot files in `n` locations, newest first, at most `?` of them.
/// Parameters: the scan id, the locations, the limit.
pub open spec fn items_sql_text(n: nat) -> Seq<char> {
    "SELECT full_path, size, mtime, is_dir, parent_path\n             FROM files\n             WHERE scan_id = ?\n               AND is_dir = 0\n               AND is_clone = 0\n               AND parent_path IN ("@
        + placeholder_list(n) + ")\n               AND "@ + name_filter()
        + "\n             ORDER BY mtime DESC\n             LIMIT ?"@
}


/// Both screenshot queries keep exactly the files named like "Screen Shot
/// …" (legacy macOS), "Screenshot …" (current macOS) or "CleanShot …": the
/// summary ends with that name filter, and the listing applies the same
/// filter before its ordering.
pub proof fn lemma_screenshot_queries_filter_names(n: nat)
    ensures
        ({
            let f = "(name LIKE 'Screen Shot %' OR name LIKE 'Screenshot %' OR name LIKE 'CleanShot %')"@;
            let tail = "\n             ORDER BY mtime DESC\n             LIMIT ?"@;
            let s = summary_sql_text(n);
            let t = items_sql_text(n);
            &&& s.subrange(s.len() - f.len(), s.len() as int) == f
            &&& t.subrange(t.len() - tail.len() - f.len(), t.len() - tail.len()) == f
            &&& t.subrange(t.len() - tail.len(), t.len() as int) == tail
        }),
{
    let f = "(name LIKE 'Screen Shot %' OR name LIKE 'Screenshot %' OR name LIKE 'CleanShot %')"@;
    let tail = "\n             ORDER BY mtime DESC\n             LIMIT ?"@;
    let s = summary_sql_text(n);
    let t = items_sql_text(n);
    assert(name_filter() == f);
    assert(s.subrange(s.len() - f.len(), s.len() as int) =~= f);
    assert(t.subrange(t.len() - tail.len() - f.len(), t.len() - tail.len()) =~= f);
    assert(t.subrange(t.len() - tail.len(), t.len() as int) =~= tail);
}

} // verus!
