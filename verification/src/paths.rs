//! Filesystem paths are carried as strings; the component-wise operations on
//! them are those of `std::path`, named here.

use vstd::prelude::*;
use crate::text::same_text;

verus! {

/// The pieces of `s` between '/' characters, in order, empty ones included
/// ("/a//b" has the pieces "", "a", "" and "b").
pub open spec fn slash_pieces(s: Seq<char>) -> Seq<Seq<char>>
    decreases s.len(),
{
    if s.len() == 0 {
        seq![Seq::<char>::empty()]
    } else if s.last() == '/' {
        slash_pieces(s.drop_last()).push(Seq::<char>::empty())
    } else {
        let p = slash_pieces(s.drop_last());
        p.update(p.len() - 1, p.last().push(s.last()))
    }
}

/// The components of a Unix path as `Path::components` documents them, each
/// as text: "/" for the root of an absolute path, "." only when a relative
/// path begins with it, then every piece that is neither empty (repeated and
/// trailing separators are ignored) nor "." (normalized away elsewhere).
pub open spec fn path_components(s: Seq<char>) -> Seq<Seq<char>> {
    let pieces = slash_pieces(s);
    let head = if is_absolute(s) {
        seq!["/"@]
    } else if pieces.len() > 0 && pieces[0] == "."@ {
        seq!["."@]
    } else {
        Seq::<Seq<char>>::empty()
    };
    head + pieces.filter(|p: Seq<char>| p.len() > 0 && p != "."@)
}

/// One step of lexical `..` resolution over components already resolved:
/// "." changes nothing; ".." removes the last name, stays at the root, and
/// is kept when a relative path has no name left to remove; any other
/// component is appended.
pub open spec fn resolve_step(r: Seq<Seq<char>>, c: Seq<char>) -> Seq<Seq<char>> {
    if c == "."@ {
        r
    } else if c == ".."@ {
        if r.len() > 0 && r.last() == "/"@ {
            r
        } else if r.len() > 0 && r.last() != ".."@ {
            r.drop_last()
        } else {
            r.push(c)
        }
    } else {
        r.push(c)
    }
}

/// Components with every ".." resolved against the names before it, as
/// text alone can resolve them (symbolic links are not followed).
pub open spec fn resolve(cs: Seq<Seq<char>>) -> Seq<Seq<char>>
    decreases cs.len(),
{
    if cs.len() == 0 {
        Seq::empty()
    } else {
        resolve_step(resolve(cs.drop_last()), cs.last())
    }
}

/// The components `path` names once its ".." are resolved.
pub open spec fn lexical_components(path: Seq<char>) -> Seq<Seq<char>> {
    resolve(path_components(path))
}

/// Whether `path`, with its ".." resolved, lies at or below `base` (also
/// resolved), by whole components.
pub open spec fn lexically_within(path: Seq<char>, base: Seq<char>) -> bool {
    lexical_components(base).is_prefix_of(lexical_components(path))
}

/// The texts of a list of strings.
pub open spec fn texts(v: Seq<String>) -> Seq<Seq<char>> {
    v.map_values(|s: String| s@)
}

/// `Path::components`, each component rendered as text (the root as "/",
/// the current directory as ".", the parent as "..").
#[verifier::external_body]
pub(crate) fn path_components_of(path: &str) -> (cs: Vec<String>)
    ensures
        texts(cs@) == path_components(path@),
{
    std::path::Path::new(path).components().map(|c| c.as_os_str().to_string_lossy().into_owned()).collect()
}

/// Resolves the ".." among `cs` (see `resolve`).
fn resolve_components(cs: Vec<String>) -> (r: Vec<String>)
    ensures
        texts(r@) == resolve(texts(cs@)),
{
    let mut r: Vec<String> = Vec::new();
    let mut i: usize = 0;
    while i < cs.len()
        invariant
            i <= cs@.len(),
            texts(r@) == resolve(texts(cs@).take(i as int)),
        decreases cs.len() - i,
    {
        let ghost before = texts(r@);
        let c = cs[i].clone();
        assert(texts(cs@).take(i + 1).drop_last() =~= texts(cs@).take(i as int));
        assert(texts(cs@).take(i + 1).last() == cs@[i as int]@);
        if same_text(c.as_str(), ".") {
        } else if same_text(c.as_str(), "..") {
            let n = r.len();
            if n > 0 && same_text(r[n - 1].as_str(), "/") {
            } else if n > 0 && !same_text(r[n - 1].as_str(), "..") {
                r.pop();
                assert(texts(r@) =~= before.drop_last());
            } else {
                r.push(c);
                assert(texts(r@) =~= before.push(cs@[i as int]@));
            }
        } else {
            r.push(c);
            assert(texts(r@) =~= before.push(cs@[i as int]@));
        }
        i = i + 1;
    }
    assert(texts(cs@).take(cs@.len() as int) =~= texts(cs@));
    r
}

/// Whether `path` lies at or below `base` once the ".." in both are
/// resolved: the resolved components of `base` begin those of `path`.
pub fn lexically_under(path: &str, base: &str) -> (b: bool)
    ensures
        b == lexically_within(path@, base@),
{
    let p = resolve_components(path_components_of(path));
    let q = resolve_components(path_components_of(base));
    if q.len() > p.len() {
        return false;
    }
    let mut i: usize = 0;
    while i < q.len()
        invariant
            q@.len() <= p@.len(),
            i <= q@.len(),
            texts(p@) == lexical_components(path@),
            texts(q@) == lexical_components(base@),
            forall|j: int| 0 <= j < i ==> q@[j]@ == p@[j]@,
        decreases q.len() - i,
    {
        if !same_text(q[i].as_str(), p[i].as_str()) {
            assert(texts(q@)[i as int] != texts(p@)[i as int]);
            return false;
        }
        i = i + 1;
    }
    assert(texts(q@) =~= texts(p@).subrange(0, q@.len() as int));
    true
}

/// `Path::join` of `rest` onto `base` on Unix, as text: an absolute `rest`
/// replaces the base; otherwise `rest` follows the base, after a separator
/// unless the base is empty or already ends with one.
pub open spec fn joined(base: Seq<char>, rest: Seq<char>) -> Seq<char> {
    if is_absolute(rest) {
        rest
    } else if base.len() == 0 || base.last() == '/' {
        base + rest
    } else {
        base + "/"@ + rest
    }
}

/// The final component of `path` (`Path::file_name`): the last component
/// when it is a name; none when the path is empty or ends in the root, "."
/// or "..".
pub open spec fn final_component(path: Seq<char>) -> Option<Seq<char>> {
    let cs = path_components(path);
    if cs.len() > 0 && cs.last() != "/"@ && cs.last() != "."@ && cs.last() != ".."@ {
        Some(cs.last())
    } else {
        None
    }
}

/// The index of the last '.' in `s`, or -1 when there is none.
pub open spec fn last_dot(s: Seq<char>) -> int
    decreases s.len(),
{
    if s.len() == 0 {
        -1
    } else if s.last() == '.' {
        s.len() - 1
    } else {
        last_dot(s.drop_last())
    }
}

/// The extension of `path` (`Path::extension`): none without a file name,
/// none when the file name has no '.' other than a leading one, otherwise
/// what follows the file name's last '.'.
pub open spec fn extension_of(path: Seq<char>) -> Option<Seq<char>> {
    match final_component(path) {
        None => None,
        Some(name) => if last_dot(name) <= 0 {
            None
        } else {
            Some(name.subrange(last_dot(name) + 1, name.len() as int))
        },
    }
}

/// The path without its final component (`Path::parent`), if any.
pub uninterp spec fn parent_of(path: Seq<char>) -> Option<Seq<char>>;

/// Whether `s` is an absolute path on Unix (begins with '/').
pub open spec fn is_absolute(s: Seq<char>) -> bool {
    s.len() > 0 && s[0] == '/'
}

/// Whether `dir` can have a relative path joined to it with one separator:
/// it is not empty and does not already end with '/'.
pub open spec fn plain_dir(dir: Seq<char>) -> bool {
    dir.len() > 0 && dir.last() != '/'
}

/// `Path::join` (as `PathBuf::push` does it on Unix), rendered as text.
#[verifier::external_body]
pub(crate) fn path_join(base: &str, rest: &str) -> (p: String)
    ensures
        p@ == joined(base@, rest@),
{
    std::path::Path::new(base).join(rest).display().to_string()
}

/// `Path::file_name`, as text.
#[verifier::external_body]
pub(crate) fn path_file_name(path: &str) -> (n: Option<String>)
    ensures
        match n {
            Some(s) => final_component(path@) == Some(s@),
            None => final_component(path@) is None,
        },
{
    match std::path::Path::new(path).file_name() {
        Some(s) => Some(s.to_string_lossy().into_owned()),
        None => None,
    }
}

/// `Path::extension`, as text.
#[verifier::external_body]
pub(crate) fn path_extension(path: &str) -> (e: Option<String>)
    ensures
        match e {
            Some(s) => extension_of(path@) == Some(s@),
            None => extension_of(path@) is None,
        },
{
    match std::path::Path::new(path).extension() {
        Some(s) => Some(s.to_string_lossy().into_owned()),
        None => None,
    }
}

/// `Path::parent`, as text.
#[verifier::external_body]
pub(crate) fn path_parent(path: &str) -> (p: Option<String>)
    ensures
        match p {
            Some(s) => parent_of(path@) == Some(s@),
            None => parent_of(path@) is None,
        },
{
    match std::path::Path::new(path).parent() {
        Some(s) => Some(s.display().to_string()),
        None => None,
    }
}

} // verus!
