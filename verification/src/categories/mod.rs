//! Categories: read-only views over the index that surface specific
//! cleanup opportunities. Each category knows its identity, its risk, and
//! the queries that measure and list it; running them is done outside.

pub mod screenshots;
pub mod trash;

use vstd::prelude::*;
use vstd::string::StringExecFns;
use crate::error::AppError;
use crate::text::same_text;

verus! {

/// User-facing risk classification, shown as a badge.
#[derive(Debug, Clone, Copy, PartialEq, Eq, Structural)]
pub enum Risk {
    /// Rebuilds automatically; the user won't notice.
    Safe,
    /// Rebuilds but takes time or network.
    NeedsRedownload,
    /// The user must review before deleting.
    UserDecides,
}

#[derive(Debug, Clone)]
pub struct CategorySummary {
    pub id: &'static str,
    pub name: &'static str,
    pub description: &'static str,
    pub risk: Risk,
    pub total_size: i64,
    pub item_count: i64,
}

#[derive(Debug, Clone)]
pub struct CategoryItem {
    pub path: String,
    pub size: i64,
    pub mtime: Option<i64>,
    pub is_dir: bool,
    /// Optional grouping label.
    pub group: Option<String>,
}

pub trait Category {
    fn id(&self) -> &'static str;

    fn name(&self) -> &'static str;

    fn description(&self) -> &'static str;

    fn risk(&self) -> Risk;

    /// The query measuring the category (total size, item count) over
    /// `folders` folders; parameters: the scan id, then the folders.
    fn summary_sql(&self, folders: usize) -> String;

    /// The query listing the category's items over `folders` folders, in
    /// its order; parameters: the scan id, the folders, then the limit.
    fn items_sql(&self, folders: usize) -> String;
}

/// The registered categories.
#[derive(Debug, Clone, Copy, PartialEq, Eq, Structural)]
pub enum CategoryKind {
    Trash,
    Screenshots,
}

pub open spec fn kind_id(k: CategoryKind) -> Seq<char> {
    match k {
        CategoryKind::Trash => "trash"@,
        CategoryKind::Screenshots => "screenshots"@,
    }
}

pub open spec fn kind_name(k: CategoryKind) -> Seq<char> {
    match k {
        CategoryKind::Trash => "Trash"@,
        CategoryKind::Screenshots => "Screenshots"@,
    }
}

pub open spec fn kind_description(k: CategoryKind) -> Seq<char> {
    match k {
        CategoryKind::Trash => "Files you've already moved to the Trash. Emptying frees their space immediately."@,
        CategoryKind::Screenshots => "Screen captures from macOS's built-in tool (and CleanShot). Review and bulk-delete."@,
    }
}

impl Category for CategoryKind {
    fn id(&self) -> (s: &'static str)
        ensures
            s@ == kind_id(*self),
    {
        match self {
            CategoryKind::Trash => trash::Trash.id(),
            CategoryKind::Screenshots => screenshots::Screenshots.id(),
        }
    }

    fn name(&self) -> (s: &'static str)
        ensures
            s@ == kind_name(*self),
    {
        match self {
            CategoryKind::Trash => trash::Trash.name(),
            CategoryKind::Screenshots => screenshots::Screenshots.name(),
        }
    }

    fn description(&self) -> (s: &'static str)
        ensures
            s@ == kind_description(*self),
    {
        match self {
            CategoryKind::Trash => trash::Trash.description(),
            CategoryKind::Screenshots => screenshots::Screenshots.description(),
        }
    }

    fn risk(&self) -> (r: Risk)
        ensures
            r == Risk::Safe,
    {
        match self {
            CategoryKind::Trash => trash::Trash.risk(),
            CategoryKind::Screenshots => screenshots::Screenshots.risk(),
        }
    }

    fn summary_sql(&self, folders: usize) -> (sql: String)
        ensures
            sql@ == match *self {
                CategoryKind::Trash => trash::summary_sql_text(folders as nat),
                CategoryKind::Screenshots => screenshots::summary_sql_text(folders as nat),
            },
    {
        match self {
            CategoryKind::Trash => trash::Trash.summary_sql(folders),
            CategoryKind::Screenshots => screenshots::Screenshots.summary_sql(folders),
        }
    }

    fn items_sql(&self, folders: usize) -> (sql: String)
        ensures
            sql@ == match *self {
                CategoryKind::Trash => trash::items_sql_text(folders as nat),
                CategoryKind::Screenshots => screenshots::items_sql_text(folders as nat),
            },
    {
        match self {
            CategoryKind::Trash => trash::Trash.items_sql(folders),
            CategoryKind::Screenshots => screenshots::Screenshots.items_sql(folders),
        }
    }
}

/// How a category's totals are obtained: a category without folders holds
/// nothing (size 0, no items); otherwise the query gives them.
pub enum SummaryPlan {
    Answer(i64, i64),
    Query(String),
}

impl CategoryKind {
    /// The totals of the category over `folders` folders: answered at once
    /// when there are none, else the measuring query.
    pub fn summary_plan(&self, folders: usize) -> (plan: SummaryPlan)
        ensures
            folders == 0 ==> plan == SummaryPlan::Answer(0, 0),
            folders > 0 ==> (plan matches SummaryPlan::Query(sql) && sql@ == match *self {
                CategoryKind::Trash => trash::summary_sql_text(folders as nat),
                CategoryKind::Screenshots => screenshots::summary_sql_text(folders as nat),
            }),
    {
        if folders == 0 {
            SummaryPlan::Answer(0, 0)
        } else {
            SummaryPlan::Query(self.summary_sql(folders))
        }
    }

    /// The query listing the category's items over `folders` folders, or
    /// none when there are no folders: the category then has no items.
    pub fn items_plan(&self, folders: usize) -> (q: Option<String>)
        ensures
            folders == 0 <==> q is None,
            q matches Some(sql) ==> sql@ == match *self {
                CategoryKind::Trash => trash::items_sql_text(folders as nat),
                CategoryKind::Screenshots => screenshots::items_sql_text(folders as nat),
            },
    {
        if folders == 0 {
            None
        } else {
            Some(self.items_sql(folders))
        }
    }
}

pub open spec fn registered() -> Seq<CategoryKind> {
    seq![CategoryKind::Trash, CategoryKind::Screenshots]
}

/// The active set of categories, in display order.
pub fn registry() -> (r: Vec<CategoryKind>)
    ensures
        r@ == registered(),
{
    let mut r: Vec<CategoryKind> = Vec::new();
    r.push(CategoryKind::Trash);
    r.push(CategoryKind::Screenshots);
    assert(r@ =~= registered());
    r
}

/// Looks up a category by id: the first registered one with that id.
pub fn find(id: &str) -> (found: Option<CategoryKind>)
    ensures
        match found {
            Some(k) => exists|i: int|
                0 <= i < registered().len() && registered()[i] == k && kind_id(k) == id@ && forall|j: int|
                    0 <= j < i ==> kind_id(#[trigger] registered()[j]) != id@,
            None => forall|i: int| 0 <= i < registered().len() ==> kind_id(#[trigger] registered()[i]) != id@,
        },
{
    let cats = registry();
    let mut i: usize = 0;
    while i < cats.len()
        invariant
            cats@ == registered(),
            i <= cats@.len(),
            forall|j: int| 0 <= j < i ==> kind_id(#[trigger] registered()[j]) != id@,
        decreases cats.len() - i,
    {
        if same_text(cats[i].id(), id) {
            return Some(cats[i]);
        }
        i = i + 1;
    }
    None
}

/// The summary shown for category `k` given what measuring it gave: a
/// failed measurement shows as size 0 and count 0.
pub open spec fn summary_of(k: CategoryKind, measured: Result<(i64, i64), AppError>, s: CategorySummary) -> bool {
    let (size, count) = match measured {
        Ok(v) => v,
        Err(_) => (0i64, 0i64),
    };
    &&& s.id@ == kind_id(k)
    &&& s.name@ == kind_name(k)
    &&& s.description@ == kind_description(k)
    &&& s.risk == Risk::Safe
    &&& s.total_size == size
    &&& s.item_count == count
}

/// Summaries of all registered categories, given the measurement of each
/// (in registry order). Failed ones are kept with zero size and count so
/// they still show.
pub fn all_summaries(measured: Vec<Result<(i64, i64), AppError>>) -> (out: Vec<CategorySummary>)
    requires
        measured@.len() == registered().len(),
    ensures
        out@.len() == registered().len(),
        forall|i: int| 0 <= i < out@.len() ==> summary_of(registered()[i], measured@[i], #[trigger] out@[i]),
{
    let cats = registry();
    let mut out: Vec<CategorySummary> = Vec::new();
    let mut i: usize = 0;
    while i < cats.len()
        invariant
            cats@ == registered(),
            measured@.len() == registered().len(),
            i <= cats@.len(),
            out@.len() == i,
            forall|j: int| 0 <= j < i ==> summary_of(registered()[j], measured@[j], #[trigger] out@[j]),
        decreases cats.len() - i,
    {
        let c = cats[i];
        let (size, count) = match &measured[i] {
            Ok(v) => *v,
            Err(_) => (0i64, 0i64),
        };
        out.push(CategorySummary {
            id: c.id(),
            name: c.name(),
            description: c.description(),
            risk: c.risk(),
            total_size: size,
            item_count: count,
        });
        i = i + 1;
    }
    out
}

/// `n` comma-separated `?` placeholders.
pub open spec fn placeholder_list(n: nat) -> Seq<char>
    decreases n,
{
    if n == 0 {
        Seq::empty()
    } else if n == 1 {
        "?"@
    } else {
        placeholder_list((n - 1) as nat) + ",?"@
    }
}

pub fn placeholders(n: usize) -> (s: String)
    ensures
        s@ == placeholder_list(n as nat),
{
    let mut s = String::new();
    let mut i: usize = 0;
    while i < n
        invariant
            i <= n,
            s@ == placeholder_list(i as nat),
        decreases n - i,
    {
        if i == 0 {
            s = String::from_str("?");
        } else {
            s.append(",?");
        }
        i = i + 1;
    }
    s
}

/// The item listed for one result row; a nonzero `is_dir` column means a directory.
pub fn item_from_row(path: String, size: i64, mtime: Option<i64>, is_dir: i64, group: Option<String>) -> (item: CategoryItem)
    ensures
        item.path == path,
        item.size == size,
        item.mtime == mtime,
        item.is_dir == (is_dir != 0),
        item.group == group,
{
    CategoryItem { path, size, mtime, is_dir: is_dir != 0, group }
}

} // verus!
