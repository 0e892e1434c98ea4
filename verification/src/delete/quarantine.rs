//! Quarantine rules: where a quarantined path goes, how long it is kept,
//! and how restoring and purging quarantined items is accounted.

use vstd::prelude::*;
use vstd::string::StringExecFns;
use crate::paths::{final_component, is_absolute, joined, path_file_name, path_join, plain_dir};
use crate::text::{
    decimal, i64_text, lemma_dash_separated_injective, lemma_nat_digits_shape, nat_digits, replace_char, replaced,
    u64_text,
};
use super::{DeleteError, DeleteResult, QuarantineRecord};

verus! {

/// Quarantined items are kept this many days before auto-purge.
pub const QUARANTINE_RETENTION_DAYS: i64 = 7;

pub const SECS_PER_DAY: i64 = 86_400;

/// One row of the quarantine table.
#[derive(Debug, Clone)]
pub struct QuarantineEntry {
    pub id: i64,
    pub original_path: String,
    pub quarantine_path: String,
    pub deleted_at: i64,
    pub expires_at: i64,
    pub size: i64,
}

/// The columns of a quarantine row that a restore needs.
#[derive(Debug, Clone)]
pub struct QuarantineRow {
    pub original_path: String,
    pub quarantine_path: String,
    pub size: i64,
}

/// When an item quarantined at `now` expires: the retention period later.
pub fn quarantine_expiry(now: i64) -> (expires_at: i64)
    requires
        now + QUARANTINE_RETENTION_DAYS * SECS_PER_DAY <= i64::MAX,
    ensures
        expires_at == now + 7 * 86_400,
{
    now + QUARANTINE_RETENTION_DAYS * SECS_PER_DAY
}

/// The name a quarantined path gets: `<now>-<item>-<file name>`, where
/// `item` is the number of the path within its delete run, any '/' in the
/// file name is replaced by '_', and `unnamed` stands for a path without a
/// final component.
pub open spec fn quarantine_name(src: Seq<char>, now: i64, item: u64) -> Seq<char> {
    let name = match final_component(src) {
        Some(n) => n,
        None => "unnamed"@,
    };
    decimal(now as int) + "-"@ + decimal(item as int) + "-"@ + replace_char(name, '/', '_')
}

/// Where item `item` of a delete run started at `now`, with path `src`, is
/// moved to inside `quarantine_dir`.
pub open spec fn quarantine_path(quarantine_dir: Seq<char>, src: Seq<char>, now: i64, item: u64) -> Seq<char> {
    joined(quarantine_dir, quarantine_name(src, now, item))
}

/// A decimal rendering never begins with '/'.
proof fn lemma_decimal_relative(n: int)
    ensures
        !is_absolute(decimal(n)),
{
    if n >= 0 {
        lemma_nat_digits_shape(n as nat);
    }
}

/// Where `src` is moved to inside `quarantine_dir` as item `item` of a run
/// started at `now`. The name is relative, so a plain folder gets it after
/// one separator.
pub fn quarantine_dest(quarantine_dir: &str, src: &str, now: i64, item: u64) -> (dest: String)
    ensures
        dest@ == quarantine_path(quarantine_dir@, src@, now, item),
        plain_dir(quarantine_dir@) ==> dest@ == quarantine_dir@ + "/"@ + quarantine_name(src@, now, item),
{
    let name = match path_file_name(src) {
        Some(n) => n,
        None => String::from_str("unnamed"),
    };
    let safe = replaced(name.as_str(), '/', '_');
    let stamped = i64_text(now).concat("-").concat(u64_text(item).as_str()).concat("-").concat(safe.as_str());
    proof {
        reveal_strlit("unnamed");
        lemma_decimal_relative(now as int);
        assert(stamped@ == quarantine_name(src@, now, item));
        assert(stamped@[0] == decimal(now as int)[0]);
    }
    path_join(quarantine_dir, stamped.as_str())
}

/// A quarantine name is relative: it begins with the run's time stamp.
proof fn lemma_name_relative(src: Seq<char>, now: i64, item: u64)
    ensures
        !is_absolute(quarantine_name(src, now, item)),
{
    reveal_strlit("-");
    lemma_decimal_relative(now as int);
    if now >= 0 {
        lemma_nat_digits_shape(now as nat);
    }
    let n = quarantine_name(src, now, item);
    assert(decimal(now as int).len() > 0);
    assert(n[0] == decimal(now as int)[0]);
}

/// Within one run, two different item numbers never share a quarantine
/// location, whatever the folder and the two source paths.
pub proof fn lemma_quarantine_dest_distinct(
    quarantine_dir: Seq<char>,
    src1: Seq<char>,
    src2: Seq<char>,
    now: i64,
    item1: u64,
    item2: u64,
)
    requires
        item1 != item2,
    ensures
        quarantine_path(quarantine_dir, src1, now, item1) != quarantine_path(quarantine_dir, src2, now, item2),
{
    let n1 = quarantine_name(src1, now, item1);
    let n2 = quarantine_name(src2, now, item2);
    lemma_name_relative(src1, now, item1);
    lemma_name_relative(src2, now, item2);
    let p = if quarantine_dir.len() == 0 || quarantine_dir.last() == '/' {
        quarantine_dir
    } else {
        quarantine_dir + "/"@
    };
    assert(quarantine_path(quarantine_dir, src1, now, item1) =~= p + n1);
    assert(quarantine_path(quarantine_dir, src2, now, item2) =~= p + n2);
    if p + n1 == p + n2 {
        assert(n1 =~= (p + n1).subrange(p.len() as int, (p + n1).len() as int));
        assert(n2 =~= (p + n2).subrange(p.len() as int, (p + n2).len() as int));
        let stamp = decimal(now as int) + "-"@;
        let t1 = replace_char(match final_component(src1) { Some(n) => n, None => "unnamed"@ }, '/', '_');
        let t2 = replace_char(match final_component(src2) { Some(n) => n, None => "unnamed"@ }, '/', '_');
        let rest1 = decimal(item1 as int) + "-"@ + t1;
        let rest2 = decimal(item2 as int) + "-"@ + t2;
        assert(n1 =~= stamp + rest1);
        assert(n2 =~= stamp + rest2);
        assert(rest1 =~= n1.subrange(stamp.len() as int, n1.len() as int));
        assert(rest2 =~= n2.subrange(stamp.len() as int, n2.len() as int));
        assert(rest1 =~= nat_digits(item1 as nat) + "-"@ + t1);
        assert(rest2 =~= nat_digits(item2 as nat) + "-"@ + t2);
        lemma_dash_separated_injective(item1 as nat, item2 as nat, t1, t2);
    }
}

/// What a prune removes besides `path` itself: everything whose path begins
/// with `path` followed by '/'.
pub fn prune_prefix(path: &str) -> (prefix: String)
    ensures
        prefix@ == path@ + "/"@,
{
    String::from_str(path).concat("/")
}

/// Age in whole days, truncating toward zero as integer division does.
pub open spec fn age_days(now: i64, deleted_at: i64) -> int {
    let d = now - deleted_at;
    if d >= 0 { d / 86_400 } else { -((-d) / 86_400) }
}

/// Whether a purge with the given age threshold removes an item quarantined
/// at `deleted_at`: without a threshold every item goes; with one, items
/// younger than it (in whole days) stay.
pub open spec fn purge_due_spec(now: i64, deleted_at: i64, older_than_days: Option<i64>) -> bool {
    match older_than_days {
        None => true,
        Some(days) => !(age_days(now, deleted_at) < days),
    }
}

pub fn purge_due(now: i64, deleted_at: i64, older_than_days: Option<i64>) -> (due: bool)
    requires
        i64::MIN <= now - deleted_at <= i64::MAX,
    ensures
        due == purge_due_spec(now, deleted_at, older_than_days),
        older_than_days is None ==> due,
        older_than_days matches Some(days) ==> (now >= deleted_at ==> (due <==> (now - deleted_at) / 86_400 >= days)),
        older_than_days matches Some(days) ==> (now < deleted_at ==> (due <==> -((deleted_at - now) / 86_400) >= days)),
{
    match older_than_days {
        None => true,
        Some(days) => {
            let d: i64 = now - deleted_at;
            let age: i64 = if d >= 0 {
                d / SECS_PER_DAY
            } else {
                // -d == x + 1 with x in 0..=i64::MAX
                let x: i64 = -(d + 1);
                let q: i64 = x / SECS_PER_DAY + if x % SECS_PER_DAY == SECS_PER_DAY - 1 { 1 } else { 0 };
                assert(q == (x + 1) / 86_400);
                -q
            };
            !(age < days)
        },
    }
}

/// A purge without threshold removes every item; with a threshold of `d`
/// days (any `d`) it removes an item exactly when the item is at least `d`
/// whole days old, the elapsed time truncated toward zero: an item younger
/// than `d` days is never purged.
pub proof fn lemma_purge_threshold(now: i64, deleted_at: i64, d: i64)
    ensures
        purge_due_spec(now, deleted_at, None),
        now >= deleted_at ==> (purge_due_spec(now, deleted_at, Some(d)) <==> (now - deleted_at) / 86_400 >= d),
        now < deleted_at ==> (purge_due_spec(now, deleted_at, Some(d)) <==> -((deleted_at - now) / 86_400) >= d),
        now >= deleted_at && now - deleted_at < d * 86_400 ==> !purge_due_spec(now, deleted_at, Some(d)),
{
    if now >= deleted_at && now - deleted_at < d * 86_400 {
        let e = now - deleted_at;
        assert(e / 86_400 < d) by (nonlinear_arith)
            requires
                0 <= e,
                e < d * 86_400,
        ;
    }
}

/// The quarantine times of the entries a purge at `now` with the given
/// threshold leaves in place (every due entry removed).
pub open spec fn kept_after_purge(deleted_ats: Seq<i64>, now: i64, older_than_days: Option<i64>) -> Seq<i64> {
    deleted_ats.filter(|d: i64| !purge_due_spec(now, d, older_than_days))
}

/// Purging twice changes nothing the second time: once a purge removed
/// every due entry, a purge with the same time and threshold finds none
/// due; a purge without threshold leaves nothing at all.
pub proof fn lemma_purge_idempotent(deleted_ats: Seq<i64>, now: i64, older_than_days: Option<i64>)
    ensures
        forall|i: int| 0 <= i < kept_after_purge(deleted_ats, now, older_than_days).len()
            ==> !purge_due_spec(now, #[trigger] kept_after_purge(deleted_ats, now, older_than_days)[i], older_than_days),
        kept_after_purge(kept_after_purge(deleted_ats, now, older_than_days), now, older_than_days)
            == kept_after_purge(deleted_ats, now, older_than_days),
        older_than_days is None ==> kept_after_purge(deleted_ats, now, older_than_days).len() == 0,
    decreases deleted_ats.len(),
{
    let f = |d: i64| !purge_due_spec(now, d, older_than_days);
    let kept = deleted_ats.filter(f);
    assert forall|i: int| 0 <= i < kept.len() implies !purge_due_spec(now, #[trigger] kept[i], older_than_days) by {
        deleted_ats.lemma_filter_pred(f, i);
    }
    if deleted_ats.len() > 0 {
        lemma_purge_idempotent(deleted_ats.drop_last(), now, older_than_days);
        deleted_ats.drop_last().lemma_filter_push(deleted_ats.last(), f);
        assert(deleted_ats.drop_last().push(deleted_ats.last()) =~= deleted_ats);
    }
    assert(kept.filter(f) =~= kept) by {
        lemma_filter_keeps_all(kept, f);
    }
}

proof fn lemma_filter_keeps_all(s: Seq<i64>, f: spec_fn(i64) -> bool)
    requires
        forall|i: int| 0 <= i < s.len() ==> f(#[trigger] s[i]),
    ensures
        s.filter(f) == s,
    decreases s.len(),
{
    if s.len() > 0 {
        assert forall|i: int| 0 <= i < s.drop_last().len() implies f(#[trigger] s.drop_last()[i]) by {
            assert(s.drop_last()[i] == s[i]);
        }
        lemma_filter_keeps_all(s.drop_last(), f);
        assert(f(s[s.len() - 1]));
        s.drop_last().lemma_filter_push(s.last(), f);
        assert(s.drop_last().push(s.last()) =~= s);
    }
}

/// Retention and purge agree: an item quarantined at `deleted_at` is due for
/// a purge with the retention period as threshold exactly from its expiry
/// time on.
pub proof fn lemma_purge_at_expiry(now: i64, deleted_at: i64)
    requires
        deleted_at + QUARANTINE_RETENTION_DAYS * SECS_PER_DAY <= i64::MAX,
        i64::MIN <= now - deleted_at <= i64::MAX,
    ensures
        !(age_days(now, deleted_at) < QUARANTINE_RETENTION_DAYS) <==> now >= deleted_at + 7 * 86_400,
{
    let d = now - deleted_at;
    if d >= 0 {
        assert(d / 86_400 >= 7 <==> d >= 604_800);
    } else {
        assert((-d) / 86_400 >= 0);
    }
}

/// The quarantine row a delete run's record is stored as, and read back as
/// by a restore.
pub open spec fn row_of(rec: QuarantineRecord) -> QuarantineRow {
    QuarantineRow { original_path: rec.original_path, quarantine_path: rec.quarantine_path, size: rec.size }
}

/// Whether a restore goes ahead: the entry is known and its original
/// location is free.
pub open spec fn restore_goes(row: Option<QuarantineRow>, destination_exists: bool) -> bool {
    row is Some && !destination_exists
}

/// A restore of `row` that went through: its original path is listed and
/// its size credited; the errors are unchanged.
pub open spec fn restored(before: DeleteResult, after: DeleteResult, row: QuarantineRow) -> bool {
    &&& after.freed == before.freed + row.size
    &&& after.deleted@ == before.deleted@.push(row.original_path)
    &&& after.errors@ == before.errors@
}

/// Restoring what a delete run quarantined gives its path back: the row of
/// a record, whose original location is free, goes ahead, is moved back
/// from the record's quarantine location and, once moved, lists the
/// original path and credits the size the run freed for it.
pub proof fn lemma_restore_round_trip(rec: QuarantineRecord, before: DeleteResult, after: DeleteResult)
    requires
        restored(before, after, row_of(rec)),
    ensures
        restore_goes(Some(row_of(rec)), false),
        row_of(rec).quarantine_path == rec.quarantine_path,
        after.deleted@.last() == rec.original_path,
        after.deleted@.drop_last() == before.deleted@,
        after.freed == before.freed + rec.size,
        after.errors@ == before.errors@,
{
    assert(after.deleted@.drop_last() =~= before.deleted@);
}

impl DeleteResult {
    pub fn new() -> (r: Self)
        ensures
            r.freed == 0,
            r.deleted@ == Seq::<String>::empty(),
            r.errors@ == Seq::<DeleteError>::empty(),
    {
        DeleteResult { freed: 0, deleted: Vec::new(), errors: Vec::new() }
    }

    /// Credits a removed or restored path with its size.
    pub fn record_removed(&mut self, path: String, size: i64)
        requires
            i64::MIN <= old(self).freed + size <= i64::MAX,
        ensures
            final(self).freed == old(self).freed + size,
            final(self).deleted@ == old(self).deleted@.push(path),
            final(self).errors@ == old(self).errors@,
    {
        self.freed = self.freed + size;
        self.deleted.push(path);
    }

    /// Records a path that could not be handled.
    pub fn record_error(&mut self, path: String, message: String)
        ensures
            final(self).freed == old(self).freed,
            final(self).deleted@ == old(self).deleted@,
            final(self).errors@ == old(self).errors@.push(DeleteError { path, message }),
    {
        self.errors.push(DeleteError { path, message });
    }

    /// First half of restoring quarantine entry `id`: `row` is what the
    /// quarantine table holds for it and `destination_exists` whether its
    /// original path is occupied. An unknown id or an occupied destination is
    /// recorded as an error and `false` returned; otherwise the entry is to
    /// be moved back (`true`).
    pub fn plan_restore(&mut self, id: i64, row: &Option<QuarantineRow>, destination_exists: bool) -> (go: bool)
        ensures
            go == restore_goes(*row, destination_exists),
            final(self).freed == old(self).freed,
            final(self).deleted@ == old(self).deleted@,
            match row {
                None => {
                    &&& final(self).errors@.len() == old(self).errors@.len() + 1
                    &&& final(self).errors@.drop_last() == old(self).errors@
                    &&& final(self).errors@.last().path@ == "id="@ + decimal(id as int)
                    &&& final(self).errors@.last().message@ == "no such quarantine entry"@
                },
                Some(r) => if destination_exists {
                    &&& final(self).errors@.len() == old(self).errors@.len() + 1
                    &&& final(self).errors@.drop_last() == old(self).errors@
                    &&& final(self).errors@.last().path == r.original_path
                    &&& final(self).errors@.last().message@ == "destination already exists"@
                } else {
                    final(self).errors@ == old(self).errors@
                },
            },
    {
        match row {
            None => {
                let path = String::from_str("id=").concat(i64_text(id).as_str());
                self.record_error(path, String::from_str("no such quarantine entry"));
                false
            },
            Some(r) => {
                if destination_exists {
                    self.record_error(
                        r.original_path.clone(),
                        String::from_str("destination already exists"),
                    );
                    false
                } else {
                    true
                }
            },
        }
    }

    /// Second half of a restore: the rename back either failed (recorded as
    /// `rename: <reason>`) or succeeded, crediting the entry's size.
    pub fn finish_restore(&mut self, row: QuarantineRow, renamed: Result<(), String>)
        requires
            renamed is Ok ==> i64::MIN <= old(self).freed + row.size <= i64::MAX,
        ensures
            match renamed {
                Ok(()) => restored(*old(self), *final(self), row),
                Err(reason) => {
                    &&& final(self).freed == old(self).freed
                    &&& final(self).deleted@ == old(self).deleted@
                    &&& final(self).errors@.len() == old(self).errors@.len() + 1
                    &&& final(self).errors@.drop_last() == old(self).errors@
                    &&& final(self).errors@.last().path == row.original_path
                    &&& final(self).errors@.last().message@ == "rename: "@ + reason@
                },
            },
    {
        match renamed {
            Ok(()) => self.record_removed(row.original_path, row.size),
            Err(reason) => {
                let message = String::from_str("rename: ").concat(reason.as_str());
                self.record_error(row.original_path, message);
            },
        }
    }

    /// Accounts one purged quarantine entry: on success its quarantine path
    /// is listed and its size credited, otherwise the failure is recorded.
    pub fn finish_purge(&mut self, entry: QuarantineEntry, outcome: Result<(), String>)
        requires
            outcome is Ok ==> i64::MIN <= old(self).freed + entry.size <= i64::MAX,
        ensures
            match outcome {
                Ok(()) => {
                    &&& final(self).freed == old(self).freed + entry.size
                    &&& final(self).deleted@ == old(self).deleted@.push(entry.quarantine_path)
                    &&& final(self).errors@ == old(self).errors@
                },
                Err(reason) => {
                    &&& final(self).freed == old(self).freed
                    &&& final(self).deleted@ == old(self).deleted@
                    &&& final(self).errors@ == old(self).errors@.push(
                        DeleteError { path: entry.quarantine_path, message: reason },
                    )
                },
            },
    {
        match outcome {
            Ok(()) => self.record_removed(entry.quarantine_path, entry.size),
            Err(reason) => self.record_error(entry.quarantine_path, reason),
        }
    }
}

} // verus!
