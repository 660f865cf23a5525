use std::fmt::Write;

use vstd::prelude::*;
use vstd::relations::sorted_by;

use crate::text::{
    ends_with, has_prefix, has_suffix, join3, lemma_text_order_total, starts_with, text_le, text_less,
    text_lt,
};

verus! {

/// Backups are at least this many seconds apart.
pub const MIN_BACKUP_INTERVAL_SECS: u64 = 60;

/// The order in which backup names sort: by text, which for the timestamped
/// names is oldest first.
pub open spec fn text_order() -> spec_fn(Seq<char>, Seq<char>) -> bool {
    |a: Seq<char>, b: Seq<char>| text_le(a, b)
}

/// Whether a file name is one of the backups: `gantry_board_*.db`.
pub open spec fn is_backup_name(name: Seq<char>) -> bool {
    has_prefix(name, "gantry_board_"@) && has_suffix(name, ".db"@)
}

/// Whether a file name is one of the backups (see `is_backup_name`).
pub fn is_backup_file_name(name: &str) -> (r: bool)
    ensures
        r == is_backup_name(name@),
{
    starts_with(name, "gantry_board_") && ends_with(name, ".db")
}

/// The backup names among the names of a directory, in directory order.
pub open spec fn backup_names(names: Seq<Seq<char>>) -> Seq<Seq<char>>
    decreases names.len(),
{
    if names.len() == 0 {
        Seq::empty()
    } else if is_backup_name(names.last()) {
        backup_names(names.drop_last()).push(names.last())
    } else {
        backup_names(names.drop_last())
    }
}

/// How many of `total` backups go when `retention` are kept.
pub open spec fn excess(total: nat, retention: nat) -> nat {
    if total > retention {
        (total - retention) as nat
    } else {
        0
    }
}

/// The backups that rotation deletes: the oldest ones beyond the
/// `retention` most recent, oldest first.
pub open spec fn rotation_victims(names: Seq<Seq<char>>, retention: nat) -> Seq<Seq<char>> {
    let sorted = backup_names(names).sort_by(text_order());
    sorted.take(excess(sorted.len(), retention) as int)
}

/// The texts of a vector of strings.
pub open spec fn texts(v: Seq<String>) -> Seq<Seq<char>> {
    v.map_values(|s: String| s@)
}

/// Inserts `x` into a vector sorted by text, after the entries that do not
/// sort after it.
fn insert_sorted(v: &mut Vec<String>, x: String)
    requires
        sorted_by(texts(old(v)@), text_order()),
    ensures
        sorted_by(texts(final(v)@), text_order()),
        texts(final(v)@).to_multiset() == texts(old(v)@).to_multiset().insert(x@),
{
    proof {
        lemma_text_order_total();
    }
    let ghost s = texts(v@);
    let mut j: usize = 0;
    while j < v.len() && !text_less(x.as_str(), v[j].as_str())
        invariant
            s == texts(v@),
            0 <= j <= v@.len(),
            forall|k: int| 0 <= k < j ==> !text_lt(x@, #[trigger] s[k]),
        decreases v@.len() - j,
    {
        j = j + 1;
    }
    let ghost xv = x@;
    v.insert(j, x);
    proof {
        let n = texts(v@);
        assert(n =~= s.insert(j as int, xv));
        vstd::seq_lib::to_multiset_insert(s, j as int, xv);
        let leq = text_order();
        assert forall|p: int, q: int| 0 <= p < q < n.len() implies #[trigger] leq(n[p], n[q]) by {
            if q < j {
                assert(leq(s[p], s[q]));
            } else if q == j {
                assert(!text_lt(xv, s[p]));
            } else if p < j {
                assert(leq(s[p], s[q - 1]));
                assert(!text_lt(xv, s[p]));
                assert(leq(s[p], xv));
                assert(leq(xv, s[q - 1]) || leq(s[q - 1], xv));
                if !leq(xv, s[q - 1]) {
                    assert(text_lt(xv, s[j as int]));
                    assert(leq(s[j as int], s[q - 1]) || j == q - 1);
                }
            } else if p == j {
                assert(text_lt(xv, s[j as int]));
                assert(leq(xv, s[j as int]) || leq(s[j as int], xv));
                assert(leq(xv, s[j as int]));
                if q - 1 > j {
                    assert(leq(s[j as int], s[q - 1]));
                }
            } else {
                assert(leq(s[p - 1], s[q - 1]));
            }
        }
    }
}

/// Chooses the backups that rotation deletes, given the names in the backup
/// directory: the files named `gantry_board_*.db`, sorted by name (their
/// timestamps, oldest first), except the `retention_count` most recent.
pub fn select_backups_to_delete(names: &Vec<String>, retention_count: u32) -> (victims: Vec<String>)
    ensures
        texts(victims@) == rotation_victims(texts(names@), retention_count as nat),
{
    proof {
        lemma_text_order_total();
    }
    let ghost all = texts(names@);
    let mut sorted: Vec<String> = Vec::new();
    let mut i: usize = 0;
    proof {
        assert(all.take(0) =~= Seq::<Seq<char>>::empty());
        assert(texts(sorted@) =~= Seq::<Seq<char>>::empty());
    }
    while i < names.len()
        invariant
            all == texts(names@),
            0 <= i <= names@.len(),
            sorted_by(texts(sorted@), text_order()),
            texts(sorted@).to_multiset() == backup_names(all.take(i as int)).to_multiset(),
        decreases names@.len() - i,
    {
        proof {
            assert(all.take(i + 1).drop_last() =~= all.take(i as int));
            assert(all.take(i + 1).last() == names@[i as int]@);
        }
        if is_backup_file_name(names[i].as_str()) {
            let name = names[i].clone();
            proof {
                vstd::seq_lib::to_multiset_build(backup_names(all.take(i as int)), name@);
            }
            insert_sorted(&mut sorted, name);
        }
        i = i + 1;
    }
    proof {
        assert(all.take(names@.len() as int) =~= all);
        let b = backup_names(all);
        b.lemma_sort_by_ensures(text_order());
        vstd::seq_lib::lemma_sorted_unique(texts(sorted@), b.sort_by(text_order()), text_order());
        assert(texts(sorted@) =~= b.sort_by(text_order()));
    }
    let total = sorted.len();
    let keep = retention_count as usize;
    let cut = if total > keep { total - keep } else { 0 };
    sorted.truncate(cut);
    proof {
        assert(texts(sorted@) =~= rotation_victims(all, retention_count as nat));
    }
    sorted
}

/// The statement that copies the database into `path`: `VACUUM INTO '<path>'`,
/// with each `'` in the path doubled.
pub open spec fn vacuum_into_text(path: Seq<char>) -> Seq<char> {
    "VACUUM INTO '"@ + quote_text(path) + "'"@
}

/// A text with each `'` doubled, as an SQL string literal needs it.
pub open spec fn quote_text(s: Seq<char>) -> Seq<char>
    decreases s.len(),
{
    if s.len() == 0 {
        Seq::empty()
    } else if s.last() == '\'' {
        quote_text(s.drop_last()) + seq!['\'', '\'']
    } else {
        quote_text(s.drop_last()).push(s.last())
    }
}

/// Builds the `VACUUM INTO` statement of a backup path.
pub fn vacuum_into_statement(path: &str) -> (sql: String)
    ensures
        sql@ == vacuum_into_text(path@),
{
    let n = path.unicode_len();
    let mut quoted = String::new();
    let mut i: usize = 0;
    while i < n
        invariant
            n == path@.len(),
            0 <= i <= n,
            quoted@ == quote_text(path@.take(i as int)),
        decreases n - i,
    {
        proof {
            reveal_strlit("''");
            assert(path@.take(i + 1).drop_last() =~= path@.take(i as int));
        }
        let c = path.get_char(i);
        if c == '\'' {
            quoted = quoted.concat("''");
        } else {
            quoted = quoted.concat(path.substring_char(i, i + 1));
        }
        assert(quoted@ =~= quote_text(path@.take(i + 1)));
        i = i + 1;
    }
    assert(path@.take(n as int) =~= path@);
    join3("VACUUM INTO '", quoted.as_str(), "'")
}

/// The file name of a backup taken at the instant whose UTC time reads
/// `stamp` (`YYYYmmdd_HHMMSS`).
pub open spec fn backup_file_name_text(stamp: Seq<char>) -> Seq<char> {
    "gantry_board_"@ + stamp + ".db"@
}

/// Builds the file name of a backup from its timestamp.
pub fn backup_file_name(stamp: &str) -> (name: String)
    ensures
        name@ == backup_file_name_text(stamp@),
{
    join3("gantry_board_", stamp, ".db")
}

/// The text that `chrono` formats the UTC instant `ms` (milliseconds since the
/// epoch) into with the `strftime` pattern `pattern`; `None` where the instant
/// is outside chrono's range or the pattern does not format.
pub uninterp spec fn utc_format_text(ms: i64, pattern: Seq<char>) -> Option<Seq<char>>;

/// Formats a UTC instant with `chrono::DateTime::<Utc>::from_timestamp_millis`
/// and `format`, written into a string (an error of the pattern gives `None`).
///
/// Trusted: the result is `utc_format_text(ms, pattern)`.
#[verifier::external_body]
fn utc_format(ms: i64, pattern: &str) -> (r: Option<String>)
    ensures
        r is Some <==> utc_format_text(ms, pattern@) is Some,
        r is Some ==> r->0@ == utc_format_text(ms, pattern@)->0,
{
    match chrono::DateTime::<chrono::Utc>::from_timestamp_millis(ms) {
        Some(t) => {
            let mut text = String::new();
            match write!(text, "{}", t.format(pattern)) {
                Ok(()) => Some(text),
                Err(_) => None,
            }
        },
        None => None,
    }
}

/// The timestamp pattern of backup names: UTC date and time, `YYYYmmdd_HHMMSS`.
pub open spec fn backup_stamp_pattern() -> Seq<char> {
    "%Y%m%d_%H%M%S"@
}

/// The file name of a backup taken at instant `now_ms` (milliseconds since the
/// epoch): `gantry_board_` and the instant's UTC stamp, `.db`; `None` where
/// chrono cannot represent the instant.
pub fn backup_file_name_at(now_ms: i64) -> (r: Option<String>)
    ensures
        r is Some <==> utc_format_text(now_ms, backup_stamp_pattern()) is Some,
        r is Some ==> r->0@ == backup_file_name_text(utc_format_text(now_ms, backup_stamp_pattern())->0),
{
    match utc_format(now_ms, "%Y%m%d_%H%M%S") {
        Some(stamp) => Some(backup_file_name(stamp.as_str())),
        None => None,
    }
}

/// The interval of the backup task: the configured one, but at least a minute.
pub fn backup_interval_secs(configured: u64) -> (secs: u64)
    ensures
        secs == (if configured > MIN_BACKUP_INTERVAL_SECS { configured } else { MIN_BACKUP_INTERVAL_SECS }),
{
    if configured > MIN_BACKUP_INTERVAL_SECS {
        configured
    } else {
        MIN_BACKUP_INTERVAL_SECS
    }
}

/// Rotation deletes exactly the backups beyond the retention count, oldest
/// first: as many as exceed it, each of them a backup, none newer than any
/// backup kept, and never a file that is not a backup.
pub proof fn lemma_rotation_keeps_newest(names: Seq<Seq<char>>, retention: nat)
    ensures
        ({
            let b = backup_names(names);
            let sorted = b.sort_by(text_order());
            let v = rotation_victims(names, retention);
            &&& v.len() == excess(b.len(), retention)
            &&& forall|i: int| 0 <= i < v.len() ==> is_backup_name(#[trigger] v[i])
            &&& forall|i: int, j: int| 0 <= i < v.len() && v.len() <= j < sorted.len() ==> text_le(#[trigger] v[i], #[trigger] sorted[j])
        }),
{
    let b = backup_names(names);
    lemma_text_order_total();
    b.lemma_sort_by_ensures(text_order());
    let sorted = b.sort_by(text_order());
    vstd::seq_lib::to_multiset_len(b);
    vstd::seq_lib::to_multiset_len(sorted);
    lemma_backup_names_are_backups(names);
    let v = rotation_victims(names, retention);
    assert forall|i: int| 0 <= i < v.len() implies is_backup_name(#[trigger] v[i]) by {
        assert(v[i] == sorted[i]);
        assert(sorted.contains(sorted[i]));
        vstd::seq_lib::to_multiset_contains(sorted, sorted[i]);
        vstd::seq_lib::to_multiset_contains(b, sorted[i]);
        let k = choose|k: int| 0 <= k < b.len() && b[k] == sorted[i];
    }
    assert forall|i: int, j: int| 0 <= i < v.len() && v.len() <= j < sorted.len() implies text_le(#[trigger] v[i], #[trigger] sorted[j]) by {
        assert(v[i] == sorted[i]);
        assert(text_order()(sorted[i], sorted[j]));
    }
}

/// The names left in a directory after rotation deleted its victims.
pub open spec fn remaining_after_rotation(names: Seq<Seq<char>>, retention: nat) -> Seq<Seq<char>> {
    names.filter(|n: Seq<char>| !rotation_victims(names, retention).contains(n))
}

/// A second rotation deletes nothing: in a directory (whose names are
/// distinct), the names left after a rotation select no further victims for
/// the same retention count, as at most that many backups remain.
pub proof fn lemma_second_rotation_is_noop(names: Seq<Seq<char>>, retention: nat)
    requires
        names.no_duplicates(),
    ensures
        backup_names(remaining_after_rotation(names, retention)).len() <= retention,
        rotation_victims(remaining_after_rotation(names, retention), retention) == Seq::<Seq<char>>::empty(),
{
    broadcast use vstd::seq_lib::seq_to_set_is_finite;
    let v = rotation_victims(names, retention);
    let keep = |n: Seq<char>| !v.contains(n);
    let b = backup_names(names);
    lemma_text_order_total();
    b.lemma_sort_by_ensures(text_order());
    let s = b.sort_by(text_order());
    vstd::seq_lib::to_multiset_len(b);
    vstd::seq_lib::to_multiset_len(s);
    let k = excess(s.len(), retention);
    assert(v == s.take(k as int));
    lemma_backup_names_filter(names, keep);
    assert(remaining_after_rotation(names, retention) == names.filter(keep));
    let kept = b.filter(keep);
    lemma_backup_names_no_dup(names);
    lemma_filter_no_dup(b, keep);
    let rest = s.skip(k as int);
    assert forall|x: Seq<char>| kept.to_set().contains(x) implies rest.to_set().contains(x) by {
        assert(kept.contains(x));
        b.lemma_filter_contains_rev(keep, x);
        vstd::seq_lib::to_multiset_contains(b, x);
        vstd::seq_lib::to_multiset_contains(s, x);
        let j = choose|j: int| 0 <= j < s.len() && s[j] == x;
        if j < k {
            assert(v[j] == x);
            assert(v.contains(x));
        }
        assert(rest[j - k] == x);
        assert(rest.contains(x));
    }
    vstd::set_lib::lemma_len_subset(kept.to_set(), rest.to_set());
    kept.unique_seq_to_set();
    rest.lemma_cardinality_of_set();
    let after = backup_names(remaining_after_rotation(names, retention));
    assert(after == kept);
    after.lemma_sort_by_ensures(text_order());
    vstd::seq_lib::to_multiset_len(after);
    vstd::seq_lib::to_multiset_len(after.sort_by(text_order()));
    assert(rotation_victims(remaining_after_rotation(names, retention), retention) =~= Seq::<Seq<char>>::empty());
}

proof fn lemma_backup_names_filter(names: Seq<Seq<char>>, p: spec_fn(Seq<char>) -> bool)
    ensures
        backup_names(names.filter(p)) == backup_names(names).filter(p),
    decreases names.len(),
{
    if names.len() > 0 {
        let init = names.drop_last();
        let x = names.last();
        lemma_backup_names_filter(init, p);
        assert(names =~= init.push(x));
        init.lemma_filter_push(x, p);
        let bi = backup_names(init);
        bi.lemma_filter_push(x, p);
        let fi = init.filter(p);
        assert(fi.push(x).drop_last() =~= fi);
        assert(bi.push(x).drop_last() =~= bi);
        if p(x) {
            assert(names.filter(p) == fi.push(x));
            if is_backup_name(x) {
                assert(backup_names(fi.push(x)) == backup_names(fi).push(x));
                assert(backup_names(names) == bi.push(x));
            } else {
                assert(backup_names(fi.push(x)) == backup_names(fi));
                assert(backup_names(names) == bi);
            }
        } else {
            assert(names.filter(p) == fi);
            if is_backup_name(x) {
                assert(backup_names(names) == bi.push(x));
            } else {
                assert(backup_names(names) == bi);
            }
        }
    }
}

proof fn lemma_backup_names_no_dup(names: Seq<Seq<char>>)
    requires
        names.no_duplicates(),
    ensures
        backup_names(names).no_duplicates(),
        forall|x: Seq<char>| backup_names(names).contains(x) ==> names.contains(x),
    decreases names.len(),
{
    if names.len() > 0 {
        let init = names.drop_last();
        let x = names.last();
        assert(init.no_duplicates());
        lemma_backup_names_no_dup(init);
        let r = backup_names(init);
        let bn = backup_names(names);
        assert(is_backup_name(x) ==> bn == r.push(x));
        assert(!is_backup_name(x) ==> bn == r);
        assert forall|y: Seq<char>| bn.contains(y) implies names.contains(y) by {
            let j = choose|j: int| 0 <= j < bn.len() && bn[j] == y;
            if j < r.len() {
                assert(r[j] == y);
                assert(r.contains(y));
                assert(init.contains(y));
                let m = choose|m: int| 0 <= m < init.len() && init[m] == y;
                assert(names[m] == y);
            } else {
                assert(names[names.len() - 1] == y);
            }
        }
        if is_backup_name(x) {
            if r.contains(x) {
                assert(init.contains(x));
                let m = choose|m: int| 0 <= m < init.len() && init[m] == x;
                assert(names[m] == names[names.len() - 1]);
                assert(false);
            }
            assert forall|i: int, j: int| 0 <= i < bn.len() && 0 <= j < bn.len() && i != j implies bn[i] != bn[j] by {
                if i < r.len() && j < r.len() {
                    assert(r[i] != r[j]);
                } else if i < r.len() {
                    assert(r.contains(r[i]));
                } else {
                    assert(r.contains(r[j]));
                }
            }
        }
    }
}

proof fn lemma_filter_no_dup(s: Seq<Seq<char>>, p: spec_fn(Seq<char>) -> bool)
    requires
        s.no_duplicates(),
    ensures
        s.filter(p).no_duplicates(),
    decreases s.len(),
{
    if s.len() > 0 {
        let init = s.drop_last();
        let x = s.last();
        assert(init.no_duplicates());
        lemma_filter_no_dup(init, p);
        assert(s =~= init.push(x));
        init.lemma_filter_push(x, p);
        let fi = init.filter(p);
        if p(x) {
            if fi.contains(x) {
                init.lemma_filter_contains_rev(p, x);
                let m = choose|m: int| 0 <= m < init.len() && init[m] == x;
                assert(s[m] == s[s.len() - 1]);
                assert(false);
            }
            let f = fi.push(x);
            assert forall|i: int, j: int| 0 <= i < f.len() && 0 <= j < f.len() && i != j implies f[i] != f[j] by {
                if i < fi.len() && j < fi.len() {
                    assert(fi[i] != fi[j]);
                } else if i < fi.len() {
                    assert(fi.contains(fi[i]));
                } else {
                    assert(fi.contains(fi[j]));
                }
            }
        }
    }
}

proof fn lemma_backup_names_are_backups(names: Seq<Seq<char>>)
    ensures
        forall|i: int| 0 <= i < backup_names(names).len() ==> is_backup_name(#[trigger] backup_names(names)[i]),
    decreases names.len(),
{
    if names.len() > 0 {
        lemma_backup_names_are_backups(names.drop_last());
        let r = backup_names(names.drop_last());
        assert forall|i: int| 0 <= i < backup_names(names).len() implies is_backup_name(#[trigger] backup_names(names)[i]) by {
            if i < r.len() {
                assert(backup_names(names)[i] == r[i]);
            }
        }
    }
}

} // verus!
