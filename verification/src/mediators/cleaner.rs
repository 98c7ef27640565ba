//! Cleaning up: of the snapshots stored for a podcast only the most
//! recent are kept.
//!
//! Rows are deleted in bounded batches, so that no single statement runs
//! for long, until a batch deletes nothing.

use vstd::prelude::*;

verus! {

/// The maximum number of rows to delete as part of one batch.
pub const DELETE_LIMIT: usize = 1000;

/// The maximum number of content rows to keep around for any given
/// podcast.
pub const PODCAST_FEED_CONTENT_LIMIT: usize = 10;

/// What a run of the cleaner did.
#[derive(Clone, Copy, Debug, PartialEq, Eq, Structural)]
pub struct RunResult {
    /// The total number of rows cleaned.
    pub num_cleaned: u64,
    pub num_podcast_feed_content_cleaned: u64,
}

/// What the cleaner asks the program to do next.
#[derive(Clone, Copy, Debug, PartialEq, Eq, Structural)]
pub enum CleanAction {
    /// Delete at most `limit` snapshots of those that are not among the
    /// `keep` most recent of their podcast, and say how many were
    /// deleted.
    DeleteBatch { keep: usize, limit: usize },
    /// Nothing is left to clean.
    Finish(RunResult),
}

/// A run of the cleaner.
#[derive(Clone, Copy, Debug)]
pub struct Cleaner {
    /// The number of rows cleaned so far.
    pub num_cleaned: u64,
}

/// A running total and one more batch, held at the largest value that
/// the total can take.
pub open spec fn cleaned_after(num_cleaned: u64, count: u64) -> u64 {
    if num_cleaned + count <= u64::MAX {
        (num_cleaned + count) as u64
    } else {
        u64::MAX
    }
}

impl Cleaner {
    /// A run that has cleaned nothing yet.
    pub fn new() -> (cleaner: Cleaner)
        ensures
            cleaner.num_cleaned == 0,
    {
        Cleaner { num_cleaned: 0 }
    }

    /// The first thing to do: delete a batch.
    pub fn run(&self) -> (action: CleanAction)
        ensures
            action == (CleanAction::DeleteBatch {
                keep: PODCAST_FEED_CONTENT_LIMIT,
                limit: DELETE_LIMIT,
            }),
    {
        CleanAction::DeleteBatch { keep: PODCAST_FEED_CONTENT_LIMIT, limit: DELETE_LIMIT }
    }

    /// Takes the number of rows that the last batch deleted and says what
    /// to do next: another batch, unless the last one deleted nothing.
    pub fn clean_podcast_feed_content(&mut self, count: u64) -> (action: CleanAction)
        ensures
            final(self).num_cleaned == cleaned_after(old(self).num_cleaned, count),
            count < 1 ==> action == CleanAction::Finish(
                RunResult {
                    num_cleaned: final(self).num_cleaned,
                    num_podcast_feed_content_cleaned: final(self).num_cleaned,
                },
            ),
            count >= 1 ==> action == (CleanAction::DeleteBatch {
                keep: PODCAST_FEED_CONTENT_LIMIT,
                limit: DELETE_LIMIT,
            }),
    {
        self.num_cleaned = if count <= u64::MAX - self.num_cleaned {
            self.num_cleaned + count
        } else {
            u64::MAX
        };
        if count < 1 {
            CleanAction::Finish(
                RunResult {
                    num_cleaned: self.num_cleaned,
                    num_podcast_feed_content_cleaned: self.num_cleaned,
                },
            )
        } else {
            CleanAction::DeleteBatch { keep: PODCAST_FEED_CONTENT_LIMIT, limit: DELETE_LIMIT }
        }
    }
}

/// What the retention rule reads of a stored snapshot.
#[derive(Clone, Copy, Debug, PartialEq, Eq, Structural)]
pub struct ContentRow {
    pub id: i64,
    pub podcast_id: i64,
    pub retrieved_at: i64,
}

/// Whether `a` is a more recent snapshot of the same podcast than `b`:
/// retrieved later, or at the same time and with the greater identifier.
pub open spec fn is_newer(a: ContentRow, b: ContentRow) -> bool {
    a.podcast_id == b.podcast_id && (a.retrieved_at > b.retrieved_at || (a.retrieved_at
        == b.retrieved_at && a.id > b.id))
}

/// The number of rows among `rows` that are more recent snapshots of the
/// same podcast than `row`.
pub open spec fn newer_count(rows: Seq<ContentRow>, row: ContentRow) -> nat
    decreases rows.len(),
{
    if rows.len() == 0 {
        0
    } else {
        newer_count(rows.drop_last(), row) + if is_newer(rows.last(), row) {
            1nat
        } else {
            0nat
        }
    }
}

/// Whether `row` is beyond the cap: at least `keep` rows among `rows` are
/// more recent snapshots of its podcast.
pub open spec fn is_excess(rows: Seq<ContentRow>, row: ContentRow, keep: nat) -> bool {
    newer_count(rows, row) >= keep
}

/// What one batch leaves of `rows`, a part of the table `all`: the rows in
/// their order, without the first `limit` of them that are beyond the cap
/// in `all`.
pub open spec fn rows_kept(all: Seq<ContentRow>, rows: Seq<ContentRow>, keep: nat, limit: nat) -> Seq<
    ContentRow,
>
    decreases rows.len(),
{
    if rows.len() == 0 {
        rows
    } else if limit > 0 && is_excess(all, rows[0], keep) {
        rows_kept(all, rows.subrange(1, rows.len() as int), keep, (limit - 1) as nat)
    } else {
        seq![rows[0]] + rows_kept(all, rows.subrange(1, rows.len() as int), keep, limit)
    }
}

/// No row is beyond the cap: every podcast has at most `keep` snapshots,
/// as far as identifiers and times tell them apart.
pub open spec fn is_clean(rows: Seq<ContentRow>, keep: nat) -> bool {
    forall|i: int| 0 <= i < rows.len() ==> !is_excess(rows, #[trigger] rows[i], keep)
}

/// Whether `row` is beyond the cap among `rows`.
pub fn beyond_cap(rows: &Vec<ContentRow>, row: ContentRow, keep: usize) -> (excess: bool)
    ensures
        excess == is_excess(rows@, row, keep as nat),
{
    let mut newer: usize = 0;
    let mut i: usize = 0;
    assert(rows@.subrange(0, 0) =~= Seq::empty());
    while i < rows.len()
        invariant
            i <= rows.len(),
            newer == newer_count(rows@.subrange(0, i as int), row),
            newer <= i,
        decreases rows.len() - i,
    {
        proof {
            let prefix = rows@.subrange(0, i + 1);
            assert(prefix.drop_last() =~= rows@.subrange(0, i as int));
            assert(prefix.last() == rows@[i as int]);
        }
        let other = rows[i];
        if other.podcast_id == row.podcast_id && (other.retrieved_at > row.retrieved_at || (
        other.retrieved_at == row.retrieved_at && other.id > row.id)) {
            newer = newer + 1;
        }
        i = i + 1;
    }
    assert(rows@.subrange(0, i as int) =~= rows@);
    newer >= keep
}

/// Deletes one batch from rows held in memory: what a database does for
/// [`CleanAction::DeleteBatch`]. Of the rows that are not among the
/// `keep` most recent of their podcast, the first `limit` are deleted.
/// Returns what is left, in order, and the number of rows deleted.
pub fn delete_podcast_feed_content_batch(rows: &Vec<ContentRow>, keep: usize, limit: usize) -> (out: (
    Vec<ContentRow>,
    usize,
))
    ensures
        out.0@ == rows_kept(rows@, rows@, keep as nat, limit as nat),
        out.1 == rows@.len() - out.0@.len(),
        out.1 <= limit,
{
    let mut left: Vec<ContentRow> = Vec::new();
    let mut deleted: usize = 0;
    let mut i: usize = 0;
    assert(rows@.subrange(0, rows@.len() as int) =~= rows@);
    while i < rows.len()
        invariant
            i <= rows.len(),
            deleted <= limit,
            deleted + left@.len() == i,
            left@ + rows_kept(
                rows@,
                rows@.subrange(i as int, rows@.len() as int),
                keep as nat,
                (limit - deleted) as nat,
            ) == rows_kept(rows@, rows@, keep as nat, limit as nat),
        decreases rows.len() - i,
    {
        let ghost tail = rows@.subrange(i as int, rows@.len() as int);
        let ghost before = left@;
        proof {
            assert(tail[0] == rows@[i as int]);
            assert(tail.subrange(1, tail.len() as int) =~= rows@.subrange(
                i + 1,
                rows@.len() as int,
            ));
        }
        if deleted < limit && beyond_cap(rows, rows[i], keep) {
            deleted = deleted + 1;
        } else {
            left.push(rows[i]);
            proof {
                let rest = rows_kept(
                    rows@,
                    tail.subrange(1, tail.len() as int),
                    keep as nat,
                    (limit - deleted) as nat,
                );
                assert(left@ + rest =~= before + (seq![rows@[i as int]] + rest));
            }
        }
        i = i + 1;
    }
    assert(left@ + Seq::<ContentRow>::empty() =~= left@);
    (left, deleted)
}

/// A batch that deletes nothing although it may delete something finds
/// nothing to delete: the rows are clean.
pub proof fn lemma_nothing_deleted(all: Seq<ContentRow>, rows: Seq<ContentRow>, keep: nat, limit: nat)
    requires
        limit > 0,
        rows_kept(all, rows, keep, limit).len() == rows.len(),
    ensures
        forall|i: int| 0 <= i < rows.len() ==> !is_excess(all, #[trigger] rows[i], keep),
    decreases rows.len(),
{
    if rows.len() > 0 {
        let tail = rows.subrange(1, rows.len() as int);
        lemma_rows_kept_len(all, tail, keep, limit);
        lemma_rows_kept_len(all, tail, keep, (limit - 1) as nat);
        lemma_nothing_deleted(all, tail, keep, limit);
        assert forall|i: int| 0 <= i < rows.len() implies !is_excess(
            all,
            #[trigger] rows[i],
            keep,
        ) by {
            if i > 0 {
                assert(rows[i] == tail[i - 1]);
            }
        }
    }
}

/// A batch leaves no more rows than there were, and deletes no more than
/// its limit.
pub proof fn lemma_rows_kept_len(all: Seq<ContentRow>, rows: Seq<ContentRow>, keep: nat, limit: nat)
    ensures
        rows_kept(all, rows, keep, limit).len() <= rows.len(),
        rows.len() - rows_kept(all, rows, keep, limit).len() <= limit,
    decreases rows.len(),
{
    if rows.len() > 0 {
        let tail = rows.subrange(1, rows.len() as int);
        if limit > 0 && is_excess(all, rows[0], keep) {
            lemma_rows_kept_len(all, tail, keep, (limit - 1) as nat);
        } else {
            lemma_rows_kept_len(all, tail, keep, limit);
        }
    }
}

/// Whether every row of `rows` is beyond the cap in `a` exactly if it
/// is in `b`.
pub open spec fn same_excess(rows: Seq<ContentRow>, a: Seq<ContentRow>, b: Seq<ContentRow>, keep: nat) -> bool {
    forall|i: int|
        0 <= i < rows.len() ==> is_excess(a, #[trigger] rows[i], keep) == is_excess(
            b,
            rows[i],
            keep,
        )
}

/// The rows of `rows` that are among the `keep` most recent snapshots of
/// their podcast, in order: what the retention rule keeps.
pub open spec fn rows_retained(rows: Seq<ContentRow>, keep: nat) -> Seq<ContentRow> {
    rows.filter(|row: ContentRow| !is_excess(rows, row, keep))
}

/// Counting over two lists joined is counting over each.
pub proof fn lemma_newer_count_add(a: Seq<ContentRow>, b: Seq<ContentRow>, row: ContentRow)
    ensures
        newer_count(a + b, row) == newer_count(a, row) + newer_count(b, row),
    decreases b.len(),
{
    if b.len() == 0 {
        assert(a + b =~= a);
    } else {
        assert((a + b).drop_last() =~= a + b.drop_last());
        assert((a + b).last() == b.last());
        lemma_newer_count_add(a, b.drop_last(), row);
    }
}

/// What is more recent than a row is more recent than any row that this
/// row is more recent than.
pub proof fn lemma_newer_count_grows(rows: Seq<ContentRow>, newer: ContentRow, older: ContentRow)
    requires
        is_newer(newer, older),
    ensures
        newer_count(rows, newer) <= newer_count(rows, older),
    decreases rows.len(),
{
    if rows.len() > 0 {
        lemma_newer_count_grows(rows.drop_last(), newer, older);
    }
}

/// Deleting one row that is beyond the cap changes nothing for the
/// others: each of them is beyond the cap afterwards exactly if it was
/// before.
pub proof fn lemma_delete_one(
    a: Seq<ContentRow>,
    deleted: ContentRow,
    b: Seq<ContentRow>,
    row: ContentRow,
    keep: nat,
)
    requires
        is_excess(a + seq![deleted] + b, deleted, keep),
    ensures
        is_excess(a + b, row, keep) == is_excess(a + seq![deleted] + b, row, keep),
{
    let one = seq![deleted];
    lemma_newer_count_add(a + one, b, row);
    lemma_newer_count_add(a, one, row);
    lemma_newer_count_add(a, b, row);
    lemma_newer_count_add(a + one, b, deleted);
    lemma_newer_count_add(a, one, deleted);
    assert(one.drop_last() =~= Seq::<ContentRow>::empty());
    assert(newer_count(one.drop_last(), row) == 0);
    assert(newer_count(one.drop_last(), deleted) == 0);
    assert(one.last() == deleted);
    if is_newer(deleted, row) {
        lemma_newer_count_grows(a, deleted, row);
        lemma_newer_count_grows(b, deleted, row);
    }
}

/// A batch changes nothing for the rows that it leaves: each of them is
/// beyond the cap afterwards exactly if it was before.
///
/// `left + rows` is the table part of the way through a batch: `left` is
/// what the batch has kept so far and `rows` is what it has yet to look
/// at. `all` is the table as it was when the batch began.
pub proof fn lemma_batch_keeps_excess(
    all: Seq<ContentRow>,
    left: Seq<ContentRow>,
    rows: Seq<ContentRow>,
    keep: nat,
    limit: nat,
)
    requires
        same_excess(left + rows, left + rows, all, keep),
    ensures
        same_excess(
            left + rows_kept(all, rows, keep, limit),
            left + rows_kept(all, rows, keep, limit),
            all,
            keep,
        ),
    decreases rows.len(),
{
    let table = left + rows;
    if rows.len() == 0 {
    } else {
        let tail = rows.subrange(1, rows.len() as int);
        assert(table =~= left + seq![rows[0]] + tail);
        assert(table[left.len() as int] == rows[0]);
        if limit > 0 && is_excess(all, rows[0], keep) {
            let smaller = left + tail;
            assert(is_excess(table, rows[0], keep));
            assert forall|i: int| 0 <= i < smaller.len() implies is_excess(
                smaller,
                #[trigger] smaller[i],
                keep,
            ) == is_excess(all, smaller[i], keep) by {
                lemma_delete_one(left, rows[0], tail, smaller[i], keep);
                if i < left.len() {
                    assert(smaller[i] == table[i]);
                } else {
                    assert(smaller[i] == table[i + 1]);
                }
            }
            lemma_batch_keeps_excess(all, left, tail, keep, (limit - 1) as nat);
        } else {
            let longer = left.push(rows[0]);
            assert(longer + tail =~= table);
            lemma_batch_keeps_excess(all, longer, tail, keep, limit);
            assert(longer + rows_kept(all, tail, keep, limit) =~= left + rows_kept(
                all,
                rows,
                keep,
                limit,
            ));
        }
    }
}

/// A batch deletes nothing of what a filter lets through, if the filter
/// lets nothing through that is beyond the cap.
pub proof fn lemma_batch_keeps_filtered(
    all: Seq<ContentRow>,
    rows: Seq<ContentRow>,
    keep: nat,
    limit: nat,
    wanted: spec_fn(ContentRow) -> bool,
)
    requires
        forall|i: int|
            0 <= i < rows.len() && is_excess(all, #[trigger] rows[i], keep) ==> !wanted(rows[i]),
    ensures
        rows_kept(all, rows, keep, limit).filter(wanted) == rows.filter(wanted),
    decreases rows.len(),
{
    if rows.len() > 0 {
        let tail = rows.subrange(1, rows.len() as int);
        let first = seq![rows[0]];
        assert(rows =~= first + tail);
        assert forall|i: int|
            0 <= i < tail.len() && is_excess(all, #[trigger] tail[i], keep) implies !wanted(
            tail[i],
        ) by {
            assert(tail[i] == rows[i + 1]);
        }
        Seq::filter_distributes_over_add(first, tail, wanted);
        assert(first.filter(wanted) =~= if wanted(rows[0]) {
            first
        } else {
            Seq::empty()
        }) by {
            reveal_with_fuel(Seq::filter, 2);
            assert(first.drop_last() =~= Seq::<ContentRow>::empty());
            assert(first.last() == rows[0]);
        }
        if limit > 0 && is_excess(all, rows[0], keep) {
            lemma_batch_keeps_filtered(all, tail, keep, (limit - 1) as nat, wanted);
            assert(first.filter(wanted) + tail.filter(wanted) =~= tail.filter(wanted));
        } else {
            lemma_batch_keeps_filtered(all, tail, keep, limit, wanted);
            Seq::filter_distributes_over_add(first, rows_kept(all, tail, keep, limit), wanted);
        }
    }
}

/// A filter that lets every row through changes nothing.
pub proof fn lemma_filter_all(rows: Seq<ContentRow>, wanted: spec_fn(ContentRow) -> bool)
    requires
        forall|i: int| 0 <= i < rows.len() ==> wanted(#[trigger] rows[i]),
    ensures
        rows.filter(wanted) == rows,
    decreases rows.len(),
{
    reveal(Seq::filter);
    if rows.len() > 0 {
        let front = rows.drop_last();
        assert forall|i: int| 0 <= i < front.len() implies wanted(#[trigger] front[i]) by {
            assert(front[i] == rows[i]);
        }
        lemma_filter_all(front, wanted);
        assert(front.push(rows.last()) =~= rows);
    }
}

/// Runs the cleaner on rows held in memory: deletes batch after batch
/// until one deletes nothing. Returns what is left and the number of rows
/// cleaned.
///
/// Whatever the size of the batches, as long as a batch may delete
/// anything at all, what is left is what the retention rule keeps of the
/// rows: of every podcast the `keep` most recent snapshots, in their old
/// order. With batches of nothing, nothing is deleted.
pub fn clean_rows(rows: Vec<ContentRow>, keep: usize, limit: usize) -> (out: (Vec<ContentRow>, usize))
    ensures
        out.1 == rows@.len() - out.0@.len(),
        limit > 0 ==> is_clean(out.0@, keep as nat),
        limit > 0 ==> out.0@ == rows_retained(rows@, keep as nat),
        limit == 0 ==> out.0@ == rows@,
{
    let total: usize = rows.len();
    let ghost initial = rows@;
    let ghost retained = |row: ContentRow| !is_excess(initial, row, keep as nat);
    let mut rows = rows;
    let mut num_cleaned: usize = 0;
    loop
        invariant
            num_cleaned == total - rows@.len(),
            rows@.len() <= total,
            same_excess(rows@, rows@, initial, keep as nat),
            rows@.filter(retained) == initial.filter(retained),
            retained == |row: ContentRow| !is_excess(initial, row, keep as nat),
            limit == 0 ==> rows@ == initial,
        ensures
            num_cleaned == total - rows@.len(),
            limit == 0 ==> rows@ == initial,
            limit > 0 ==> is_clean(rows@, keep as nat),
            limit > 0 ==> rows@ == initial.filter(retained),
        decreases rows@.len(),
    {
        let ghost table = rows@;
        let (left, count) = delete_podcast_feed_content_batch(&rows, keep, limit);
        if count < 1 {
            proof {
                if limit > 0 {
                    lemma_nothing_deleted(table, table, keep as nat, limit as nat);
                    assert forall|i: int| 0 <= i < table.len() implies retained(
                        #[trigger] table[i],
                    ) by {
                        assert(!is_excess(table, table[i], keep as nat));
                    }
                    lemma_filter_all(table, retained);
                }
            }
            break ;
        }
        proof {
            let empty = Seq::<ContentRow>::empty();
            assert(empty + table =~= table);
            assert(same_excess(empty + table, empty + table, table, keep as nat));
            lemma_batch_keeps_excess(table, empty, table, keep as nat, limit as nat);
            assert(empty + left@ =~= left@);
            assert forall|i: int| 0 <= i < left@.len() implies is_excess(
                left@,
                #[trigger] left@[i],
                keep as nat,
            ) == is_excess(initial, left@[i], keep as nat) by {
                lemma_rows_kept_within(table, table, keep as nat, limit as nat, i);
            }
            lemma_batch_keeps_filtered(table, table, keep as nat, limit as nat, retained);
        }
        num_cleaned = num_cleaned + count;
        rows = left;
    }
    (rows, num_cleaned)
}

/// Every row that a batch leaves was there before.
pub proof fn lemma_rows_kept_within(
    all: Seq<ContentRow>,
    rows: Seq<ContentRow>,
    keep: nat,
    limit: nat,
    i: int,
)
    requires
        0 <= i < rows_kept(all, rows, keep, limit).len(),
    ensures
        exists|j: int| 0 <= j < rows.len() && rows[j] == rows_kept(all, rows, keep, limit)[i],
    decreases rows.len(),
{
    if rows.len() > 0 {
        let tail = rows.subrange(1, rows.len() as int);
        if limit > 0 && is_excess(all, rows[0], keep) {
            lemma_rows_kept_within(all, tail, keep, (limit - 1) as nat, i);
            let j = choose|j: int|
                0 <= j < tail.len() && tail[j] == rows_kept(all, tail, keep, (limit - 1) as nat)[i];
            assert(rows[j + 1] == tail[j]);
        } else if i == 0 {
            assert(rows[0] == rows_kept(all, rows, keep, limit)[0]);
        } else {
            lemma_rows_kept_within(all, tail, keep, limit, i - 1);
            let j = choose|j: int|
                0 <= j < tail.len() && tail[j] == rows_kept(all, tail, keep, limit)[i - 1];
            assert(rows[j + 1] == tail[j]);
        }
    }
}

} // verus!
