//! In-memory store of run summaries.

use vstd::prelude::*;

use crate::run::{RunId, RunSummary};

verus! {

/// The index of the first summary of run `id`, if any.
pub open spec fn first_index(rows: Seq<RunSummary>, id: RunId) -> Option<int>
    decreases rows.len(),
{
    if rows.len() == 0 {
        None
    } else if rows[0].id == id {
        Some(0)
    } else {
        match first_index(rows.drop_first(), id) {
            Some(i) => Some(i + 1),
            None => None,
        }
    }
}

/// The summary of run `id`: the first one stored for it.
pub open spec fn find_run(rows: Seq<RunSummary>, id: RunId) -> Option<RunSummary> {
    match first_index(rows, id) {
        Some(i) => Some(rows[i]),
        None => None,
    }
}

/// The rows after storing `summary` in place of the first summary of the same
/// run, or after it when the run is new.
pub open spec fn upsert(rows: Seq<RunSummary>, summary: RunSummary) -> Seq<RunSummary> {
    match first_index(rows, summary.id) {
        Some(i) => rows.update(i, summary),
        None => rows.push(summary),
    }
}

/// How many summaries lead `sorted` that started no earlier than `started_at`:
/// where a summary of that start time is placed.
pub open spec fn insert_pos(sorted: Seq<RunSummary>, started_at: i128) -> nat
    decreases sorted.len(),
{
    if sorted.len() == 0 {
        0
    } else if sorted[0].started_at >= started_at {
        1 + insert_pos(sorted.drop_first(), started_at)
    } else {
        0
    }
}

/// The summaries ordered newest first by start time; summaries that started
/// at the same time keep their stored order.
pub open spec fn newest_first(rows: Seq<RunSummary>) -> Seq<RunSummary>
    decreases rows.len(),
{
    if rows.len() == 0 {
        Seq::empty()
    } else {
        let sorted = newest_first(rows.drop_last());
        sorted.insert(insert_pos(sorted, rows.last().started_at) as int, rows.last())
    }
}

/// The `limit` most recent summaries, newest first.
pub open spec fn most_recent(rows: Seq<RunSummary>, limit: nat) -> Seq<RunSummary> {
    let sorted = newest_first(rows);
    if limit <= sorted.len() {
        sorted.take(limit as int)
    } else {
        sorted
    }
}

/// Whether summaries are ordered newest first by start time.
pub open spec fn is_newest_first(s: Seq<RunSummary>) -> bool {
    forall|i: int, j: int| 0 <= i < j < s.len() ==> s[i].started_at >= s[j].started_at
}

proof fn lemma_first_index_found(rows: Seq<RunSummary>, id: RunId, k: int)
    requires
        0 <= k < rows.len(),
        rows[k].id == id,
        forall|j: int| 0 <= j < k ==> rows[j].id != id,
    ensures
        first_index(rows, id) == Some(k),
    decreases rows.len(),
{
    if k > 0 {
        let rest = rows.drop_first();
        assert forall|j: int| 0 <= j < k - 1 implies rest[j].id != id by {
            assert(rest[j] == rows[j + 1]);
        }
        lemma_first_index_found(rest, id, k - 1);
    }
}

proof fn lemma_first_index_absent(rows: Seq<RunSummary>, id: RunId)
    requires
        forall|j: int| 0 <= j < rows.len() ==> rows[j].id != id,
    ensures
        first_index(rows, id) is None,
    decreases rows.len(),
{
    if rows.len() > 0 {
        let rest = rows.drop_first();
        assert forall|j: int| 0 <= j < rest.len() implies rest[j].id != id by {
            assert(rest[j] == rows[j + 1]);
        }
        lemma_first_index_absent(rest, id);
    }
}

proof fn lemma_first_index_spec(rows: Seq<RunSummary>, id: RunId)
    ensures
        first_index(rows, id) is Some ==> {
            let k = first_index(rows, id)->0;
            &&& 0 <= k < rows.len()
            &&& rows[k].id == id
            &&& forall|j: int| 0 <= j < k ==> rows[j].id != id
        },
        first_index(rows, id) is None ==> forall|j: int| 0 <= j < rows.len() ==> rows[j].id != id,
    decreases rows.len(),
{
    if rows.len() > 0 {
        let rest = rows.drop_first();
        lemma_first_index_spec(rest, id);
        assert forall|j: int| 1 <= j < rows.len() implies rows[j] == rest[j - 1] by {}
    }
}

proof fn lemma_insert_pos_step(s: Seq<RunSummary>, p: int, t: i128)
    requires
        0 <= p < s.len(),
        s[p].started_at >= t,
    ensures
        insert_pos(s.subrange(p, s.len() as int), t) == 1 + insert_pos(
            s.subrange(p + 1, s.len() as int),
            t,
        ),
{
    assert(s.subrange(p, s.len() as int).drop_first() =~= s.subrange(p + 1, s.len() as int));
}

proof fn lemma_insert_pos_bounds(s: Seq<RunSummary>, t: i128)
    ensures
        insert_pos(s, t) <= s.len(),
        forall|j: int| 0 <= j < insert_pos(s, t) ==> s[j].started_at >= t,
        insert_pos(s, t) < s.len() ==> s[insert_pos(s, t) as int].started_at < t,
    decreases s.len(),
{
    if s.len() > 0 && s[0].started_at >= t {
        let rest = s.drop_first();
        lemma_insert_pos_bounds(rest, t);
        assert forall|j: int| 1 <= j < s.len() implies s[j] == rest[j - 1] by {}
    }
}

/// Listing newest first orders summaries by start time, latest first.
pub proof fn lemma_newest_first_is_ordered(rows: Seq<RunSummary>)
    ensures
        is_newest_first(newest_first(rows)),
    decreases rows.len(),
{
    if rows.len() > 0 {
        let sorted = newest_first(rows.drop_last());
        lemma_newest_first_is_ordered(rows.drop_last());
        let x = rows.last();
        let p = insert_pos(sorted, x.started_at) as int;
        lemma_insert_pos_bounds(sorted, x.started_at);
        let r = sorted.insert(p, x);
        assert forall|i: int, j: int| 0 <= i < j < r.len() implies r[i].started_at
            >= r[j].started_at by {
            if j < p {
            } else if j == p {
            } else if i < p {
                assert(r[j] == sorted[j - 1]);
                if p < sorted.len() {
                    assert(sorted[p].started_at >= sorted[j - 1].started_at);
                }
            } else if i == p {
                assert(r[j] == sorted[j - 1]);
                assert(sorted[p].started_at >= sorted[j - 1].started_at);
            } else {
                assert(r[i] == sorted[i - 1]);
                assert(r[j] == sorted[j - 1]);
            }
        }
    }
}

/// Listing newest first neither drops nor adds a summary.
pub proof fn lemma_newest_first_is_permutation(rows: Seq<RunSummary>)
    ensures
        newest_first(rows).to_multiset() == rows.to_multiset(),
        newest_first(rows).len() == rows.len(),
    decreases rows.len(),
{
    broadcast use vstd::seq_lib::to_multiset_insert, vstd::seq_lib::to_multiset_build;

    if rows.len() == 0 {
        assert(rows =~= Seq::<RunSummary>::empty());
    } else {
        let prefix = rows.drop_last();
        let x = rows.last();
        lemma_newest_first_is_permutation(prefix);
        let sorted = newest_first(prefix);
        lemma_insert_pos_bounds(sorted, x.started_at);
        let p = insert_pos(sorted, x.started_at) as int;
        assert(newest_first(rows) == sorted.insert(p, x));
        assert(sorted.insert(p, x).to_multiset() == sorted.to_multiset().insert(x));
        assert(prefix.push(x) =~= rows);
        assert(prefix.push(x).to_multiset() =~= prefix.to_multiset().insert(x));
    }
}

/// Summaries that started at time `t`.
pub open spec fn started_at_time(t: i128) -> spec_fn(RunSummary) -> bool {
    |r: RunSummary| r.started_at == t
}

/// Listing newest first is stable: summaries that started at the same time
/// keep their stored order.
pub proof fn lemma_newest_first_is_stable(rows: Seq<RunSummary>, t: i128)
    ensures
        newest_first(rows).filter(started_at_time(t)) == rows.filter(started_at_time(t)),
    decreases rows.len(),
{
    let p = started_at_time(t);
    if rows.len() == 0 {
        assert(newest_first(rows) =~= rows);
    } else {
        let prefix = rows.drop_last();
        let x = rows.last();
        lemma_newest_first_is_stable(prefix, t);
        lemma_newest_first_is_ordered(prefix);
        let sorted = newest_first(prefix);
        lemma_insert_pos_bounds(sorted, x.started_at);
        let pos = insert_pos(sorted, x.started_at) as int;
        let head = sorted.take(pos);
        let tail = sorted.skip(pos);
        assert(sorted =~= head + tail);
        assert(sorted.insert(pos, x) =~= head.push(x) + tail);
        Seq::filter_distributes_over_add(head, tail, p);
        Seq::filter_distributes_over_add(head.push(x), tail, p);
        head.lemma_filter_push(x, p);
        prefix.lemma_filter_push(x, p);
        assert(prefix.push(x) =~= rows);
        if p(x) {
            assert forall|k: int| 0 <= k < tail.len() implies !p(tail[k]) by {
                assert(tail[k] == sorted[pos + k]);
                if k > 0 {
                    assert(sorted[pos].started_at >= sorted[pos + k].started_at);
                }
            }
            tail.lemma_all_neg_filter_empty(p);
            assert(tail.filter(p) =~= Seq::<RunSummary>::empty());
            assert(head.filter(p) + tail.filter(p) =~= head.filter(p));
            assert(head.filter(p).push(x) + tail.filter(p) =~= head.filter(p).push(x));
        }
    }
}

/// The most recent summaries are never older than one they leave out.
pub proof fn lemma_most_recent_omits_no_newer(rows: Seq<RunSummary>, limit: nat)
    ensures
        forall|i: int, j: int|
            0 <= i < most_recent(rows, limit).len() <= j < newest_first(rows).len() ==> (
            #[trigger] most_recent(rows, limit)[i]).started_at >= (
            #[trigger] newest_first(rows)[j]).started_at,
{
    lemma_newest_first_is_ordered(rows);
    assert forall|i: int, j: int|
        0 <= i < most_recent(rows, limit).len() <= j < newest_first(rows).len() implies (
        #[trigger] most_recent(rows, limit)[i]).started_at >= (
        #[trigger] newest_first(rows)[j]).started_at by {
        assert(most_recent(rows, limit)[i] == newest_first(rows)[i]);
    }
}

/// Storing a summary through `update` makes it the one found for its run.
pub proof fn lemma_update_then_get(rows: Seq<RunSummary>, summary: RunSummary)
    ensures
        find_run(upsert(rows, summary), summary.id) == Some(summary),
{
    lemma_first_index_spec(rows, summary.id);
    let r = upsert(rows, summary);
    match first_index(rows, summary.id) {
        Some(k) => {
            assert forall|j: int| 0 <= j < k implies r[j].id != summary.id by {}
            lemma_first_index_found(r, summary.id, k);
        },
        None => {
            assert forall|j: int| 0 <= j < rows.len() implies r[j].id != summary.id by {}
            lemma_first_index_found(r, summary.id, rows.len() as int);
        },
    }
}

/// Updating a run leaves what is found for every other run unchanged.
pub proof fn lemma_update_keeps_other_runs(rows: Seq<RunSummary>, summary: RunSummary, id: RunId)
    requires
        id != summary.id,
    ensures
        find_run(upsert(rows, summary), id) == find_run(rows, id),
{
    lemma_first_index_spec(rows, id);
    lemma_first_index_spec(rows, summary.id);
    let r = upsert(rows, summary);
    match first_index(rows, id) {
        Some(k) => {
            assert forall|j: int| 0 <= j < k implies r[j].id != id by {}
            lemma_first_index_found(r, id, k);
        },
        None => {
            assert forall|j: int| 0 <= j < r.len() implies r[j].id != id by {}
            lemma_first_index_absent(r, id);
        },
    }
}

/// Updating a stored run replaces it in place: the number of rows is kept;
/// updating a new run appends one row.
pub proof fn lemma_update_len(rows: Seq<RunSummary>, summary: RunSummary)
    ensures
        find_run(rows, summary.id) is Some ==> upsert(rows, summary).len() == rows.len(),
        find_run(rows, summary.id) is None ==> upsert(rows, summary).len() == rows.len() + 1,
{
    lemma_first_index_spec(rows, summary.id);
}

/// The most recent summaries are at most `limit`, and all of them when fewer
/// are stored.
pub proof fn lemma_most_recent_len(rows: Seq<RunSummary>, limit: nat)
    ensures
        most_recent(rows, limit).len() == if limit <= rows.len() {
            limit
        } else {
            rows.len()
        },
{
    lemma_newest_first_is_permutation(rows);
}

/// Saving a summary of a run not stored yet makes it the one found for its run.
pub proof fn lemma_save_then_get(rows: Seq<RunSummary>, summary: RunSummary)
    requires
        find_run(rows, summary.id) is None,
    ensures
        find_run(rows.push(summary), summary.id) == Some(summary),
{
    lemma_first_index_spec(rows, summary.id);
    let r = rows.push(summary);
    assert forall|j: int| 0 <= j < rows.len() implies r[j].id != summary.id by {}
    lemma_first_index_found(r, summary.id, rows.len() as int);
}

/// When no more summaries are stored than the limit, the most recent ones are
/// all of them.
pub proof fn lemma_recent_lists_all_within_limit(rows: Seq<RunSummary>, limit: nat)
    requires
        rows.len() <= limit,
    ensures
        most_recent(rows, limit).to_multiset() == rows.to_multiset(),
{
    lemma_newest_first_is_permutation(rows);
    if limit == rows.len() {
        assert(newest_first(rows).take(limit as int) =~= newest_first(rows));
    }
}

/// Thread-unsafe in-memory store of run summaries, in insertion order.
pub struct MemoryRunRepository {
    rows: Vec<RunSummary>,
}

impl View for MemoryRunRepository {
    type V = Seq<RunSummary>;

    closed spec fn view(&self) -> Seq<RunSummary> {
        self.rows@
    }
}

impl MemoryRunRepository {
    /// Create an empty repository.
    pub fn new() -> (r: Self)
        ensures
            r@ == Seq::<RunSummary>::empty(),
    {
        MemoryRunRepository { rows: Vec::new() }
    }

    /// Number of stored summaries.
    pub fn len(&self) -> (r: usize)
        ensures
            r == self@.len(),
    {
        self.rows.len()
    }

    /// Whether the repository is empty.
    pub fn is_empty(&self) -> (r: bool)
        ensures
            r == (self@.len() == 0),
    {
        self.rows.len() == 0
    }

    /// Insert a new summary.
    pub fn save(&mut self, summary: &RunSummary)
        ensures
            final(self)@ == old(self)@.push(*summary),
    {
        self.rows.push(*summary);
    }

    /// Update the first stored summary of the same run, or append the summary
    /// when the run is not stored yet.
    pub fn update(&mut self, summary: &RunSummary)
        ensures
            final(self)@ == upsert(old(self)@, *summary),
    {
        let mut i: usize = 0;
        while i < self.rows.len()
            invariant
                i <= self.rows@.len(),
                self.rows@ == old(self)@,
                forall|j: int| 0 <= j < i ==> self.rows@[j].id != summary.id,
            decreases self.rows@.len() - i,
        {
            if self.rows[i].id == summary.id {
                proof {
                    lemma_first_index_found(self.rows@, summary.id, i as int);
                }
                self.rows.set(i, *summary);
                return;
            }
            i = i + 1;
        }
        proof {
            lemma_first_index_absent(self.rows@, summary.id);
        }
        self.rows.push(*summary);
    }

    /// Fetch the summary of run `id` (the first one stored for it).
    pub fn get(&self, id: RunId) -> (r: Option<RunSummary>)
        ensures
            r == find_run(self@, id),
    {
        let mut i: usize = 0;
        while i < self.rows.len()
            invariant
                i <= self.rows@.len(),
                forall|j: int| 0 <= j < i ==> self.rows@[j].id != id,
            decreases self.rows@.len() - i,
        {
            if self.rows[i].id == id {
                proof {
                    lemma_first_index_found(self.rows@, id, i as int);
                }
                return Some(self.rows[i]);
            }
            i = i + 1;
        }
        proof {
            lemma_first_index_absent(self.rows@, id);
        }
        None
    }

    /// List the `limit` most recent summaries, newest first by start time
    /// (summaries that started at the same time keep their stored order).
    pub fn list_recent(&self, limit: usize) -> (r: Vec<RunSummary>)
        ensures
            r@ == most_recent(self@, limit as nat),
    {
        let mut sorted: Vec<RunSummary> = Vec::new();
        let mut i: usize = 0;
        while i < self.rows.len()
            invariant
                i <= self.rows@.len(),
                sorted@ == newest_first(self.rows@.take(i as int)),
            decreases self.rows@.len() - i,
        {
            let row = self.rows[i];
            let mut p: usize = 0;
            proof {
                assert(sorted@.subrange(0, sorted@.len() as int) =~= sorted@);
            }
            while p < sorted.len() && sorted[p].started_at >= row.started_at
                invariant
                    p <= sorted@.len(),
                    insert_pos(sorted@, row.started_at) == p + insert_pos(
                        sorted@.subrange(p as int, sorted@.len() as int),
                        row.started_at,
                    ),
                decreases sorted@.len() - p,
            {
                proof {
                    lemma_insert_pos_step(sorted@, p as int, row.started_at);
                }
                p = p + 1;
            }
            proof {
                assert(sorted@.subrange(0, sorted@.len() as int) =~= sorted@);
                let rest = sorted@.subrange(p as int, sorted@.len() as int);
                assert(insert_pos(rest, row.started_at) == 0);
                let prefix = self.rows@.take(i as int + 1);
                assert(prefix.drop_last() =~= self.rows@.take(i as int));
                assert(prefix.last() == row);
            }
            sorted.insert(p, row);
            i = i + 1;
        }
        proof {
            assert(self.rows@.take(self.rows@.len() as int) =~= self.rows@);
        }
        sorted.truncate(limit);
        sorted
    }
}

impl Default for MemoryRunRepository {
    fn default() -> (r: Self)
        ensures
            r@ == Seq::<RunSummary>::empty(),
    {
        Self::new()
    }
}

} // verus!
