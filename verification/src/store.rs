use vstd::prelude::*;
use crate::like::like_match;
use crate::like::like_matches;
use crate::project::LogRow;
use crate::query::FilterView;
use crate::query::QueryFilter;
use crate::text::lex_lt;
use crate::text::str_less;

verus! {

/// The conjunction a structured filter asks of a row: exact key match,
/// `LIKE` match on the value, timestamp strictly after `from` and strictly
/// before `to` — each conjunct only when its field is present.
pub open spec fn row_matches(f: FilterView, r: LogRow) -> bool {
    (f.key is Some ==> r.key@ == f.key->0) && (f.value_like is Some ==> like_matches(
        f.value_like->0,
        r.value@,
    )) && (f.from is Some ==> lex_lt(f.from->0, r.timestamp@)) && (f.to is Some ==> lex_lt(
        r.timestamp@,
        f.to->0,
    ))
}

/// Exactly the rows that satisfy the conjunction of a filter's supplied
/// predicates, in table order.
pub open spec fn matching_rows(rows: Seq<LogRow>, f: FilterView) -> Seq<LogRow> {
    rows.filter(|r: LogRow| row_matches(f, r))
}

/// Whether one row satisfies a structured filter.
pub fn row_satisfies(filter: &QueryFilter, r: &LogRow) -> (b: bool)
    ensures
        b == row_matches(filter@, *r),
{
    if let Option::Some(k) = &filter.key {
        if !(*k == r.key) {
            return false;
        }
    }
    if let Option::Some(p) = &filter.value_like {
        if !like_match(p.as_str(), r.value.as_str()) {
            return false;
        }
    }
    if let Option::Some(from) = &filter.from {
        if !str_less(from.as_str(), r.timestamp.as_str()) {
            return false;
        }
    }
    if let Option::Some(to) = &filter.to {
        if !str_less(r.timestamp.as_str(), to.as_str()) {
            return false;
        }
    }
    true
}

/// The in-memory model of the append-only `logs` table: rows in insertion
/// order, each under a monotonically increasing unique id assigned at
/// insert, never mutated afterwards. It fixes the meaning of the statements
/// the library builds, and serves the tests as an executable oracle.
pub struct LogTable {
    pub rows: Vec<LogRow>,
    pub next_id: i64,
}

impl LogTable {
    /// Well-formedness: every stored id lies below the id counter, and ids
    /// strictly increase in table order.
    pub open spec fn wf(self) -> bool {
        (forall|i: int|
            0 <= i < self.rows@.len() ==> #[trigger] self.rows@[i].id < self.next_id) && (forall|
            i: int,
            j: int,
        |
            #![trigger self.rows@[i].id, self.rows@[j].id]
            0 <= i < j < self.rows@.len() ==> self.rows@[i].id < self.rows@[j].id)
    }

    /// An empty table, with ids starting from one as the storage engine's
    /// auto-increment does.
    pub fn new() -> (t: LogTable)
        ensures
            t.wf(),
            t.rows@.len() == 0,
            t.next_id == 1,
    {
        LogTable { rows: Vec::new(), next_id: 1 }
    }

    /// Appends exactly one row, immutable once written, under a freshly
    /// assigned id; no existing row changes.
    pub fn insert(&mut self, key: String, value: String, timestamp: String) -> (id: i64)
        requires
            old(self).wf(),
            old(self).next_id < i64::MAX,
        ensures
            final(self).wf(),
            id == old(self).next_id,
            final(self).next_id == old(self).next_id + 1,
            final(self).rows@ == old(self).rows@.push(
                (LogRow { id: old(self).next_id, key: key, value: value, timestamp: timestamp }),
            ),
    {
        let id = self.next_id;
        self.next_id = self.next_id + 1;
        self.rows.push(LogRow { id, key, value, timestamp });
        proof {
            let r = self.rows@;
            assert forall|i: int| 0 <= i < r.len() implies #[trigger] r[i].id < self.next_id by {
                if i < r.len() - 1 {
                    assert(r[i] == old(self).rows@[i]);
                }
            }
            assert forall|i: int, j: int|
                #![trigger r[i].id, r[j].id]
                0 <= i < j < r.len() implies r[i].id < r[j].id by {
                assert(r[i] == old(self).rows@[i]);
                if j < r.len() - 1 {
                    assert(r[j] == old(self).rows@[j]);
                }
            }
        }
        id
    }

    /// Returns exactly the rows satisfying the conjunction of the filter's
    /// supplied predicates, in table order; the whole result is materialized,
    /// with no limit.
    pub fn select(&self, filter: &QueryFilter) -> (out: Vec<LogRow>)
        ensures
            out@ == matching_rows(self.rows@, filter@),
    {
        let mut out: Vec<LogRow> = Vec::new();
        let n = self.rows.len();
        let mut i: usize = 0;
        while i < n
            invariant
                i <= n,
                n == self.rows@.len(),
                out@ == matching_rows(self.rows@.subrange(0, i as int), filter@),
            decreases n - i,
        {
            let r = &self.rows[i];
            let m = row_satisfies(filter, r);
            proof {
                reveal(Seq::filter);
                let prefix = self.rows@.subrange(0, i as int);
                let extended = self.rows@.subrange(0, i + 1 as int);
                assert(extended.drop_last() =~= prefix);
                assert(extended.last() == self.rows@[i as int]);
            }
            if m {
                out.push(r.duplicate());
            }
            i = i + 1;
        }
        proof {
            assert(self.rows@.subrange(0, n as int) =~= self.rows@);
        }
        out
    }
}

/// A filter with no supplied fields matches every row: the unfiltered query
/// returns the whole table.
pub proof fn lemma_empty_filter_matches_all(rows: Seq<LogRow>, f: FilterView)
    requires
        f.key is None,
        f.value_like is None,
        f.from is None,
        f.to is None,
    ensures
        matching_rows(rows, f) == rows,
    decreases rows.len(),
{
    reveal(Seq::filter);
    if rows.len() == 0 {
        assert(matching_rows(rows, f) =~= rows);
    } else {
        lemma_empty_filter_matches_all(rows.drop_last(), f);
        assert(row_matches(f, rows.last()));
        assert(matching_rows(rows, f) =~= rows.drop_last().push(rows.last()));
        assert(rows.drop_last().push(rows.last()) =~= rows);
    }
}

/// A row just inserted is visible to a subsequent unfiltered query, which
/// returns every earlier row as well — a superset — and the new row carries a
/// fresh id that no earlier row has.
pub proof fn lemma_insert_then_query(pre: LogTable, post: LogTable, row: LogRow, f: FilterView)
    requires
        pre.wf(),
        row.id == pre.next_id,
        post.rows@ == pre.rows@.push(row),
        f.key is None,
        f.value_like is None,
        f.from is None,
        f.to is None,
    ensures
        matching_rows(post.rows@, f) == pre.rows@.push(row),
        matching_rows(post.rows@, f).contains(row),
        forall|i: int|
            0 <= i < pre.rows@.len() ==> matching_rows(post.rows@, f).contains(
                #[trigger] pre.rows@[i],
            ),
        forall|i: int| 0 <= i < pre.rows@.len() ==> #[trigger] pre.rows@[i].id != row.id,
{
    lemma_empty_filter_matches_all(post.rows@, f);
    assert(post.rows@[post.rows@.len() - 1] == row);
    assert(post.rows@.contains(row));
    assert forall|i: int| 0 <= i < pre.rows@.len() implies matching_rows(post.rows@, f).contains(
        #[trigger] pre.rows@[i],
    ) by {
        assert(matching_rows(post.rows@, f)[i] == pre.rows@[i]);
    }
}

/// Every pair of rows in a well-formed table carries distinct ids: no two
/// inserts share one, and no write is lost to another's id.
pub proof fn lemma_ids_distinct(t: LogTable)
    requires
        t.wf(),
    ensures
        forall|i: int, j: int|
            #![trigger t.rows@[i].id, t.rows@[j].id]
            0 <= i < t.rows@.len() && 0 <= j < t.rows@.len() && i != j ==> t.rows@[i].id
                != t.rows@[j].id,
{
    assert forall|i: int, j: int|
        #![trigger t.rows@[i].id, t.rows@[j].id]
        0 <= i < t.rows@.len() && 0 <= j < t.rows@.len() && i != j implies t.rows@[i].id
        != t.rows@[j].id by {
        if i < j {
            assert(t.rows@[i].id < t.rows@[j].id);
        } else {
            assert(t.rows@[j].id < t.rows@[i].id);
        }
    }
}

} // verus!
