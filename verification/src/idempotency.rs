//! The idempotency guard: a log of which (order, operation) pairs have
//! already been applied to the inventory.
//!
//! The transport delivers every message at least once, so the saga must
//! recognise a redelivered trigger. A record under a key means that the
//! corresponding aggregate mutation has already been durably applied;
//! the recorded timestamp lets the saga re-emit the original outcome
//! unchanged. At most one record exists per key.

use vstd::prelude::*;

verus! {

/// The kind of inventory mutation an idempotency record stands for.
#[derive(Clone, Copy, Debug, PartialEq, Eq, Structural)]
pub enum OperationKind {
    Reserve,
    Release,
    Confirm,
}

/// One applied (order, operation) pair and when it was applied.
pub struct IdempotencyRecord {
    pub order_id: String,
    pub kind: OperationKind,
    pub applied_at: i64,
}

/// The key under which a record is found.
pub open spec fn key_of(r: IdempotencyRecord) -> (Seq<char>, OperationKind) {
    (r.order_id@, r.kind)
}

/// The map that a sequence of records stands for: key to applied-at time.
pub open spec fn log_map(records: Seq<IdempotencyRecord>) -> Map<
    (Seq<char>, OperationKind),
    i64,
>
    decreases records.len(),
{
    if records.len() == 0 {
        Map::empty()
    } else {
        log_map(records.drop_last()).insert(key_of(records.last()), records.last().applied_at)
    }
}

/// A key is in the map exactly when some record carries it.
proof fn lemma_log_map_contains(records: Seq<IdempotencyRecord>, k: (Seq<char>, OperationKind))
    ensures
        log_map(records).contains_key(k) <==> exists|i: int|
            0 <= i < records.len() && key_of(records[i]) == k,
    decreases records.len(),
{
    if records.len() > 0 {
        lemma_log_map_contains(records.drop_last(), k);
        if log_map(records).contains_key(k) {
            if key_of(records.last()) == k {
                assert(key_of(records[records.len() - 1]) == k);
            } else {
                let i = choose|i: int|
                    0 <= i < records.drop_last().len() && key_of(records.drop_last()[i]) == k;
                assert(key_of(records[i]) == k);
            }
        }
        if exists|i: int| 0 <= i < records.len() && key_of(records[i]) == k {
            let i = choose|i: int| 0 <= i < records.len() && key_of(records[i]) == k;
            if i < records.len() - 1 {
                assert(key_of(records.drop_last()[i]) == k);
            }
        }
    }
}

/// Under unique keys, the map sends each record's key to its timestamp.
proof fn lemma_log_map_value(records: Seq<IdempotencyRecord>, i: int)
    requires
        0 <= i < records.len(),
        forall|p: int, q: int|
            0 <= p < q < records.len() ==> key_of(records[p]) != key_of(records[q]),
    ensures
        log_map(records).contains_key(key_of(records[i])),
        log_map(records)[key_of(records[i])] == records[i].applied_at,
    decreases records.len(),
{
    if i == records.len() - 1 {
        assert(records[i] == records.last());
    } else {
        lemma_log_map_value(records.drop_last(), i);
        assert(records.drop_last()[i] == records[i]);
        assert(key_of(records[i]) != key_of(records[records.len() - 1]));
    }
}

/// The idempotency log itself, a set of records with pairwise distinct
/// keys. Its view is the map from keys to applied-at times.
pub struct IdempotencyLog {
    pub records: Vec<IdempotencyRecord>,
}

impl View for IdempotencyLog {
    type V = Map<(Seq<char>, OperationKind), i64>;

    open spec fn view(&self) -> Map<(Seq<char>, OperationKind), i64> {
        log_map(self.records@)
    }
}

impl IdempotencyLog {
    /// No two records share a key.
    pub open spec fn wf(&self) -> bool {
        forall|p: int, q: int|
            0 <= p < q < self.records@.len() ==> key_of(self.records@[p]) != key_of(
                self.records@[q],
            )
    }

    pub fn new() -> (r: Self)
        ensures
            r.wf(),
            r@ == Map::<(Seq<char>, OperationKind), i64>::empty(),
    {
        IdempotencyLog { records: Vec::new() }
    }

    /// Look up when the (order, operation) pair was applied, if it was.
    pub fn lookup(&self, order_id: &String, kind: OperationKind) -> (r: Option<i64>)
        requires
            self.wf(),
        ensures
            match r {
                Some(at) => self@.contains_key((order_id@, kind)) && self@[(order_id@, kind)]
                    == at,
                None => !self@.contains_key((order_id@, kind)),
            },
    {
        let n = self.records.len();
        let mut i: usize = 0;
        while i < n
            invariant
                n == self.records@.len(),
                0 <= i <= n,
                self.wf(),
                forall|j: int| 0 <= j < i ==> key_of(self.records@[j]) != (order_id@, kind),
            decreases n - i,
        {
            let rec = &self.records[i];
            if rec.kind == kind && rec.order_id == *order_id {
                proof {
                    lemma_log_map_value(self.records@, i as int);
                }
                return Some(rec.applied_at);
            }
            i = i + 1;
        }
        proof {
            lemma_log_map_contains(self.records@, (order_id@, kind));
        }
        None
    }

    /// Record that the (order, operation) pair has been applied now.
    pub fn record(&mut self, order_id: &String, kind: OperationKind, applied_at: i64)
        requires
            old(self).wf(),
            !old(self)@.contains_key((order_id@, kind)),
        ensures
            final(self).wf(),
            final(self)@ == old(self)@.insert((order_id@, kind), applied_at),
    {
        proof {
            lemma_log_map_contains(old(self).records@, (order_id@, kind));
        }
        let rec = IdempotencyRecord { order_id: order_id.clone(), kind, applied_at };
        self.records.push(rec);
        proof {
            assert(self.records@.drop_last() == old(self).records@);
        }
    }
}

} // verus!
