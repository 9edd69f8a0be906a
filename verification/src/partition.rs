//! Work partitioning: a single monotone cursor hands out unique indices
//! into the discovered link sequence until it is exhausted.

use vstd::prelude::*;

verus! {

/// One claim against a cursor over `limit` items: the value returned and
/// the cursor afterwards.
pub open spec fn spec_claim(cursor: nat, limit: nat) -> (Option<nat>, nat) {
    if cursor < limit {
        (Some(cursor), cursor + 1)
    } else {
        (None, cursor)
    }
}

/// The results of `n` successive claims starting from `cursor`.
pub open spec fn spec_claims(cursor: nat, limit: nat, n: nat) -> Seq<Option<nat>>
    decreases n,
{
    if n == 0 {
        Seq::empty()
    } else {
        seq![spec_claim(cursor, limit).0] + spec_claims(
            spec_claim(cursor, limit).1,
            limit,
            (n - 1) as nat,
        )
    }
}

proof fn lemma_claims_from(cursor: nat, limit: nat, n: nat)
    requires
        cursor + n <= limit,
    ensures
        spec_claims(cursor, limit, n).len() == n,
        forall|i: int| 0 <= i < n ==> spec_claims(cursor, limit, n)[i] == Some((cursor + i) as nat),
    decreases n,
{
    if n > 0 {
        lemma_claims_from(cursor + 1, limit, (n - 1) as nat);
        let rest = spec_claims(cursor + 1, limit, (n - 1) as nat);
        assert(forall|i: int|
            1 <= i < n ==> spec_claims(cursor, limit, n)[i] == rest[i - 1]);
    }
}

/// Law: starting from a fresh cursor over `n` items, `n` claims return each
/// index in `[0, n)` exactly once, with no duplicates and no gaps.
pub proof fn lemma_claims_cover_all(n: nat)
    ensures
        spec_claims(0, n, n).len() == n,
        forall|i: int| 0 <= i < n ==> spec_claims(0, n, n)[i] == Some(i as nat),
        forall|i: int, j: int| 0 <= i < j < n ==> spec_claims(0, n, n)[i] != spec_claims(
            0,
            n,
            n,
        )[j],
{
    lemma_claims_from(0, n, n);
}

/// Law: once the cursor has reached the limit, every further claim is
/// exhausted.
pub proof fn lemma_exhausted_claims_none(limit: nat, n: nat)
    ensures
        spec_claims(limit, limit, n).len() == n,
        forall|i: int| 0 <= i < n ==> spec_claims(limit, limit, n)[i] == None::<nat>,
    decreases n,
{
    if n > 0 {
        lemma_exhausted_claims_none(limit, (n - 1) as nat);
        let rest = spec_claims(limit, limit, (n - 1) as nat);
        assert(forall|i: int|
            1 <= i < n ==> spec_claims(limit, limit, n)[i] == rest[i - 1]);
    }
}

/// Hands out unique indices into the discovered link sequence. The cursor
/// only ever moves forward, so no index is claimed twice and none is
/// skipped.
pub struct WorkPartitioner {
    cursor: usize,
    limit: usize,
}

impl WorkPartitioner {
    /// The next index to hand out.
    pub closed spec fn spec_cursor(&self) -> nat {
        self.cursor as nat
    }

    /// The size of the discovered set being partitioned.
    pub closed spec fn spec_limit(&self) -> nat {
        self.limit as nat
    }

    /// The cursor never runs past the limit.
    pub open spec fn wf(&self) -> bool {
        self.spec_cursor() <= self.spec_limit()
    }

    /// A fresh partitioner over `limit` items, with nothing claimed yet.
    pub fn new(limit: usize) -> (p: WorkPartitioner)
        ensures
            p.wf(),
            p.spec_cursor() == 0,
            p.spec_limit() == limit as nat,
    {
        WorkPartitioner { cursor: 0, limit }
    }

    /// Claim the next unclaimed index, or report exhaustion once every
    /// index has been handed out.
    pub fn claim(&mut self) -> (r: Option<usize>)
        requires
            old(self).wf(),
        ensures
            final(self).wf(),
            final(self).spec_limit() == old(self).spec_limit(),
            (match r {
                Some(i) => Some(i as nat),
                None => None,
            }, final(self).spec_cursor()) == spec_claim(
                old(self).spec_cursor(),
                old(self).spec_limit(),
            ),
    {
        if self.cursor < self.limit {
            let i = self.cursor;
            self.cursor = self.cursor + 1;
            Some(i)
        } else {
            None
        }
    }

    /// How many indices have been handed out so far.
    pub fn claimed(&self) -> (r: usize)
        ensures
            r as nat == self.spec_cursor(),
    {
        self.cursor
    }
}

} // verus!
