use vstd::prelude::*;
use crate::entry::MemoryAccessEntry;

verus! {

/// A real read or write: an operation that the counter accounts for.
pub open spec fn counts_toward_rest(e: MemoryAccessEntry) -> bool {
    e.is_real && e.atype.is_mutating_spec()
}

/// The remaining-operations counter at position `p`: the number of real
/// reads and writes at positions `p` and after.
pub open spec fn rest_mops_at(log: Seq<MemoryAccessEntry>, p: nat) -> nat
    decreases log.len() - p,
{
    if p >= log.len() {
        0
    } else {
        (if counts_toward_rest(log[p as int]) {
            1nat
        } else {
            0nat
        }) + rest_mops_at(log, p + 1)
    }
}

/// The counter never exceeds the number of positions left.
pub proof fn lemma_rest_mops_bound(log: Seq<MemoryAccessEntry>, p: nat)
    requires
        p <= log.len(),
    ensures
        rest_mops_at(log, p) <= log.len() - p,
    decreases log.len() - p,
{
    if p < log.len() {
        lemma_rest_mops_bound(log, p + 1);
    }
}

/// The counter column of `log`: one value per entry, then the value at the
/// end of the log, which is zero.
pub fn compute_rest_mops(log: &Vec<MemoryAccessEntry>) -> (r: Vec<u64>)
    ensures
        r@.len() == log@.len() + 1,
        forall|p: int| 0 <= p <= log@.len() ==> r@[p] == rest_mops_at(log@, p as nat),
{
    let n = log.len();
    let mut r: Vec<u64> = Vec::new();
    while r.len() < n
        invariant
            r@.len() <= n,
            n == log@.len(),
            forall|q: int| 0 <= q < r@.len() ==> r@[q] == 0,
        decreases n - r@.len(),
    {
        r.push(0);
    }
    r.push(0);
    let mut i: usize = n;
    while i > 0
        invariant
            n == log@.len(),
            r@.len() == n + 1,
            i <= n,
            forall|q: int| i <= q <= n ==> r@[q] == rest_mops_at(log@, q as nat),
        decreases i,
    {
        let next = r[i];
        proof {
            lemma_rest_mops_bound(log@, i as nat);
        }
        let here = if log[i - 1].is_real && log[i - 1].atype.is_mutating() {
            next + 1
        } else {
            next
        };
        r.set(i - 1, here);
        i = i - 1;
    }
    r
}

/// Every entry from position `p` on is padding: the counter there is zero.
pub proof fn lemma_rest_zero_after(log: Seq<MemoryAccessEntry>, p: nat)
    requires
        p <= log.len(),
        forall|q: int| p <= q < log.len() ==> !(#[trigger] log[q]).is_real,
    ensures
        rest_mops_at(log, p) == 0,
    decreases log.len() - p,
{
    if p < log.len() {
        lemma_rest_zero_after(log, p + 1);
    }
}

/// The counter rule between an entry, its counter value `rest` and the
/// value `next` at the position after it: zero on a padding row, one more
/// than the next over a real read or write, the same over a real
/// initialisation.
pub open spec fn counter_step_holds(e: MemoryAccessEntry, rest: u64, next: u64) -> bool {
    if !e.is_real {
        rest == 0
    } else if e.atype.is_mutating_spec() {
        rest == next + 1
    } else {
        rest == next
    }
}

/// The counter rules over a whole column: each step holds, and the value
/// just past the log is zero.
pub open spec fn counter_steps_hold(log: Seq<MemoryAccessEntry>, rest_mops: Seq<u64>) -> bool {
    &&& rest_mops[log.len() as int] == 0
    &&& forall|p: int|
        0 <= p < log.len() ==> #[trigger] counter_step_holds(log[p], rest_mops[p], rest_mops[p + 1])
}

/// Checks the counter rules on each step of the column `rest_mops`.
pub fn check_counter_steps(log: &Vec<MemoryAccessEntry>, rest_mops: &Vec<u64>) -> (r: bool)
    requires
        rest_mops@.len() == log@.len() + 1,
    ensures
        r == counter_steps_hold(log@, rest_mops@),
{
    let n = log.len();
    let mut p: usize = 0;
    while p < n
        invariant
            n == log@.len(),
            rest_mops@.len() == n + 1,
            p <= n,
            forall|q: int|
                0 <= q < p ==> #[trigger] counter_step_holds(log@[q], rest_mops@[q], rest_mops@[q + 1]),
        decreases n - p,
    {
        let e = &log[p];
        let (rest, next) = (rest_mops[p], rest_mops[p + 1]);
        let ok = if !e.is_real {
            rest == 0
        } else if e.atype.is_mutating() {
            rest > 0 && rest - 1 == next
        } else {
            rest == next
        };
        if !ok {
            assert(!counter_step_holds(log@[p as int], rest_mops@[p as int], rest_mops@[p + 1]));
            return false;
        }
        p = p + 1;
    }
    rest_mops[n] == 0
}

/// On a log whose real entries come first, the counter rules hold on a
/// column exactly when each of its values is the number of real reads and
/// writes from that position on.
pub proof fn lemma_counter_steps_exact(log: Seq<MemoryAccessEntry>, rest_mops: Seq<u64>)
    requires
        rest_mops.len() == log.len() + 1,
        forall|i: int, j: int| 0 <= i < j < log.len() && (#[trigger] log[j]).is_real ==> (
        #[trigger] log[i]).is_real,
    ensures
        counter_steps_hold(log, rest_mops) <==> forall|p: int|
            0 <= p <= log.len() ==> #[trigger] rest_mops[p] == rest_mops_at(log, p as nat),
{
    let n = log.len() as int;
    assert forall|p: int| 0 <= p < n && !(#[trigger] log[p]).is_real implies rest_mops_at(
        log,
        p as nat,
    ) == 0 by {
        assert forall|q: int| p <= q < n implies !(#[trigger] log[q]).is_real by {
            if q > p && log[q].is_real {
                assert(log[p].is_real);
            }
        }
        lemma_rest_zero_after(log, p as nat);
    }
    if counter_steps_hold(log, rest_mops) {
        assert forall|p: int| 0 <= p <= n implies #[trigger] rest_mops[p] == rest_mops_at(
            log,
            p as nat,
        ) by {
            lemma_steps_from(log, rest_mops, p);
        }
    }
    if forall|p: int| 0 <= p <= n ==> #[trigger] rest_mops[p] == rest_mops_at(log, p as nat) {
        assert(rest_mops[n] == rest_mops_at(log, n as nat));
        assert forall|p: int| 0 <= p < n implies #[trigger] counter_step_holds(
            log[p],
            rest_mops[p],
            rest_mops[p + 1],
        ) by {
            assert(rest_mops[p] == rest_mops_at(log, p as nat));
            assert(rest_mops[p + 1] == rest_mops_at(log, (p + 1) as nat));
        }
    }
}

proof fn lemma_steps_from(log: Seq<MemoryAccessEntry>, rest_mops: Seq<u64>, p: int)
    requires
        rest_mops.len() == log.len() + 1,
        counter_steps_hold(log, rest_mops),
        forall|q: int| 0 <= q < log.len() && !(#[trigger] log[q]).is_real ==> rest_mops_at(
            log,
            q as nat,
        ) == 0,
        0 <= p <= log.len(),
    ensures
        rest_mops[p] == rest_mops_at(log, p as nat),
    decreases log.len() - p,
{
    if p < log.len() {
        lemma_steps_from(log, rest_mops, p + 1);
        assert(counter_step_holds(log[p], rest_mops[p], rest_mops[p + 1]));
    }
}

} // verus!
