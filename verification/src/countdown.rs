//! The coalesced countdown plan for delayed captures: one early
//! notification covering everything beyond ten seconds, then one per
//! second for the final stretch.

use vstd::prelude::*;

verus! {

/// The per-second tail of a countdown: `(n, 1), (n-1, 1), ..., (1, 1)`,
/// each pair an announced remaining count and the wait that follows it.
pub open spec fn spec_descending(n: int) -> Seq<(u64, u64)>
    decreases n,
{
    if n <= 0 {
        Seq::empty()
    } else {
        seq![(n as u64, 1u64)] + spec_descending(n - 1)
    }
}

/// The full countdown plan for `secs` seconds: beyond ten seconds a
/// single announcement of the whole remaining time followed by one long
/// wait down to ten, then the per-second tail.
pub open spec fn spec_countdown(secs: u64) -> Seq<(u64, u64)> {
    if secs == 0 {
        Seq::empty()
    } else if secs > 10 {
        seq![(secs, (secs - 10) as u64)] + spec_descending(10)
    } else {
        spec_descending(secs as int)
    }
}

pub proof fn lemma_descending_index(n: int)
    ensures
        spec_descending(n).len() == if n <= 0 {
            0
        } else {
            n
        },
        forall|i: int| 0 <= i < n ==> spec_descending(n)[i] == ((n - i) as u64, 1u64),
    decreases n,
{
    if n > 0 {
        lemma_descending_index(n - 1);
    }
}

/// Coalescing: a countdown over ten seconds announces exactly eleven
/// times, a shorter one once per remaining second.
pub proof fn lemma_countdown_coalescing(secs: u64)
    ensures
        secs == 0 ==> spec_countdown(secs).len() == 0,
        0 < secs <= 10 ==> spec_countdown(secs).len() == secs,
        secs > 10 ==> spec_countdown(secs).len() == 11,
        secs > 10 ==> spec_countdown(secs)[0] == (secs, (secs - 10) as u64),
{
    lemma_descending_index(10);
    lemma_descending_index(secs as int);
}

/// The countdown plan: each entry announces a remaining count and is
/// followed by a wait of the paired number of seconds.
pub fn countdown(secs: u64) -> (plan: Vec<(u64, u64)>)
    ensures
        plan@ == spec_countdown(secs),
{
    let mut plan: Vec<(u64, u64)> = Vec::new();
    if secs == 0 {
        assert(plan@ =~= spec_countdown(secs));
        return plan;
    }
    let start: u64 = if secs > 10 {
        plan.push((secs, secs - 10));
        10
    } else {
        secs
    };
    let ghost head = plan@;
    let mut k: u64 = start;
    proof {
        lemma_descending_index(start as int);
        assert(plan@ =~= head + spec_descending(start as int).take(0));
    }
    while k > 0
        invariant
            k <= start,
            spec_descending(start as int).len() == start,
            forall|i: int|
                0 <= i < start ==> spec_descending(start as int)[i] == ((start - i) as u64, 1u64),
            plan@ == head + spec_descending(start as int).take(start - k),
        decreases k,
    {
        plan.push((k, 1));
        proof {
            assert(spec_descending(start as int)[start - k] == (k, 1u64));
            assert(spec_descending(start as int).take(start - k + 1) =~= spec_descending(
                start as int,
            ).take(start - k).push((k, 1u64)));
            assert(plan@ =~= head + spec_descending(start as int).take(start - k + 1));
        }
        k -= 1;
    }
    proof {
        assert(spec_descending(start as int).take(start as int) =~= spec_descending(start as int));
        if secs > 10 {
            assert(plan@ =~= spec_countdown(secs));
        } else {
            assert(head =~= Seq::<(u64, u64)>::empty());
            assert(plan@ =~= spec_countdown(secs));
        }
    }
    plan
}

} // verus!
