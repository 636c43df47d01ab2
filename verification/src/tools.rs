//! Pre-flight tool availability: the first missing required tool aborts
//! the run with an error naming it.

use vstd::prelude::*;
use crate::FlowError;

verus! {

pub open spec fn spec_all_present(present: Seq<bool>) -> bool {
    forall|i: int| 0 <= i < present.len() ==> present[i]
}

/// Index of the first absent tool, or `present.len()` if all are there.
pub open spec fn spec_first_missing(present: Seq<bool>) -> int
    decreases present.len(),
{
    if present.len() == 0 {
        0
    } else if !present[0] {
        0
    } else {
        1 + spec_first_missing(present.skip(1))
    }
}

proof fn lemma_first_missing_is(present: Seq<bool>, k: int)
    requires
        0 <= k <= present.len(),
        forall|j: int| 0 <= j < k ==> present[j],
        k < present.len() ==> !present[k],
    ensures
        spec_first_missing(present) == k,
    decreases k,
{
    if k == 0 {
    } else {
        lemma_first_missing_is(present.skip(1), k - 1);
    }
}

/// Check the probed presence of each required tool, in order; the first
/// absent one fails the whole run with an error naming it.
pub fn ensure_tools(names: &Vec<String>, present: &Vec<bool>) -> (r: Result<(), FlowError>)
    requires
        names@.len() == present@.len(),
    ensures
        r is Ok <==> spec_all_present(present@),
        !spec_all_present(present@) ==> (r matches Err(FlowError::MissingTool { name })
            && name@ == names@[spec_first_missing(present@)]@),
{
    let n = names.len();
    let mut i: usize = 0;
    while i < n
        invariant
            n == names@.len(),
            n == present@.len(),
            i <= n,
            forall|j: int| 0 <= j < i ==> present@[j],
        decreases n - i,
    {
        if !present[i] {
            proof {
                lemma_first_missing_is(present@, i as int);
                assert(!spec_all_present(present@));
            }
            return Err(FlowError::MissingTool { name: names[i].clone() });
        }
        i += 1;
    }
    proof {
        assert(spec_all_present(present@));
    }
    Ok(())
}

} // verus!
