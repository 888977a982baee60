//! Selecting which stray capture processes to terminate. Finding candidate
//! process ids and killing them is the host's work (it shells out for both);
//! the decision of which ids may be killed is made here.

use vstd::prelude::*;

verus! {

/// Cleans up orphaned capture processes left behind by earlier runs.
pub struct AndroidCleaner;

/// Whether `v` occurs in `s`.
pub open spec fn seq_has(s: Seq<u32>, v: u32) -> bool {
    exists|i: int| 0 <= i < s.len() && s[i] == v
}

/// The process ids that may be killed: those found that are neither exempt
/// nor already selected — every survivor is a non-exempt found id, kept once
/// in first-seen order.
pub open spec fn spec_kill_list(found: Seq<u32>, exempt: Seq<u32>) -> Seq<u32>
    decreases found.len(),
{
    if found.len() == 0 {
        Seq::empty()
    } else {
        let rest = spec_kill_list(found.drop_last(), exempt);
        if seq_has(exempt, found.last()) || seq_has(found.drop_last(), found.last()) {
            rest
        } else {
            rest.push(found.last())
        }
    }
}

impl AndroidCleaner {
    /// A new cleaner instance.
    pub fn new() -> (r: Self) {
        AndroidCleaner
    }

    /// From the process ids the host found, keep each id once and drop every
    /// exempt one: the result is exactly the kill list, and never contains an
    /// exempt id.
    pub fn pids_to_kill(&self, found: &Vec<u32>, exempt: &Vec<u32>) -> (r: Vec<u32>)
        ensures
            r@ == spec_kill_list(found@, exempt@),
            forall|i: int| 0 <= i < r@.len() ==> !seq_has(exempt@, r@[i]),
    {
        let mut out: Vec<u32> = Vec::new();
        let mut k: usize = 0;
        proof {
            assert(found@.take(0) =~= Seq::<u32>::empty());
        }
        while k < found.len()
            invariant
                k <= found@.len(),
                out@ == spec_kill_list(found@.take(k as int), exempt@),
                forall|i: int| 0 <= i < out@.len() ==> !seq_has(exempt@, out@[i]),
            decreases found@.len() - k,
        {
            let pid = found[k];
            let exempted = contains_pid(exempt, pid);
            let seen = contains_prefix(found, k, pid);
            proof {
                assert(found@.take(k + 1).drop_last() =~= found@.take(k as int));
                assert(found@.take(k + 1).last() == pid);
            }
            if !exempted && !seen {
                out.push(pid);
            }
            k = k + 1;
        }
        proof {
            assert(found@.take(found@.len() as int) =~= found@);
        }
        out
    }
}

/// Whether `pid` occurs in `v`.
fn contains_pid(v: &Vec<u32>, pid: u32) -> (r: bool)
    ensures
        r == seq_has(v@, pid),
{
    let mut i: usize = 0;
    while i < v.len()
        invariant
            i <= v@.len(),
            forall|j: int| 0 <= j < i ==> v@[j] != pid,
        decreases v@.len() - i,
    {
        if v[i] == pid {
            return true;
        }
        i = i + 1;
    }
    false
}

/// Whether `pid` occurs among the first `n` elements of `v`.
fn contains_prefix(v: &Vec<u32>, n: usize, pid: u32) -> (r: bool)
    requires
        n <= v@.len(),
    ensures
        r == seq_has(v@.take(n as int), pid),
{
    let mut i: usize = 0;
    while i < n
        invariant
            i <= n <= v@.len(),
            forall|j: int| 0 <= j < i ==> v@[j] != pid,
        decreases n - i,
    {
        if v[i] == pid {
            proof {
                assert(v@.take(n as int)[i as int] == pid);
            }
            return true;
        }
        i = i + 1;
    }
    proof {
        assert forall|j: int| 0 <= j < n implies v@.take(n as int)[j] != pid by {}
    }
    false
}

} // verus!
