//! The reorg-aware height resolver.
//!
//! Given a candidate height, the resolver decides the highest height at which
//! the locally recorded blockhash still matches the remote chain. A candidate
//! more than six blocks under the remote tip is assumed final and returned
//! unchanged without consulting any hash. Otherwise the resolver walks
//! backward from the candidate until the recorded and remote hashes match,
//! reaching height zero in the worst case; a missing local record on the way
//! is a gap in ledger history and is surfaced as an error, never taken for a
//! match.

use vstd::prelude::*;
use crate::store::bytes_eq;
use crate::tip::opt_bytes_view;

verus! {

/// Whether a candidate sits in deep history: more than six blocks under the
/// remote tip, where reorgs are not expected.
pub open spec fn deep_history(candidate: u32, remote_tip: u32) -> bool {
    (candidate as int) < (remote_tip as int) - 6
}

/// The backward walk from height `h`: the first height at which the recorded
/// hash matches the remote one, zero when the walk exhausts the chain, or an
/// error naming the first height whose local record is missing.
pub open spec fn walk(h: int, local: Seq<Option<Seq<u8>>>, remote: Seq<Seq<u8>>) -> Result<
    u32,
    u32,
>
    recommends
        0 <= h < local.len(),
        h < remote.len(),
    decreases h,
{
    if h <= 0 {
        Ok(0)
    } else if local[h] is None {
        Err(h as u32)
    } else if local[h] == Some(remote[h]) {
        Ok(h as u32)
    } else {
        walk(h - 1, local, remote)
    }
}

/// What resolving a candidate returns: the candidate itself in deep history,
/// else the result of the backward walk.
pub open spec fn resolve_spec(
    candidate: u32,
    remote_tip: u32,
    local: Seq<Option<Seq<u8>>>,
    remote: Seq<Seq<u8>>,
) -> Result<u32, u32> {
    if deep_history(candidate, remote_tip) {
        Ok(candidate)
    } else {
        walk(candidate as int, local, remote)
    }
}

/// The view of recorded hashes indexed by height.
pub open spec fn local_view(s: Seq<Option<Vec<u8>>>) -> Seq<Option<Seq<u8>>> {
    s.map(|i: int, e: Option<Vec<u8>>| opt_bytes_view(e))
}

/// The view of remote hashes indexed by height.
pub open spec fn remote_view(s: Seq<Vec<u8>>) -> Seq<Seq<u8>> {
    s.map(|i: int, e: Vec<u8>| e@)
}

/// One resolver decision, handed to the driver that fetches hashes.
pub enum Resolution {
    /// The safe height is settled.
    Resolved(u32),
    /// The hashes at this height must be compared next.
    Compare(u32),
    /// The ledger has no record at this height: a gap in history.
    MissingLocal(u32),
}

/// Starts a resolution: a deep-history candidate is settled at once, a
/// candidate of zero has nothing to compare, and any other candidate asks for
/// its hashes.
pub fn resolve_start(candidate: u32, remote_tip: u32) -> (r: Resolution)
    ensures
        deep_history(candidate, remote_tip) ==> r == Resolution::Resolved(candidate),
        !deep_history(candidate, remote_tip) && candidate == 0 ==> r == Resolution::Resolved(0u32),
        !deep_history(candidate, remote_tip) && candidate > 0 ==> r == Resolution::Compare(
            candidate,
        ),
{
    if (candidate as u64) + 6 < (remote_tip as u64) {
        Resolution::Resolved(candidate)
    } else if candidate == 0 {
        Resolution::Resolved(0)
    } else {
        Resolution::Compare(candidate)
    }
}

/// One step of the backward walk, on the hashes fetched for the height under
/// comparison: a missing local record is an error, a match settles the
/// height, a mismatch moves the walk one height down.
pub fn resolve_step(best: u32, local: &Option<Vec<u8>>, remote: &Vec<u8>) -> (r: Resolution)
    requires
        best > 0,
    ensures
        local is None ==> r == Resolution::MissingLocal(best),
        (local matches Some(l) && l@ == remote@) ==> r == Resolution::Resolved(best),
        (local matches Some(l) && l@ != remote@ && best == 1) ==> r == Resolution::Resolved(0u32),
        (local matches Some(l) && l@ != remote@ && best > 1) ==> r == Resolution::Compare(
            (best - 1) as u32,
        ),
{
    match local {
        None => Resolution::MissingLocal(best),
        Some(l) => {
            if bytes_eq(l, remote) {
                Resolution::Resolved(best)
            } else if best == 1 {
                Resolution::Resolved(0)
            } else {
                Resolution::Compare(best - 1)
            }
        },
    }
}

/// Resolves a candidate against chain data given by height: the recorded
/// hashes and the remote hashes up to the candidate. Returns the safe height,
/// or the height whose local record is missing.
pub fn resolve(candidate: u32, remote_tip: u32, local: &Vec<Option<Vec<u8>>>, remote: &Vec<
    Vec<u8>,
>) -> (r: Result<u32, u32>)
    requires
        !deep_history(candidate, remote_tip) ==> (candidate as int) < local@.len() && (
        candidate as int) < remote@.len(),
    ensures
        r == resolve_spec(candidate, remote_tip, local_view(local@), remote_view(remote@)),
{
    let ghost lv = local_view(local@);
    let ghost rv = remote_view(remote@);
    if (candidate as u64) + 6 < (remote_tip as u64) {
        return Ok(candidate);
    }
    let mut best: u32 = candidate;
    loop
        invariant
            best <= candidate,
            (candidate as int) < local@.len(),
            (candidate as int) < remote@.len(),
            lv == local_view(local@),
            rv == remote_view(remote@),
            !deep_history(candidate, remote_tip),
            walk(candidate as int, lv, rv) == walk(best as int, lv, rv),
        decreases best,
    {
        if best == 0 {
            return Ok(0);
        }
        proof {
            assert(lv[best as int] == opt_bytes_view(local@[best as int]));
            assert(rv[best as int] == remote@[best as int]@);
        }
        match &local[best as usize] {
            None => {
                return Err(best);
            },
            Some(l) => {
                if bytes_eq(l, &remote[best as usize]) {
                    return Ok(best);
                }
            },
        }
        best = best - 1;
    }
}

/// Law (reorg detection): when the ledger's hash at `h` is recorded but
/// differs from the remote chain's, and the one at `h - 1` matches, resolving
/// `h` lands exactly on `h - 1`.
pub proof fn lemma_reorg_detects_fork(
    h: u32,
    remote_tip: u32,
    local: Seq<Option<Seq<u8>>>,
    remote: Seq<Seq<u8>>,
)
    requires
        1 <= h < local.len(),
        (h as int) < remote.len(),
        !deep_history(h, remote_tip),
        local[h as int] is Some,
        local[h as int] != Some(remote[h as int]),
        local[h - 1] == Some(remote[h - 1]),
    ensures
        resolve_spec(h, remote_tip, local, remote) == Ok::<u32, u32>((h - 1) as u32),
{
    assert(walk(h as int, local, remote) == walk(h - 1, local, remote));
    if h == 1 {
        assert(walk(0int, local, remote) == Ok::<u32, u32>(0u32));
    }
}

/// Law (shallow-height fast path): a candidate more than six blocks under
/// the remote tip resolves to itself, whatever the recorded or remote hashes
/// hold — no hash is consulted.
pub proof fn lemma_deep_history_fast_path(
    candidate: u32,
    remote_tip: u32,
    local: Seq<Option<Seq<u8>>>,
    remote: Seq<Seq<u8>>,
)
    requires
        deep_history(candidate, remote_tip),
    ensures
        resolve_spec(candidate, remote_tip, local, remote) == Ok::<u32, u32>(candidate),
{
}

} // verus!
