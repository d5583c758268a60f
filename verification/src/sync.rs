//! The chain-tip sync loop as a state machine.
//!
//! The loop itself performs outside work — remote calls, engine runs, store
//! commits — so what is verified here is the machine that decides it: from a
//! phase and the event that ended it, the next phase and the action the
//! driver must perform. The driver performs actions in order and feeds every
//! outcome back as an event.

use vstd::prelude::*;

verus! {

/// The phase the sync loop is in.
#[derive(Clone, Copy, PartialEq, Eq, Structural, Debug)]
pub enum SyncPhase {
    /// Deciding which height is safe to index next.
    ResolvingHeight,
    /// Waiting for, recording and pulling the block at the target height.
    FetchingBlock { target: u32 },
    /// The engine is executing the block; `retried` after one reset.
    Indexing { target: u32, retried: bool },
    /// The height counter is being advanced for the committed target.
    Committing { target: u32 },
}

/// The sync loop's state: the next candidate height, and the phase.
#[derive(Clone, Copy, PartialEq, Eq, Structural, Debug)]
pub struct SyncState {
    pub height: u32,
    pub phase: SyncPhase,
}

/// What the driver reports back to the machine.
#[derive(Clone, Copy, PartialEq, Eq, Structural, Debug)]
pub enum SyncEvent {
    /// The resolver settled on a safe height.
    Resolved { safe: u32 },
    /// The resolver found a gap in ledger history.
    ResolveFailed,
    /// The block at the target height was recorded and pulled.
    BlockFetched,
    /// The engine indexed the block.
    IndexSucceeded,
    /// The engine failed on the block.
    IndexFailed,
    /// The adapter's height counter was advanced.
    Committed,
}

/// What the driver must do next.
#[derive(Clone, Copy, PartialEq, Eq, Structural, Debug)]
pub enum SyncAction {
    /// Run the resolver on the state's height as candidate.
    RunResolver,
    /// Poll the remote chain until the target is mined, record its hash in
    /// the ledger, and pull the raw block.
    FetchBlock { target: u32 },
    /// Set the adapter's height counter to the target — so every batch the
    /// engine commits carries the tip record `target + 1` — and hand the
    /// block to the engine.
    RunEngine { target: u32 },
    /// Reset the engine's execution state and run it once more.
    RefreshAndRetry { target: u32 },
    /// Advance the adapter's height counter to the next candidate; it is
    /// persisted by the engine's next committed batch.
    AdvanceHeight { next: u32 },
    /// Terminate the process: an unrecoverable failure.
    Halt,
}

/// A state is well formed while its heights leave room to advance.
pub open spec fn state_wf(s: SyncState) -> bool {
    &&& s.height < 0xffffffffu32
    &&& match s.phase {
        SyncPhase::ResolvingHeight => true,
        SyncPhase::FetchingBlock { target } => target < 0xffffffffu32,
        SyncPhase::Indexing { target, .. } => target < 0xffffffffu32,
        SyncPhase::Committing { target } => target < 0xffffffffu32,
    }
}

/// The transition relation of the sync loop. An indexing failure is retried
/// exactly once, after a reset of the engine's execution state; the second
/// failure halts. A resolver gap halts: it is a data-integrity condition
/// requiring operator attention. An event out of phase is a driver defect
/// and halts too.
pub open spec fn step_spec(s: SyncState, e: SyncEvent) -> (SyncState, SyncAction) {
    match (s.phase, e) {
        (SyncPhase::ResolvingHeight, SyncEvent::Resolved { safe }) => (
            SyncState { height: s.height, phase: SyncPhase::FetchingBlock { target: safe } },
            SyncAction::FetchBlock { target: safe },
        ),
        (SyncPhase::ResolvingHeight, SyncEvent::ResolveFailed) => (s, SyncAction::Halt),
        (SyncPhase::FetchingBlock { target }, SyncEvent::BlockFetched) => (
            SyncState {
                height: s.height,
                phase: SyncPhase::Indexing { target, retried: false },
            },
            SyncAction::RunEngine { target },
        ),
        (SyncPhase::Indexing { target, retried }, SyncEvent::IndexFailed) => if retried {
            (s, SyncAction::Halt)
        } else {
            (
                SyncState {
                    height: s.height,
                    phase: SyncPhase::Indexing { target, retried: true },
                },
                SyncAction::RefreshAndRetry { target },
            )
        },
        (SyncPhase::Indexing { target, .. }, SyncEvent::IndexSucceeded) => (
            SyncState { height: s.height, phase: SyncPhase::Committing { target } },
            SyncAction::AdvanceHeight { next: (target + 1) as u32 },
        ),
        (SyncPhase::Committing { target }, SyncEvent::Committed) => (
            SyncState { height: (target + 1) as u32, phase: SyncPhase::ResolvingHeight },
            SyncAction::RunResolver,
        ),
        _ => (s, SyncAction::Halt),
    }
}

/// One transition of the sync loop.
pub fn sync_step(s: SyncState, e: SyncEvent) -> (r: (SyncState, SyncAction))
    requires
        state_wf(s),
    ensures
        r == step_spec(s, e),
{
    match (s.phase, e) {
        (SyncPhase::ResolvingHeight, SyncEvent::Resolved { safe }) => (
            SyncState { height: s.height, phase: SyncPhase::FetchingBlock { target: safe } },
            SyncAction::FetchBlock { target: safe },
        ),
        (SyncPhase::ResolvingHeight, SyncEvent::ResolveFailed) => (s, SyncAction::Halt),
        (SyncPhase::FetchingBlock { target }, SyncEvent::BlockFetched) => (
            SyncState {
                height: s.height,
                phase: SyncPhase::Indexing { target, retried: false },
            },
            SyncAction::RunEngine { target },
        ),
        (SyncPhase::Indexing { target, retried }, SyncEvent::IndexFailed) => if retried {
            (s, SyncAction::Halt)
        } else {
            (
                SyncState {
                    height: s.height,
                    phase: SyncPhase::Indexing { target, retried: true },
                },
                SyncAction::RefreshAndRetry { target },
            )
        },
        (SyncPhase::Indexing { target, retried: _ }, SyncEvent::IndexSucceeded) => (
            SyncState { height: s.height, phase: SyncPhase::Committing { target } },
            SyncAction::AdvanceHeight { next: target + 1 },
        ),
        (SyncPhase::Committing { target }, SyncEvent::Committed) => (
            SyncState { height: target + 1, phase: SyncPhase::ResolvingHeight },
            SyncAction::RunResolver,
        ),
        _ => (s, SyncAction::Halt),
    }
}

/// Whether the remote chain has not yet mined the target height, so block
/// pulling must keep polling with backoff.
pub fn should_wait_for_block(target: u32, remote_count: u32) -> (r: bool)
    ensures
        r == (target > remote_count),
{
    target > remote_count
}

/// The state after one successful, reorg-free iteration from a resolving
/// state: the resolver keeps the candidate, the block is fetched, the engine
/// indexes it, and the height counter is advanced.
pub open spec fn ok_iteration(s: SyncState) -> SyncState {
    let s1 = step_spec(s, SyncEvent::Resolved { safe: s.height }).0;
    let s2 = step_spec(s1, SyncEvent::BlockFetched).0;
    let s3 = step_spec(s2, SyncEvent::IndexSucceeded).0;
    step_spec(s3, SyncEvent::Committed).0
}

/// The state after `n` successful, reorg-free iterations.
pub open spec fn iterate(s: SyncState, n: nat) -> SyncState
    decreases n,
{
    if n == 0 {
        s
    } else {
        ok_iteration(iterate(s, (n - 1) as nat))
    }
}

/// Law (tip-height monotonicity, one step): a successful, reorg-free
/// iteration advances the height by exactly one and returns to resolving.
pub proof fn lemma_iteration_advances(s: SyncState)
    requires
        s.phase == SyncPhase::ResolvingHeight,
        s.height < 0xffffffffu32,
    ensures
        ok_iteration(s).height == s.height + 1,
        ok_iteration(s).phase == SyncPhase::ResolvingHeight,
{
}

/// Law (tip-height monotonicity under no-reorg): over any run of successful
/// iterations with no remote-hash mismatch, the height strictly increases by
/// exactly one per iteration.
pub proof fn lemma_height_monotonic(s: SyncState, n: nat)
    requires
        s.phase == SyncPhase::ResolvingHeight,
        s.height + n < 0xffffffffu32,
    ensures
        iterate(s, n).height == s.height + n,
        iterate(s, n).phase == SyncPhase::ResolvingHeight,
    decreases n,
{
    if n > 0 {
        lemma_height_monotonic(s, (n - 1) as nat);
        lemma_iteration_advances(iterate(s, (n - 1) as nat));
    }
}

} // verus!
