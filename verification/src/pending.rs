//! Actions that wait for an approval before they run again.
use vstd::prelude::*;

verus! {

/// An overlay action held back by an approval; ids are UUIDs as integers.
#[derive(Debug, Clone, Copy, PartialEq, Eq, Structural)]
pub enum PendingAction {
    ArtifactList { thread_id: u128, approval_id: u128 },
    ArtifactVersions { thread_id: u128, artifact_id: u128, approval_id: u128 },
    ArtifactRead {
        thread_id: u128,
        artifact_id: u128,
        max_bytes: u64,
        version: Option<u32>,
        approval_id: u128,
    },
    ProcessInspect { thread_id: u128, process_id: u128, max_lines: usize, approval_id: u128 },
    ProcessKill { thread_id: u128, process_id: u128, approval_id: u128 },
    ProcessInterrupt { thread_id: u128, process_id: u128, approval_id: u128 },
}

impl PendingAction {
    /// The approval the action waits for.
    pub open spec fn approval_of(self) -> u128 {
        match self {
            PendingAction::ArtifactList { approval_id, .. } => approval_id,
            PendingAction::ArtifactVersions { approval_id, .. } => approval_id,
            PendingAction::ArtifactRead { approval_id, .. } => approval_id,
            PendingAction::ProcessInspect { approval_id, .. } => approval_id,
            PendingAction::ProcessKill { approval_id, .. } => approval_id,
            PendingAction::ProcessInterrupt { approval_id, .. } => approval_id,
        }
    }

    pub fn approval_id(&self) -> (r: u128)
        ensures
            r == self.approval_of(),
    {
        match self {
            PendingAction::ArtifactList { approval_id, .. } => *approval_id,
            PendingAction::ArtifactVersions { approval_id, .. } => *approval_id,
            PendingAction::ArtifactRead { approval_id, .. } => *approval_id,
            PendingAction::ProcessInspect { approval_id, .. } => *approval_id,
            PendingAction::ProcessKill { approval_id, .. } => *approval_id,
            PendingAction::ProcessInterrupt { approval_id, .. } => *approval_id,
        }
    }
}

} // verus!
