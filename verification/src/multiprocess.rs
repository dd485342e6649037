//! Multi-process launch bookkeeping.
//!
//! The launcher counts the processes spawned in a session.  Actually
//! spawning — loading the binary at a real address and handing the entry
//! point to an executor — is the embedding program's work; it drives the
//! loader and the process table through their public operations and
//! records each success here.

use vstd::prelude::*;

verus! {

/// Multi-process launcher: tracks spawning across one session.
pub struct MultiProcessLauncher {
    /// Count of processes spawned this session.
    pub process_count: u64,
}

impl MultiProcessLauncher {
    /// Create a new launcher with nothing spawned yet.
    pub fn new() -> (r: MultiProcessLauncher)
        ensures
            r.process_count == 0,
    {
        MultiProcessLauncher { process_count: 0 }
    }

    /// Record one successful spawn (saturating).
    pub fn record_spawn(&mut self)
        ensures
            final(self).process_count == (if old(self).process_count < u64::MAX {
                old(self).process_count + 1
            } else {
                old(self).process_count as int
            }),
    {
        self.process_count = self.process_count.saturating_add(1);
    }
}

/// Information about running processes for the launcher's view: id, a
/// display name, and a status word.  The underlying table keeps no names,
/// so the listing is empty until a name registry exists.
pub fn list_processes() -> (r: Vec<(u64, String, &'static str)>)
    ensures
        r@.len() == 0,
{
    Vec::new()
}

} // verus!
