//! What the session knows of one guest domain, as plain values.

use vstd::prelude::*;

verus! {

/// Runtime figures of a domain, as the daemon reports them.
#[derive(Clone, Copy, Debug, PartialEq, Eq, Structural)]
pub struct DomainStats {
    /// Running state, as the daemon numbers it.
    pub state: u32,
    /// Largest memory the domain may use, in KiB.
    pub max_mem: u64,
    /// Memory the domain uses, in KiB.
    pub memory: u64,
    /// Number of virtual CPUs.
    pub nr_virt_cpu: u32,
    /// CPU time used, in nanoseconds.
    pub cpu_time: u64,
}

} // verus!
