//! Hypervisor version numbers.
//!
//! The daemon reports a version as one number that packs three parts with the
//! divisors one million and one thousand.

use vstd::prelude::*;

verus! {

/// Major part of a packed version number.
pub open spec fn major_of(raw: nat) -> nat {
    raw / 1_000_000
}

/// Minor part of a packed version number.
pub open spec fn minor_of(raw: nat) -> nat {
    (raw % 1_000_000) / 1_000
}

/// Release part of a packed version number.
pub open spec fn release_of(raw: nat) -> nat {
    raw % 1_000
}

/// A version split into its three parts.
#[derive(Clone, Copy, Debug, PartialEq, Eq, Structural)]
pub struct HypervisorVersion {
    pub major: u32,
    pub minor: u32,
    pub release: u32,
}

impl HypervisorVersion {
    /// The parts are those of the packed number `raw`.
    pub open spec fn splits(self, raw: nat) -> bool {
        &&& self.major == major_of(raw)
        &&& self.minor == minor_of(raw)
        &&& self.release == release_of(raw)
    }

    /// The number that packs these parts.
    pub open spec fn packed(self) -> nat {
        (self.major * 1_000_000 + self.minor * 1_000 + self.release) as nat
    }

    /// Splits a packed version number.
    pub fn from_raw(raw: u32) -> (v: HypervisorVersion)
        ensures
            v.splits(raw as nat),
            v.packed() == raw,
            v.minor < 1_000,
            v.release < 1_000,
    {
        let major: u32 = raw / 1_000_000;
        let rest: u32 = raw % 1_000_000;
        let minor: u32 = rest / 1_000;
        let release: u32 = rest % 1_000;
        proof {
            lemma_split_exact(raw as nat);
        }
        HypervisorVersion { major, minor, release }
    }
}

/// Splitting loses nothing: the three parts pack back into the number they
/// came from, and the two lower parts stay below one thousand.
pub proof fn lemma_split_exact(raw: nat)
    ensures
        major_of(raw) * 1_000_000 + minor_of(raw) * 1_000 + release_of(raw) == raw,
        minor_of(raw) < 1_000,
        release_of(raw) < 1_000,
        release_of(raw) == (raw % 1_000_000) % 1_000,
{
}

} // verus!
