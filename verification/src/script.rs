//! The order of the calls: which request goes to the daemon next, given how
//! the earlier ones were answered.
//!
//! The script is a state machine over plain values. It makes no call itself,
//! so it can be driven by any source of replies.

use vstd::prelude::*;
use crate::domain::DomainStats;

verus! {

/// Domains that are running.
pub const LIST_ACTIVE: u32 = 1;

/// Domains that are defined and not running.
pub const LIST_INACTIVE: u32 = 2;

/// The flag set of the one listing call: running and defined domains together.
pub open spec fn listing_flags() -> u32 {
    LIST_ACTIVE | LIST_INACTIVE
}

/// The flag set of the one listing call, computed.
pub fn list_flags() -> (flags: u32)
    ensures
        flags == listing_flags(),
        flags == 3,
        flags & LIST_ACTIVE == LIST_ACTIVE,
        flags & LIST_INACTIVE == LIST_INACTIVE,
{
    assert(1u32 | 2u32 == 3u32) by (bit_vector);
    assert(3u32 & 1u32 == 1u32) by (bit_vector);
    assert(3u32 & 2u32 == 2u32) by (bit_vector);
    LIST_ACTIVE | LIST_INACTIVE
}

/// The reporting routine a query belongs to.
#[derive(Clone, Copy, Debug, PartialEq, Eq, Structural)]
pub enum Routine {
    /// Type and version of the hypervisor.
    HypervisorInfo,
    /// Counts and listing of the domains.
    Domains,
}

/// Why the connection is being closed.
#[derive(Clone, Copy, Debug, PartialEq, Eq, Structural)]
pub enum Exit {
    /// The guest was found and released; the close must leave no reference.
    Cleaned,
    /// The guest was defined.
    Defined,
    /// An earlier step failed.
    Failed,
}

/// Where the session stands: the request it is about to make, or how it ended.
#[derive(Clone, Copy, Debug, PartialEq, Eq, Structural)]
pub enum Step {
    /// About to open the connection.
    Open,
    /// About to ask the connection for its URI.
    Uri,
    /// About to ask for the hypervisor's type.
    Kind,
    /// About to ask for the hypervisor's version.
    Version,
    /// About to count the running domains.
    CountActive,
    /// About to count the defined domains that are not running.
    CountInactive,
    /// About to list all domains.
    List,
    /// About to ask the listed domain `index` of `total` for its id.
    DomainId { index: usize, total: usize },
    /// About to ask that domain for its name.
    DomainName { index: usize, total: usize },
    /// About to ask that domain whether it is running.
    DomainActive { index: usize, total: usize },
    /// About to ask that domain for its figures.
    DomainInfo { index: usize, total: usize },
    /// About to look the guest up by its name.
    Lookup,
    /// The guest was found: about to destroy it.
    Destroy,
    /// About to undefine the guest.
    Undefine,
    /// About to release the guest's handle.
    Free,
    /// The guest was not found: about to define it.
    Define,
    /// A query of `routine` failed: about to fetch the daemon's last error.
    LastError { routine: Routine },
    /// About to close the connection.
    Close { exit: Exit },
    /// Ended well, with the connection closed.
    Finished,
    /// Ended in failure.
    Aborted,
    /// Ended before anything was asked: the URI cannot be handed to the daemon.
    Refused,
}

/// A request to the daemon.
#[derive(Clone, Copy, Debug, PartialEq, Eq, Structural)]
pub enum Call {
    Open,
    GetUri,
    GetType,
    GetVersion,
    CountActive,
    CountInactive,
    ListAll { flags: u32 },
    DomainId { index: usize },
    DomainName { index: usize },
    DomainActive { index: usize },
    DomainInfo { index: usize },
    Lookup,
    Destroy,
    Undefine,
    Free,
    Define,
    LastError,
    Close,
}

/// What came back from a request.
#[derive(Debug, PartialEq, Eq)]
pub enum Reply {
    /// Success that carries nothing.
    Done,
    /// Success with a text.
    Text(String),
    /// Success with a number.
    Number(u32),
    /// Success with a truth value.
    Flag(bool),
    /// Success with the figures of a domain.
    Stats(DomainStats),
    /// Success, and there is no value: a domain without an id.
    Absent,
    /// Success of the listing, with the number of domains listed.
    Listed(usize),
    /// Success of the close, with the number of references left.
    Closed(i32),
    /// The operation failed; the text describes the error.
    Failed(String),
    /// The request was not made: its text holds a NUL character, which no
    /// text handed to the daemon may hold.
    Refused,
}

impl Step {
    /// Nothing more is asked in this step.
    pub open spec fn terminal(self) -> bool {
        self is Finished || self is Aborted || self is Refused
    }

    /// The session ended in failure: it was aborted, or its URI was refused.
    pub open spec fn failed(self) -> bool {
        self is Aborted || self is Refused
    }

    /// A step inside the listing names a domain that was listed.
    pub open spec fn wf(self) -> bool {
        match self {
            Step::DomainId { index, total } => index < total,
            Step::DomainName { index, total } => index < total,
            Step::DomainActive { index, total } => index < total,
            Step::DomainInfo { index, total } => index < total,
            _ => true,
        }
    }

    /// The step belongs to one of the two reporting routines.
    pub open spec fn reporting(self) -> bool {
        self.routine() is Some
    }

    /// The reporting routine of the step, if it has one.
    pub open spec fn routine(self) -> Option<Routine> {
        match self {
            Step::Kind | Step::Version => Some(Routine::HypervisorInfo),
            Step::CountActive | Step::CountInactive | Step::List => Some(Routine::Domains),
            Step::DomainId { .. } | Step::DomainName { .. } => Some(Routine::Domains),
            Step::DomainActive { .. } | Step::DomainInfo { .. } => Some(Routine::Domains),
            _ => None,
        }
    }

    /// The connection is open while the session is in this step.
    pub open spec fn connected(self) -> bool {
        !(self is Open) && !self.terminal()
    }
}

/// The request that a step makes; none once the session has ended.
pub open spec fn call_of(step: Step) -> Option<Call> {
    match step {
        Step::Open => Some(Call::Open),
        Step::Uri => Some(Call::GetUri),
        Step::Kind => Some(Call::GetType),
        Step::Version => Some(Call::GetVersion),
        Step::CountActive => Some(Call::CountActive),
        Step::CountInactive => Some(Call::CountInactive),
        Step::List => Some(Call::ListAll { flags: listing_flags() }),
        Step::DomainId { index, .. } => Some(Call::DomainId { index }),
        Step::DomainName { index, .. } => Some(Call::DomainName { index }),
        Step::DomainActive { index, .. } => Some(Call::DomainActive { index }),
        Step::DomainInfo { index, .. } => Some(Call::DomainInfo { index }),
        Step::Lookup => Some(Call::Lookup),
        Step::Destroy => Some(Call::Destroy),
        Step::Undefine => Some(Call::Undefine),
        Step::Free => Some(Call::Free),
        Step::Define => Some(Call::Define),
        Step::LastError { .. } => Some(Call::LastError),
        Step::Close { .. } => Some(Call::Close),
        Step::Finished => None,
        Step::Aborted => None,
        Step::Refused => None,
    }
}

/// The reply is a success that carries what the step asked for. Any other
/// reply counts as a failure of the request, whatever it holds.
pub open spec fn accepts(step: Step, reply: Reply) -> bool {
    match step {
        Step::Open => reply is Done,
        Step::Uri => reply is Text,
        Step::Kind => reply is Text,
        Step::Version => reply is Number,
        Step::CountActive => reply is Number,
        Step::CountInactive => reply is Number,
        Step::List => reply is Listed,
        Step::DomainId { .. } => reply is Number || reply is Absent,
        Step::DomainName { .. } => reply is Text,
        Step::DomainActive { .. } => reply is Flag,
        Step::DomainInfo { .. } => reply is Stats,
        Step::Lookup => reply is Done,
        Step::Destroy => reply is Done,
        Step::Undefine => reply is Done,
        Step::Free => reply is Done,
        Step::Define => reply is Done,
        Step::LastError { .. } => reply is Text,
        Step::Close { exit } => match exit {
            Exit::Cleaned => reply == Reply::Closed(0),
            _ => reply is Closed,
        },
        Step::Finished => false,
        Step::Aborted => false,
        Step::Refused => false,
    }
}

/// The reply is one that the request can get: the failure, or the success
/// with what the request gives. Only the open can be refused: no other
/// request carries a text that the caller chose. A domain's id is there or
/// absent and never fails; the daemon's last error is always there; a close
/// that succeeds never leaves -1 references.
pub open spec fn fits(call: Call, reply: Reply) -> bool {
    match call {
        Call::Open => reply is Done || reply is Failed || reply is Refused,
        Call::Lookup | Call::Destroy => reply is Done || reply is Failed,
        Call::Undefine | Call::Free | Call::Define => reply is Done || reply is Failed,
        Call::GetUri | Call::GetType | Call::DomainName { .. } => reply is Text || reply is Failed,
        Call::GetVersion | Call::CountActive | Call::CountInactive => reply is Number
            || reply is Failed,
        Call::ListAll { .. } => reply is Listed || reply is Failed,
        Call::DomainId { .. } => reply is Number || reply is Absent,
        Call::DomainActive { .. } => reply is Flag || reply is Failed,
        Call::DomainInfo { .. } => reply is Stats || reply is Failed,
        Call::LastError => reply is Text,
        Call::Close => reply is Failed || (reply matches Reply::Closed(left) && left != -1),
    }
}

/// The step that follows `step` once its request was answered by `reply`.
///
/// A failed query of a reporting routine leads to the daemon's last error and
/// from there to the close. Whether the guest could be destroyed or undefined
/// is not looked at. Every path on an open connection ends with the close.
pub open spec fn next_step(step: Step, reply: Reply) -> Step {
    let ok = accepts(step, reply);
    match step {
        Step::Open => if ok {
            Step::Uri
        } else if reply is Refused {
            Step::Refused
        } else {
            Step::Aborted
        },
        Step::Uri => if ok { Step::Kind } else { Step::Close { exit: Exit::Failed } },
        Step::Kind => if ok { Step::Version } else {
            Step::LastError { routine: Routine::HypervisorInfo }
        },
        Step::Version => if ok { Step::CountActive } else {
            Step::LastError { routine: Routine::HypervisorInfo }
        },
        Step::CountActive => if ok { Step::CountInactive } else {
            Step::LastError { routine: Routine::Domains }
        },
        Step::CountInactive => if ok { Step::List } else {
            Step::LastError { routine: Routine::Domains }
        },
        Step::List => match reply {
            Reply::Listed(total) => if total > 0 {
                Step::DomainId { index: 0, total }
            } else {
                Step::Lookup
            },
            _ => Step::LastError { routine: Routine::Domains },
        },
        Step::DomainId { index, total } => if ok { Step::DomainName { index, total } } else {
            Step::LastError { routine: Routine::Domains }
        },
        Step::DomainName { index, total } => if ok { Step::DomainActive { index, total } } else {
            Step::LastError { routine: Routine::Domains }
        },
        Step::DomainActive { index, total } => if ok { Step::DomainInfo { index, total } } else {
            Step::LastError { routine: Routine::Domains }
        },
        Step::DomainInfo { index, total } => if ok {
            if index + 1 < total {
                Step::DomainId { index: (index + 1) as usize, total }
            } else {
                Step::Lookup
            }
        } else {
            Step::LastError { routine: Routine::Domains }
        },
        Step::Lookup => if ok { Step::Destroy } else { Step::Define },
        Step::Destroy => Step::Undefine,
        Step::Undefine => Step::Free,
        Step::Free => if ok { Step::Close { exit: Exit::Cleaned } } else {
            Step::Close { exit: Exit::Failed }
        },
        Step::Define => if ok { Step::Close { exit: Exit::Defined } } else {
            Step::Close { exit: Exit::Failed }
        },
        Step::LastError { .. } => Step::Close { exit: Exit::Failed },
        Step::Close { exit } => if ok && !(exit is Failed) { Step::Finished } else { Step::Aborted },
        Step::Finished => Step::Finished,
        Step::Aborted => Step::Aborted,
        Step::Refused => Step::Refused,
    }
}

impl Step {
    /// The request to make in this step; `None` once the session has ended.
    pub fn call(self) -> (c: Option<Call>)
        ensures
            c == call_of(self),
            c is None <==> self.terminal(),
    {
        match self {
            Step::Open => Some(Call::Open),
            Step::Uri => Some(Call::GetUri),
            Step::Kind => Some(Call::GetType),
            Step::Version => Some(Call::GetVersion),
            Step::CountActive => Some(Call::CountActive),
            Step::CountInactive => Some(Call::CountInactive),
            Step::List => Some(Call::ListAll { flags: list_flags() }),
            Step::DomainId { index, .. } => Some(Call::DomainId { index }),
            Step::DomainName { index, .. } => Some(Call::DomainName { index }),
            Step::DomainActive { index, .. } => Some(Call::DomainActive { index }),
            Step::DomainInfo { index, .. } => Some(Call::DomainInfo { index }),
            Step::Lookup => Some(Call::Lookup),
            Step::Destroy => Some(Call::Destroy),
            Step::Undefine => Some(Call::Undefine),
            Step::Free => Some(Call::Free),
            Step::Define => Some(Call::Define),
            Step::LastError { .. } => Some(Call::LastError),
            Step::Close { .. } => Some(Call::Close),
            Step::Finished | Step::Aborted | Step::Refused => None,
        }
    }

    /// Whether `reply` is a success that carries what this step asked for.
    pub fn accepted(self, reply: &Reply) -> (ok: bool)
        ensures
            ok == accepts(self, *reply),
    {
        match self {
            Step::Open | Step::Lookup | Step::Destroy | Step::Undefine | Step::Free | Step::Define => {
                matches!(reply, Reply::Done)
            },
            Step::Uri | Step::Kind | Step::DomainName { .. } | Step::LastError { .. } => {
                matches!(reply, Reply::Text(_))
            },
            Step::Version | Step::CountActive | Step::CountInactive => {
                matches!(reply, Reply::Number(_))
            },
            Step::List => matches!(reply, Reply::Listed(_)),
            Step::DomainId { .. } => matches!(reply, Reply::Number(_) | Reply::Absent),
            Step::DomainActive { .. } => matches!(reply, Reply::Flag(_)),
            Step::DomainInfo { .. } => matches!(reply, Reply::Stats(_)),
            Step::Close { exit } => match reply {
                Reply::Closed(left) => match exit {
                    Exit::Cleaned => *left == 0,
                    _ => true,
                },
                _ => false,
            },
            Step::Finished | Step::Aborted | Step::Refused => false,
        }
    }

    /// The step that follows once `reply` has come back.
    pub fn next(self, reply: &Reply) -> (s: Step)
        ensures
            s == next_step(self, *reply),
            self.wf() ==> s.wf(),
    {
        let ok = self.accepted(reply);
        let failed_info = Step::LastError { routine: Routine::HypervisorInfo };
        let failed_domains = Step::LastError { routine: Routine::Domains };
        let failed = Step::Close { exit: Exit::Failed };
        match self {
            Step::Open => if ok {
                Step::Uri
            } else if matches!(reply, Reply::Refused) {
                Step::Refused
            } else {
                Step::Aborted
            },
            Step::Uri => if ok { Step::Kind } else { failed },
            Step::Kind => if ok { Step::Version } else { failed_info },
            Step::Version => if ok { Step::CountActive } else { failed_info },
            Step::CountActive => if ok { Step::CountInactive } else { failed_domains },
            Step::CountInactive => if ok { Step::List } else { failed_domains },
            Step::List => match reply {
                Reply::Listed(total) => if *total > 0 {
                    Step::DomainId { index: 0, total: *total }
                } else {
                    Step::Lookup
                },
                _ => failed_domains,
            },
            Step::DomainId { index, total } => if ok {
                Step::DomainName { index, total }
            } else {
                failed_domains
            },
            Step::DomainName { index, total } => if ok {
                Step::DomainActive { index, total }
            } else {
                failed_domains
            },
            Step::DomainActive { index, total } => if ok {
                Step::DomainInfo { index, total }
            } else {
                failed_domains
            },
            Step::DomainInfo { index, total } => if ok {
                if total > 0 && index < total - 1 {
                    Step::DomainId { index: index + 1, total }
                } else {
                    Step::Lookup
                }
            } else {
                failed_domains
            },
            Step::Lookup => if ok { Step::Destroy } else { Step::Define },
            Step::Destroy => Step::Undefine,
            Step::Undefine => Step::Free,
            Step::Free => if ok { Step::Close { exit: Exit::Cleaned } } else { failed },
            Step::Define => if ok { Step::Close { exit: Exit::Defined } } else { failed },
            Step::LastError { .. } => failed,
            Step::Close { exit } => match exit {
                Exit::Failed => Step::Aborted,
                _ => if ok { Step::Finished } else { Step::Aborted },
            },
            Step::Finished => Step::Finished,
            Step::Aborted => Step::Aborted,
            Step::Refused => Step::Refused,
        }
    }
}

/// Position of a step in the script. The steps of the listing share one
/// position; no step leads to an earlier one.
pub open spec fn phase(step: Step) -> nat {
    match step {
        Step::Open => 0,
        Step::Uri => 1,
        Step::Kind => 2,
        Step::Version => 3,
        Step::CountActive => 4,
        Step::CountInactive => 5,
        Step::List => 6,
        Step::DomainId { .. } => 7,
        Step::DomainName { .. } => 7,
        Step::DomainActive { .. } => 7,
        Step::DomainInfo { .. } => 7,
        Step::Lookup => 8,
        Step::Define => 9,
        Step::Destroy => 10,
        Step::Undefine => 11,
        Step::Free => 12,
        Step::LastError { .. } => 13,
        Step::Close { .. } => 14,
        Step::Finished => 15,
        Step::Aborted => 15,
        Step::Refused => 15,
    }
}

/// The step repeats its position: it is part of the listing, or the end.
pub open spec fn lingering(step: Step) -> bool {
    listed_total(step) is Some || step.terminal()
}

/// One reply never moves the session backwards, and moves it forwards
/// everywhere but inside the listing and at the end.
pub proof fn lemma_phase_step(step: Step, reply: Reply)
    ensures
        phase(step) <= phase(next_step(step, reply)),
        !lingering(step) ==> phase(step) < phase(next_step(step, reply)),
        step.terminal() ==> next_step(step, reply) == step,
{
}

/// Queries that the listing still has to make at most, counted from a step
/// inside it; 0 elsewhere.
pub open spec fn queries_left(step: Step) -> nat {
    match step {
        Step::DomainId { index, total } => (4 * (total - index)) as nat,
        Step::DomainName { index, total } => (4 * (total - index) - 1) as nat,
        Step::DomainActive { index, total } => (4 * (total - index) - 2) as nat,
        Step::DomainInfo { index, total } => (4 * (total - index) - 3) as nat,
        _ => 0,
    }
}

/// The number of domains that were listed, from a step inside the listing.
pub open spec fn listed_total(step: Step) -> Option<usize> {
    match step {
        Step::DomainId { total, .. } => Some(total),
        Step::DomainName { total, .. } => Some(total),
        Step::DomainActive { total, .. } => Some(total),
        Step::DomainInfo { total, .. } => Some(total),
        _ => None,
    }
}

/// Positions that lie ahead of a step.
pub open spec fn phases_left(step: Step) -> nat {
    (15 - phase(step)) as nat
}

/// A step inside the listing leads to a step that names a listed domain again.
pub proof fn lemma_next_wf(step: Step, reply: Reply)
    requires
        step.wf(),
    ensures
        next_step(step, reply).wf(),
{
}

/// Every reply brings the session nearer to its end: it moves to a later
/// position, or stays inside the listing with fewer queries left.
pub proof fn lemma_progress(step: Step, reply: Reply)
    requires
        step.wf(),
        !step.terminal(),
    ensures
        phases_left(next_step(step, reply)) < phases_left(step) || (phases_left(
            next_step(step, reply),
        ) == phases_left(step) && queries_left(next_step(step, reply)) < queries_left(step)),
{
}

} // verus!
