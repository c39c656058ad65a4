//! Choosing the local port: the scan over the candidate range.
//!
//! The scan is a small machine. The caller asks it what to do, tries to bind
//! the port it names, and tells it whether the bind succeeded. The machine
//! never touches a socket itself.

use crate::error::TunnelError;
use vstd::prelude::*;

verus! {

/// The lowest port the scan tries.
pub const FIRST_PORT: u16 = 1025;

/// The highest port the scan tries.
pub const LAST_PORT: u16 = 65534;

/// Whether `port` is one of the candidates.
pub open spec fn is_candidate(port: int) -> bool {
    FIRST_PORT <= port <= LAST_PORT
}

/// Where the scan stands.
#[derive(Clone, Copy, Debug, PartialEq, Eq, Structural)]
pub enum PortScan {
    /// The port is the next one to try.
    Probing(u16),
    /// The port was bound; the scan is over.
    Bound(u16),
    /// Every candidate was refused; the scan is over.
    Exhausted,
}

/// What the caller is to do next.
#[derive(Clone, Copy, Debug, PartialEq, Eq, Structural)]
pub enum ScanAction {
    /// Try to bind this port on all local interfaces.
    Bind(u16),
    /// Report this port as the one the tunnel listens on.
    Report(u16),
    /// Give up with this error.
    Fail(TunnelError),
}

impl PortScan {
    /// A scan only ever names candidate ports.
    pub open spec fn wf(self) -> bool {
        match self {
            PortScan::Probing(port) => is_candidate(port as int),
            PortScan::Bound(port) => is_candidate(port as int),
            PortScan::Exhausted => true,
        }
    }

    /// Whether the scan is over.
    pub open spec fn finished(self) -> bool {
        !(self is Probing)
    }

    /// The scan before any attempt.
    pub open spec fn initial() -> PortScan {
        PortScan::Probing(FIRST_PORT)
    }

    /// The action that belongs to a state.
    pub open spec fn action_of(self) -> ScanAction {
        match self {
            PortScan::Probing(port) => ScanAction::Bind(port),
            PortScan::Bound(port) => ScanAction::Report(port),
            PortScan::Exhausted => ScanAction::Fail(TunnelError::NoPortAvailable),
        }
    }

    /// The state after the attempt on the probed port has been answered. A
    /// finished scan stays as it is.
    pub open spec fn after(self, bound: bool) -> PortScan {
        match self {
            PortScan::Probing(port) => if bound {
                PortScan::Bound(port)
            } else if port < LAST_PORT {
                PortScan::Probing((port + 1) as u16)
            } else {
                PortScan::Exhausted
            },
            _ => self,
        }
    }

    /// The number of attempts that can still follow.
    pub open spec fn remaining(self) -> nat {
        match self {
            PortScan::Probing(port) => (65536 - port) as nat,
            _ => 0,
        }
    }

    /// The state in which the scan ends when exactly the ports in `free` can
    /// be bound.
    pub open spec fn outcome(self, free: Set<u16>) -> PortScan
        decreases self.remaining(),
    {
        match self {
            PortScan::Probing(port) => self.after(free.contains(port)).outcome(free),
            _ => self,
        }
    }

    /// The ports that the scan tries, in the order in which it tries them,
    /// when exactly the ports in `free` can be bound.
    pub open spec fn attempts(self, free: Set<u16>) -> Seq<u16>
        decreases self.remaining(),
    {
        match self {
            PortScan::Probing(port) => seq![port] + self.after(free.contains(port)).attempts(free),
            _ => Seq::empty(),
        }
    }

    /// Starts a scan at the lowest candidate.
    pub fn start() -> (scan: PortScan)
        ensures
            scan == PortScan::initial(),
            scan.wf(),
    {
        PortScan::Probing(FIRST_PORT)
    }

    /// What the caller is to do in this state.
    pub fn action(&self) -> (action: ScanAction)
        ensures
            action == self.action_of(),
    {
        match self {
            PortScan::Probing(port) => ScanAction::Bind(*port),
            PortScan::Bound(port) => ScanAction::Report(*port),
            PortScan::Exhausted => ScanAction::Fail(TunnelError::NoPortAvailable),
        }
    }

    /// Takes the answer to the last `Bind`: `bound` says whether the port was
    /// bound. A refusal moves on to the next higher candidate, or ends the
    /// scan after the highest one.
    pub fn observe(self, bound: bool) -> (next: PortScan)
        ensures
            next == self.after(bound),
            self.wf() ==> next.wf(),
    {
        match self {
            PortScan::Probing(port) => {
                if bound {
                    PortScan::Bound(port)
                } else if port < LAST_PORT {
                    PortScan::Probing(port + 1)
                } else {
                    PortScan::Exhausted
                }
            },
            PortScan::Bound(port) => PortScan::Bound(port),
            PortScan::Exhausted => PortScan::Exhausted,
        }
    }

    /// The port that was bound, once the scan has succeeded.
    pub fn bound_port(&self) -> (port: Option<u16>)
        ensures
            port == match *self {
                PortScan::Bound(p) => Some(p),
                _ => None::<u16>,
            },
    {
        match self {
            PortScan::Bound(port) => Some(*port),
            _ => None,
        }
    }
}

/// `port` is the lowest candidate in `free`.
pub open spec fn is_lowest_free(free: Set<u16>, port: u16) -> bool {
    &&& is_candidate(port as int)
    &&& free.contains(port)
    &&& forall|q: u16| is_candidate(q as int) && q < port ==> !free.contains(q)
}

/// No candidate is in `free`.
pub open spec fn none_free(free: Set<u16>) -> bool {
    forall|q: u16| is_candidate(q as int) ==> !free.contains(q)
}

/// The scan binds the lowest free candidate, whatever else is free.
pub proof fn scan_binds_lowest_free_port(free: Set<u16>, port: u16)
    requires
        is_lowest_free(free, port),
    ensures
        PortScan::initial().outcome(free) == PortScan::Bound(port),
        PortScan::initial().outcome(free).action_of() == ScanAction::Report(port),
{
    lemma_decided_from(FIRST_PORT, free);
    match PortScan::initial().outcome(free) {
        PortScan::Bound(found) => {
            if found < port {
                assert(!free.contains(found));
            }
            if port < found {
                assert(!free.contains(port));
            }
        },
        _ => {
            assert(!free.contains(port));
        },
    }
}

/// When every candidate but one is occupied, the scan binds that one and
/// reports it.
pub proof fn scan_binds_the_only_free_port(free: Set<u16>, port: u16)
    requires
        is_candidate(port as int),
        forall|q: u16| is_candidate(q as int) ==> (free.contains(q) <==> q == port),
    ensures
        PortScan::initial().outcome(free) == PortScan::Bound(port),
        PortScan::initial().outcome(free).action_of() == ScanAction::Report(port),
{
    scan_binds_lowest_free_port(free, port);
}

/// When every candidate is occupied, the scan ends without a port and the
/// caller is told to fail with `NoPortAvailable`.
pub proof fn scan_fails_when_all_ports_are_occupied(free: Set<u16>)
    requires
        none_free(free),
    ensures
        PortScan::initial().outcome(free) == PortScan::Exhausted,
        PortScan::initial().outcome(free).action_of() == ScanAction::Fail(
            TunnelError::NoPortAvailable,
        ),
{
    lemma_decided_from(FIRST_PORT, free);
}

/// Every scan ends, and it ends on the lowest free candidate or, when there
/// is none, exhausted.
pub proof fn scan_outcome_is_decided(free: Set<u16>)
    ensures
        PortScan::initial().outcome(free).finished(),
        PortScan::initial().outcome(free).wf(),
        match PortScan::initial().outcome(free) {
            PortScan::Bound(port) => is_lowest_free(free, port),
            _ => none_free(free),
        },
{
    lemma_decided_from(FIRST_PORT, free);
}

proof fn lemma_decided_from(from: u16, free: Set<u16>)
    requires
        is_candidate(from as int),
        forall|q: u16| is_candidate(q as int) && q < from ==> !free.contains(q),
    ensures
        PortScan::Probing(from).outcome(free).finished(),
        PortScan::Probing(from).outcome(free).wf(),
        match PortScan::Probing(from).outcome(free) {
            PortScan::Bound(port) => is_lowest_free(free, port),
            _ => none_free(free),
        },
    decreases LAST_PORT - from,
{
    let scan = PortScan::Probing(from);
    if free.contains(from) {
        assert(scan.outcome(free) == PortScan::Bound(from).outcome(free));
    } else if from < LAST_PORT {
        let next: u16 = (from + 1) as u16;
        assert(scan.outcome(free) == PortScan::Probing(next).outcome(free));
        lemma_decided_from(next, free);
    } else {
        assert(scan.outcome(free) == PortScan::Exhausted.outcome(free));
    }
}

/// The scan tries the candidates in ascending order without a gap, every
/// attempt but the last is refused, and the last one is the port that was
/// bound or, when none was, the highest candidate.
pub proof fn scan_tries_ports_in_ascending_order(free: Set<u16>)
    ensures
        ({
            let tried = PortScan::initial().attempts(free);
            &&& tried.len() >= 1
            &&& forall|i: int| 0 <= i < tried.len() ==> tried[i] == FIRST_PORT + i
            &&& forall|i: int| 0 <= i < tried.len() - 1 ==> !free.contains(tried[i])
            &&& match PortScan::initial().outcome(free) {
                PortScan::Bound(port) => tried.last() == port,
                _ => tried.last() == LAST_PORT && !free.contains(LAST_PORT),
            }
        }),
{
    lemma_attempts_from(FIRST_PORT, free);
}

proof fn lemma_attempts_from(from: u16, free: Set<u16>)
    requires
        is_candidate(from as int),
    ensures
        ({
            let tried = PortScan::Probing(from).attempts(free);
            &&& tried.len() >= 1
            &&& forall|i: int| 0 <= i < tried.len() ==> tried[i] == from + i
            &&& forall|i: int| 0 <= i < tried.len() - 1 ==> !free.contains(tried[i])
            &&& match PortScan::Probing(from).outcome(free) {
                PortScan::Bound(port) => tried.last() == port,
                _ => tried.last() == LAST_PORT && !free.contains(LAST_PORT),
            }
        }),
    decreases LAST_PORT - from,
{
    let scan = PortScan::Probing(from);
    let tried = scan.attempts(free);
    let rest = scan.after(free.contains(from)).attempts(free);
    assert(tried == seq![from] + rest);
    assert(scan.outcome(free) == scan.after(free.contains(from)).outcome(free));
    if free.contains(from) || from >= LAST_PORT {
        assert(rest == Seq::<u16>::empty());
        assert(tried =~= seq![from]);
    } else {
        let next: u16 = (from + 1) as u16;
        lemma_attempts_from(next, free);
        assert forall|i: int| 0 <= i < tried.len() implies tried[i] == from + i by {
            if i > 0 {
                assert(tried[i] == rest[i - 1]);
            }
        }
        assert forall|i: int| 0 <= i < tried.len() - 1 implies !free.contains(tried[i]) by {
            if i > 0 {
                assert(tried[i] == rest[i - 1]);
            }
        }
        assert(tried.last() == rest.last());
    }
}

} // verus!
