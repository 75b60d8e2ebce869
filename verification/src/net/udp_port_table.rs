//! The table of UDP ports bound by kernel capsules.
//!
//! A capsule first reserves a slot of the table by creating a socket, then
//! binds the socket to a port, which gives it a sender and a receiver
//! binding for that port. Binding fails if an application or another
//! capsule already bound the port, so at any time no two slots hold the
//! same port. Unbinding gives the slot back as a socket.

use crate::returncode::ReturnCode;
use vstd::prelude::*;

verus! {

/// How many ports capsules can bind at the same time.
pub const MAX_NUM_BOUND_PORTS: usize = 5;

/// What a reserved slot of the table holds: the port bound there, or none.
#[derive(Clone, Copy, PartialEq, Eq, Structural, Debug)]
pub enum PortEntry {
    Port(u16),
    Unbound,
}

/// Query of the ports that applications bound, answered by the UDP driver.
pub trait PortQuery {
    /// Whether an application bound the port.
    fn is_bound(&self, port: u16) -> bool;
}

/// Whether a port is bound, given the answer of the applications' query
/// (`None` when there is no query to ask): bound by an application or by a
/// capsule, or an error without a query.
pub open spec fn bound_outcome(slots: Seq<Option<PortEntry>>, user_bound: Option<bool>, port: u16) -> Result<
    bool,
    (),
> {
    match user_bound {
        None => Err(()),
        Some(b) => Ok(b || holds_port(slots, port)),
    }
}

/// A reserved slot of the table, not bound to a port.
#[derive(Debug)]
pub struct UdpPortSocket {
    idx: usize,
}

impl UdpPortSocket {
    #[verifier::type_invariant]
    spec fn in_table(self) -> bool {
        self.idx < MAX_NUM_BOUND_PORTS
    }

    /// The slot of the table the socket reserves.
    pub closed spec fn spec_idx(self) -> usize {
        self.idx
    }

    fn new(idx: usize) -> (r: UdpPortSocket)
        requires
            idx < MAX_NUM_BOUND_PORTS,
        ensures
            r.spec_idx() == idx,
    {
        UdpPortSocket { idx }
    }
}

/// Proof that the holder is bound to a port, for receiving on it.
#[derive(Debug)]
pub struct UdpReceiverBinding {
    idx: usize,
    port: u16,
}

/// Proof that the holder is bound to a port, for sending from it.
#[derive(Debug)]
pub struct UdpSenderBinding {
    idx: usize,
    port: u16,
}

impl UdpSenderBinding {
    #[verifier::type_invariant]
    spec fn in_table(self) -> bool {
        self.idx < MAX_NUM_BOUND_PORTS
    }

    /// The slot of the table bound.
    pub closed spec fn spec_idx(self) -> usize {
        self.idx
    }

    /// The port bound.
    pub closed spec fn spec_port(self) -> u16 {
        self.port
    }

    fn new(idx: usize, port: u16) -> (r: UdpSenderBinding)
        requires
            idx < MAX_NUM_BOUND_PORTS,
        ensures
            r.spec_idx() == idx,
            r.spec_port() == port,
    {
        UdpSenderBinding { idx, port }
    }

    /// The port bound.
    pub fn get_port(&self) -> (r: u16)
        ensures
            r == self.spec_port(),
    {
        self.port
    }
}

impl UdpReceiverBinding {
    #[verifier::type_invariant]
    spec fn in_table(self) -> bool {
        self.idx < MAX_NUM_BOUND_PORTS
    }

    /// The slot of the table bound.
    pub closed spec fn spec_idx(self) -> usize {
        self.idx
    }

    /// The port bound.
    pub closed spec fn spec_port(self) -> u16 {
        self.port
    }

    fn new(idx: usize, port: u16) -> (r: UdpReceiverBinding)
        requires
            idx < MAX_NUM_BOUND_PORTS,
        ensures
            r.spec_idx() == idx,
            r.spec_port() == port,
    {
        UdpReceiverBinding { idx, port }
    }

    /// The port bound.
    pub fn get_port(&self) -> (r: u16)
        ensures
            r == self.spec_port(),
    {
        self.port
    }
}

/// Whether some slot of the table holds the port.
pub open spec fn holds_port(slots: Seq<Option<PortEntry>>, port: u16) -> bool {
    exists|i: int| 0 <= i < slots.len() && slots[i] == Some(PortEntry::Port(port))
}

/// Whether no two slots of the table hold the same port.
pub open spec fn ports_distinct(slots: Seq<Option<PortEntry>>) -> bool {
    forall|i: int, j: int|
        0 <= i < slots.len() && 0 <= j < slots.len() && i != j && #[trigger] slots[i] == #[trigger] slots[j]
            ==> !(slots[i] matches Some(PortEntry::Port(_)))
}

/// The first free slot of the table from slot `from` on, if any.
pub open spec fn first_free_from(slots: Seq<Option<PortEntry>>, from: int) -> Option<int>
    decreases slots.len() - from,
{
    if from < 0 || from >= slots.len() {
        None
    } else if slots[from] is None {
        Some(from)
    } else {
        first_free_from(slots, from + 1)
    }
}

/// The table of the ports bound by capsules, and the query of the ports
/// bound by applications.
pub struct UdpPortTable<Q: PortQuery> {
    port_array: Vec<Option<PortEntry>>,
    user_ports: Option<Q>,
}

impl<Q: PortQuery> UdpPortTable<Q> {
    /// The slots of the table.
    pub closed spec fn spec_slots(self) -> Seq<Option<PortEntry>> {
        self.port_array@
    }

    /// The query of the ports bound by applications, once set.
    pub closed spec fn spec_user_ports(self) -> Option<Q> {
        self.user_ports
    }

    /// Whether the table has all its slots and no port twice.
    pub open spec fn wf(self) -> bool {
        &&& self.spec_slots().len() == MAX_NUM_BOUND_PORTS
        &&& ports_distinct(self.spec_slots())
    }

    /// A table with all slots free and no query of the applications' ports.
    pub fn new() -> (r: Self)
        ensures
            r.wf(),
            r.spec_user_ports() is None,
            forall|i: int| 0 <= i < MAX_NUM_BOUND_PORTS ==> (#[trigger] r.spec_slots()[i]) is None,
    {
        let mut port_array: Vec<Option<PortEntry>> = Vec::new();
        while port_array.len() < MAX_NUM_BOUND_PORTS
            invariant
                port_array.len() <= MAX_NUM_BOUND_PORTS,
                forall|i: int| 0 <= i < port_array.len() ==> (#[trigger] port_array@[i]) is None,
            decreases MAX_NUM_BOUND_PORTS - port_array.len(),
        {
            port_array.push(None);
        }
        UdpPortTable { port_array, user_ports: None }
    }

    /// Sets the query of the ports bound by applications.
    pub fn set_user_ports(&mut self, user_ports_ref: Q)
        ensures
            final(self).spec_slots() == old(self).spec_slots(),
            final(self).spec_user_ports() == Some(user_ports_ref),
    {
        self.user_ports = Some(user_ports_ref);
    }

    /// Reserves the first free slot of the table as a socket; fails if all
    /// slots are taken.
    pub fn create_socket(&mut self) -> (r: Result<UdpPortSocket, ReturnCode>)
        requires
            old(self).wf(),
        ensures
            final(self).wf(),
            final(self).spec_user_ports() == old(self).spec_user_ports(),
            match first_free_from(old(self).spec_slots(), 0) {
                Some(i) => r matches Ok(s) && s.spec_idx() == i && final(self).spec_slots()
                    == old(self).spec_slots().update(i, Some(PortEntry::Unbound)),
                None => r == Err::<UdpPortSocket, ReturnCode>(ReturnCode::FAIL)
                    && final(self).spec_slots() == old(self).spec_slots(),
            },
    {
        let mut i: usize = 0;
        while i < MAX_NUM_BOUND_PORTS
            invariant
                i <= MAX_NUM_BOUND_PORTS,
                self.wf(),
                *self == *old(self),
                first_free_from(self.spec_slots(), 0) == first_free_from(self.spec_slots(), i as int),
            decreases MAX_NUM_BOUND_PORTS - i,
        {
            if self.port_array[i].is_none() {
                self.port_array.set(i, Some(PortEntry::Unbound));
                assert(ports_distinct(self.spec_slots())) by {
                    assert forall|a: int, b: int|
                        0 <= a < self.spec_slots().len() && 0 <= b < self.spec_slots().len() && a
                            != b && #[trigger] self.spec_slots()[a] == #[trigger] self.spec_slots()[b]
                        implies !(self.spec_slots()[a] matches Some(PortEntry::Port(_))) by {
                        if a != i && b != i {
                            assert(old(self).spec_slots()[a] == old(self).spec_slots()[b]);
                        }
                    }
                }
                return Ok(UdpPortSocket::new(i));
            }
            i = i + 1;
        }
        Err(ReturnCode::FAIL)
    }

    /// Frees the slot of a socket that is no longer needed, unless a port
    /// is bound there.
    pub fn destroy_socket(&mut self, socket: UdpPortSocket)
        requires
            old(self).wf(),
        ensures
            final(self).wf(),
            final(self).spec_user_ports() == old(self).spec_user_ports(),
            final(self).spec_slots() == if old(self).spec_slots()[socket.spec_idx() as int]
                == Some(PortEntry::Unbound) {
                old(self).spec_slots().update(socket.spec_idx() as int, None)
            } else {
                old(self).spec_slots()
            },
    {
        proof {
            use_type_invariant(&socket);
        }
        if self.port_array[socket.idx] == Some(PortEntry::Unbound) {
            self.port_array.set(socket.idx, None);
            assert(ports_distinct(self.spec_slots())) by {
                assert forall|a: int, b: int|
                    0 <= a < self.spec_slots().len() && 0 <= b < self.spec_slots().len() && a != b
                        && #[trigger] self.spec_slots()[a] == #[trigger] self.spec_slots()[b]
                    implies !(self.spec_slots()[a] matches Some(PortEntry::Port(_))) by {
                    if a != socket.idx && b != socket.idx {
                        assert(old(self).spec_slots()[a] == old(self).spec_slots()[b]);
                    }
                }
            }
        }
    }

    /// Whether the port is bound, given the answer of the applications'
    /// query (`None` when there is none): by an application or a capsule.
    pub fn port_bound_with(&self, user_bound: Option<bool>, port: u16) -> (r: Result<bool, ()>)
        requires
            self.wf(),
        ensures
            r == bound_outcome(self.spec_slots(), user_bound, port),
    {
        let user_bound: bool = match user_bound {
            None => {
                return Err(());
            },
            Some(b) => b,
        };
        if user_bound {
            return Ok(true);
        }
        let mut port_exists: bool = false;
        let mut i: usize = 0;
        while i < MAX_NUM_BOUND_PORTS
            invariant
                i <= MAX_NUM_BOUND_PORTS,
                self.wf(),
                port_exists == exists|k: int|
                    0 <= k < i && self.spec_slots()[k] == Some(PortEntry::Port(port)),
            decreases MAX_NUM_BOUND_PORTS - i,
        {
            if self.port_array[i] == Some(PortEntry::Port(port)) {
                port_exists = true;
            }
            i = i + 1;
        }
        Ok(port_exists)
    }

    /// Whether the port is bound, by an application or a capsule; fails if
    /// the query of the applications' ports is not set. What the query
    /// answers is [`Self::port_bound_with`] of the outcome.
    pub fn is_bound(&self, port: u16) -> (r: Result<bool, ()>)
        requires
            self.wf(),
        ensures
            r is Err <==> self.spec_user_ports() is None,
            holds_port(self.spec_slots(), port) && self.spec_user_ports() is Some ==> r == Ok::<
                bool,
                (),
            >(true),
            exists|user_bound: bool|
                r == bound_outcome(
                    self.spec_slots(),
                    if self.spec_user_ports() is Some {
                        Some(user_bound)
                    } else {
                        None
                    },
                    port,
                ),
    {
        let user_bound: Option<bool> = match &self.user_ports {
            None => None,
            Some(port_query) => Some(port_query.is_bound(port)),
        };
        let r = self.port_bound_with(user_bound, port);
        proof {
            if let Some(b) = user_bound {
                assert(r == bound_outcome(self.spec_slots(), Some(b), port));
            } else {
                assert(r == bound_outcome(self.spec_slots(), None::<bool>, port));
            }
        }
        r
    }

    /// Binds the socket to the port if `bound`, the answer to whether the
    /// port is bound, is `Ok(false)`; otherwise gives the socket back.
    pub fn bind_with(&mut self, socket: UdpPortSocket, port: u16, bound: Result<bool, ()>) -> (r: Result<
        (UdpSenderBinding, UdpReceiverBinding),
        UdpPortSocket,
    >)
        requires
            old(self).wf(),
            bound == Ok::<bool, ()>(false) ==> !holds_port(old(self).spec_slots(), port),
        ensures
            final(self).wf(),
            final(self).spec_user_ports() == old(self).spec_user_ports(),
            bound == Ok::<bool, ()>(false) ==> (r matches Ok((s, rc)) && s.spec_idx()
                == socket.spec_idx() && rc.spec_idx() == socket.spec_idx() && s.spec_port() == port
                && rc.spec_port() == port && final(self).spec_slots() == old(
                self).spec_slots().update(socket.spec_idx() as int, Some(PortEntry::Port(port)))),
            bound != Ok::<bool, ()>(false) ==> r == Err::<
                (UdpSenderBinding, UdpReceiverBinding),
                UdpPortSocket,
            >(socket) && final(self).spec_slots() == old(self).spec_slots(),
    {
        proof {
            use_type_invariant(&socket);
        }
        match bound {
            Ok(b) => {
                if b {
                    Err(socket)
                } else {
                    let idx: usize = socket.idx;
                    self.port_array.set(idx, Some(PortEntry::Port(port)));
                    assert(ports_distinct(self.spec_slots())) by {
                        assert forall|a: int, b: int|
                            0 <= a < self.spec_slots().len() && 0 <= b < self.spec_slots().len()
                                && a != b && #[trigger] self.spec_slots()[a]
                                == #[trigger] self.spec_slots()[b] implies !(
                            self.spec_slots()[a] matches Some(PortEntry::Port(_))) by {
                            if a != idx && b != idx {
                                assert(old(self).spec_slots()[a] == old(self).spec_slots()[b]);
                            } else if a == idx {
                                assert(old(self).spec_slots()[b] == Some(PortEntry::Port(port)));
                            } else {
                                assert(old(self).spec_slots()[a] == Some(PortEntry::Port(port)));
                            }
                        }
                    }
                    Ok((UdpSenderBinding::new(idx, port), UdpReceiverBinding::new(idx, port)))
                }
            },
            Err(_) => Err(socket),
        }
    }

    /// Binds the socket to the port, unless the port is already bound or
    /// the query of the applications' ports is not set; on failure the
    /// socket is given back. Whether an application bound the port is
    /// decided by the query.
    pub fn bind(&mut self, socket: UdpPortSocket, port: u16) -> (r: Result<
        (UdpSenderBinding, UdpReceiverBinding),
        UdpPortSocket,
    >)
        requires
            old(self).wf(),
        ensures
            final(self).wf(),
            final(self).spec_user_ports() == old(self).spec_user_ports(),
            r is Ok ==> !holds_port(old(self).spec_slots(), port) && old(self).spec_user_ports() is Some
                && (r matches Ok((s, rc)) && s.spec_idx() == socket.spec_idx() && rc.spec_idx()
                == socket.spec_idx() && s.spec_port() == port && rc.spec_port() == port
                && final(self).spec_slots() == old(self).spec_slots().update(
                socket.spec_idx() as int,
                Some(PortEntry::Port(port)),
            )),
            r is Err ==> r == Err::<(UdpSenderBinding, UdpReceiverBinding), UdpPortSocket>(socket)
                && final(self).spec_slots() == old(self).spec_slots(),
            holds_port(old(self).spec_slots(), port) || old(self).spec_user_ports() is None ==> r is Err,
    {
        let bound: Result<bool, ()> = self.is_bound(port);
        self.bind_with(socket, port, bound)
    }

    /// Gives up the bindings of a port: the slot becomes a socket again.
    /// Fails, giving the bindings back, if they are not for the same slot.
    pub fn unbind(
        &mut self,
        sender_binding: UdpSenderBinding,
        receiver_binding: UdpReceiverBinding,
    ) -> (r: Result<UdpPortSocket, (UdpSenderBinding, UdpReceiverBinding)>)
        requires
            old(self).wf(),
        ensures
            final(self).wf(),
            final(self).spec_user_ports() == old(self).spec_user_ports(),
            sender_binding.spec_idx() != receiver_binding.spec_idx() ==> r == Err::<
                UdpPortSocket,
                (UdpSenderBinding, UdpReceiverBinding),
            >((sender_binding, receiver_binding)) && final(self).spec_slots() == old(self).spec_slots(),
            sender_binding.spec_idx() == receiver_binding.spec_idx() ==> (r matches Ok(s)
                && s.spec_idx() == sender_binding.spec_idx() && final(self).spec_slots() == old(
                self).spec_slots().update(sender_binding.spec_idx() as int, Some(PortEntry::Unbound))),
    {
        proof {
            use_type_invariant(&sender_binding);
        }
        if sender_binding.idx != receiver_binding.idx {
            return Err((sender_binding, receiver_binding));
        }
        let idx: usize = sender_binding.idx;
        self.port_array.set(idx, Some(PortEntry::Unbound));
        assert(ports_distinct(self.spec_slots())) by {
            assert forall|a: int, b: int|
                0 <= a < self.spec_slots().len() && 0 <= b < self.spec_slots().len() && a != b
                    && #[trigger] self.spec_slots()[a] == #[trigger] self.spec_slots()[b]
                implies !(self.spec_slots()[a] matches Some(PortEntry::Port(_))) by {
                if a != idx && b != idx {
                    assert(old(self).spec_slots()[a] == old(self).spec_slots()[b]);
                }
            }
        }
        Ok(UdpPortSocket::new(idx))
    }
}

/// In a well-formed table no two slots hold the same port: a port is bound
/// by at most one capsule at any time.
pub proof fn lemma_port_bound_once<Q: PortQuery>(table: UdpPortTable<Q>, i: int, j: int, port: u16)
    requires
        table.wf(),
        0 <= i < MAX_NUM_BOUND_PORTS,
        0 <= j < MAX_NUM_BOUND_PORTS,
        table.spec_slots()[i] == Some(PortEntry::Port(port)),
        table.spec_slots()[j] == Some(PortEntry::Port(port)),
    ensures
        i == j,
{
}


/// A port bound in some slot of the table is reported as bound: once `bind`
/// stored the port, `is_bound` answers `Ok(true)` for it whatever the
/// applications bound.
pub proof fn lemma_bound_port_is_reported(slots: Seq<Option<PortEntry>>, idx: int, port: u16)
    requires
        0 <= idx < slots.len(),
        slots[idx] == Some(PortEntry::Port(port)),
    ensures
        holds_port(slots, port),
        forall|user_bound: bool| #[trigger] bound_outcome(slots, Some(user_bound), port) == Ok::<bool, ()>(true),
{
}

} // verus!
