//! The host side of the socket device: pairing connections that host processes make to a
//! port's Unix socket with the guest's side of the same port, port by port.
use vstd::prelude::*;
use std::collections::HashSet;

verus! {

broadcast use vstd::std_specs::hash::group_hash_axioms;

/// Something that happened on one port.
#[derive(Debug, Clone, Copy, PartialEq, Eq, Structural)]
pub enum BridgeEvent {
    /// A host process connected to the socket of a port the guest connects to.
    ListenAccepted(u32),
    /// A host process connected to the socket of a port through which the host connects to
    /// the guest.
    ConnectAccepted(u32),
    /// The guest asks to connect to the port.
    GuestConnect(u32),
    /// The guest accepted the connection the bridge asked for on the port.
    GuestConnected(u32),
    /// The guest sent data on the port.
    GuestData(u32),
    /// The guest closed the port.
    GuestShutdown(u32),
    /// The host side of the port's connection ended: end of file, a read error, or a failed
    /// write.
    HostClosed(u32),
}

/// What the bridge does about an event.
#[derive(Debug, Clone, Copy, PartialEq, Eq, Structural)]
pub enum BridgeAction {
    /// Close the host connection that just arrived: the port is busy.
    Refuse,
    /// Keep the new host connection until the guest asks for the port.
    Hold,
    /// Keep the new host connection and ask the device to connect the guest.
    HoldAndRequest,
    /// Join the guest with the host connection (the new one, or the one held for the port)
    /// and start relaying.
    Join,
    /// Remember that the guest waits for a host connection on the port.
    AwaitHost,
    /// Write the data to the port's host connection.
    Write,
    /// Nothing to do.
    Ignore,
    /// Drop the port's host connection and any connection held for the port's guest.
    Drop,
    /// Drop the port's host connection and tell the device that it closed.
    CloseAndNotify,
}

/// The ports in each stage of pairing.
pub struct BridgeView {
    /// Ports whose host connection is joined with the guest.
    pub connected: Set<u32>,
    /// Ports with a host connection waiting for the guest to ask.
    pub held_hosts: Set<u32>,
    /// Ports the guest asked for before any host connected.
    pub waiting_guests: Set<u32>,
    /// Ports with a host connection waiting for the guest to accept.
    pub held_connects: Set<u32>,
}

/// The bridge's pairing state.
pub struct BridgeState {
    connected: HashSet<u32>,
    held_hosts: HashSet<u32>,
    waiting_guests: HashSet<u32>,
    held_connects: HashSet<u32>,
}

impl View for BridgeState {
    type V = BridgeView;

    closed spec fn view(&self) -> BridgeView {
        BridgeView {
            connected: self.connected@,
            held_hosts: self.held_hosts@,
            waiting_guests: self.waiting_guests@,
            held_connects: self.held_connects@,
        }
    }
}

/// The state with these four sets.
pub open spec fn with_sets(connected: Set<u32>, held_hosts: Set<u32>, waiting_guests: Set<u32>, held_connects: Set<u32>) -> BridgeView {
    BridgeView { connected, held_hosts, waiting_guests, held_connects }
}

/// The next state and the action for event `e` in state `s`:
/// - a host connecting to a listen port is refused when the port is connected or already has
///   a held host; it is joined when the guest is waiting, otherwise held;
/// - a host connecting to a connect port is refused when the port is connected or already has
///   a held connection, otherwise held while the guest is asked to connect;
/// - the guest asking for a port joins the held host, or waits;
/// - the guest accepting joins the held connection (nothing if there is none);
/// - guest data is written only on a connected port;
/// - the guest closing drops the connection and any held connection;
/// - the host side ending drops the connection and tells the guest.
pub open spec fn bridge_step(s: BridgeView, e: BridgeEvent) -> (BridgeView, BridgeAction) {
    match e {
        BridgeEvent::ListenAccepted(p) => {
            if s.connected.contains(p) || s.held_hosts.contains(p) {
                (s, BridgeAction::Refuse)
            } else if s.waiting_guests.contains(p) {
                (with_sets(s.connected.insert(p), s.held_hosts, s.waiting_guests.remove(p), s.held_connects), BridgeAction::Join)
            } else {
                (with_sets(s.connected, s.held_hosts.insert(p), s.waiting_guests, s.held_connects), BridgeAction::Hold)
            }
        },
        BridgeEvent::ConnectAccepted(p) => {
            if s.connected.contains(p) || s.held_connects.contains(p) {
                (s, BridgeAction::Refuse)
            } else {
                (with_sets(s.connected, s.held_hosts, s.waiting_guests, s.held_connects.insert(p)), BridgeAction::HoldAndRequest)
            }
        },
        BridgeEvent::GuestConnect(p) => {
            if s.held_hosts.contains(p) {
                (with_sets(s.connected.insert(p), s.held_hosts.remove(p), s.waiting_guests, s.held_connects), BridgeAction::Join)
            } else {
                (with_sets(s.connected, s.held_hosts, s.waiting_guests.insert(p), s.held_connects), BridgeAction::AwaitHost)
            }
        },
        BridgeEvent::GuestConnected(p) => {
            if s.held_connects.contains(p) {
                (with_sets(s.connected.insert(p), s.held_hosts, s.waiting_guests, s.held_connects.remove(p)), BridgeAction::Join)
            } else {
                (s, BridgeAction::Ignore)
            }
        },
        BridgeEvent::GuestData(p) => {
            if s.connected.contains(p) {
                (s, BridgeAction::Write)
            } else {
                (s, BridgeAction::Ignore)
            }
        },
        BridgeEvent::GuestShutdown(p) => {
            (with_sets(s.connected.remove(p), s.held_hosts, s.waiting_guests, s.held_connects.remove(p)), BridgeAction::Drop)
        },
        BridgeEvent::HostClosed(p) => {
            (with_sets(s.connected.remove(p), s.held_hosts, s.waiting_guests, s.held_connects), BridgeAction::CloseAndNotify)
        },
    }
}

/// No port both has a held host connection and a waiting guest: one of them would have been
/// joined with the other.
pub open spec fn bridge_wf(s: BridgeView) -> bool {
    forall|p: u32| !(#[trigger] s.held_hosts.contains(p) && s.waiting_guests.contains(p))
}

impl BridgeState {
    /// No connections, nothing held or waiting.
    pub fn new() -> (r: BridgeState)
        ensures
            r@.connected == Set::<u32>::empty(),
            r@.held_hosts == Set::<u32>::empty(),
            r@.waiting_guests == Set::<u32>::empty(),
            r@.held_connects == Set::<u32>::empty(),
            bridge_wf(r@),
    {
        BridgeState {
            connected: HashSet::new(),
            held_hosts: HashSet::new(),
            waiting_guests: HashSet::new(),
            held_connects: HashSet::new(),
        }
    }

    /// Takes event `e`: moves to the next state and says what to do (see `bridge_step`).
    pub fn step(&mut self, e: BridgeEvent) -> (r: BridgeAction)
        ensures
            final(self)@ == bridge_step(old(self)@, e).0,
            r == bridge_step(old(self)@, e).1,
            bridge_wf(old(self)@) ==> bridge_wf(final(self)@),
    {
        let ghost s = self@;
        let r = match e {
            BridgeEvent::ListenAccepted(p) => {
                if self.connected.contains(&p) || self.held_hosts.contains(&p) {
                    BridgeAction::Refuse
                } else if self.waiting_guests.contains(&p) {
                    self.waiting_guests.remove(&p);
                    self.connected.insert(p);
                    BridgeAction::Join
                } else {
                    self.held_hosts.insert(p);
                    BridgeAction::Hold
                }
            },
            BridgeEvent::ConnectAccepted(p) => {
                if self.connected.contains(&p) || self.held_connects.contains(&p) {
                    BridgeAction::Refuse
                } else {
                    self.held_connects.insert(p);
                    BridgeAction::HoldAndRequest
                }
            },
            BridgeEvent::GuestConnect(p) => {
                if self.held_hosts.contains(&p) {
                    self.held_hosts.remove(&p);
                    self.connected.insert(p);
                    BridgeAction::Join
                } else {
                    self.waiting_guests.insert(p);
                    BridgeAction::AwaitHost
                }
            },
            BridgeEvent::GuestConnected(p) => {
                if self.held_connects.contains(&p) {
                    self.held_connects.remove(&p);
                    self.connected.insert(p);
                    BridgeAction::Join
                } else {
                    BridgeAction::Ignore
                }
            },
            BridgeEvent::GuestData(p) => {
                if self.connected.contains(&p) {
                    BridgeAction::Write
                } else {
                    BridgeAction::Ignore
                }
            },
            BridgeEvent::GuestShutdown(p) => {
                self.connected.remove(&p);
                self.held_connects.remove(&p);
                BridgeAction::Drop
            },
            BridgeEvent::HostClosed(p) => {
                self.connected.remove(&p);
                BridgeAction::CloseAndNotify
            },
        };
        proof {
            let t = bridge_step(s, e).0;
            assert(self@.connected =~= t.connected);
            assert(self@.held_hosts =~= t.held_hosts);
            assert(self@.waiting_guests =~= t.waiting_guests);
            assert(self@.held_connects =~= t.held_connects);
        }
        r
    }
}

/// Whichever comes first on a free port, the host connecting to its socket or the guest
/// asking for it, the second joins them.
pub proof fn law_bridge_rendezvous(s: BridgeView, p: u32)
    requires
        !s.connected.contains(p),
        !s.held_hosts.contains(p),
        !s.waiting_guests.contains(p),
    ensures
        ({
            let (s1, a1) = bridge_step(s, BridgeEvent::ListenAccepted(p));
            let (s2, a2) = bridge_step(s1, BridgeEvent::GuestConnect(p));
            a1 == BridgeAction::Hold && a2 == BridgeAction::Join && s2.connected.contains(p)
                && !s2.held_hosts.contains(p) && !s2.waiting_guests.contains(p)
        }),
        ({
            let (s1, a1) = bridge_step(s, BridgeEvent::GuestConnect(p));
            let (s2, a2) = bridge_step(s1, BridgeEvent::ListenAccepted(p));
            a1 == BridgeAction::AwaitHost && a2 == BridgeAction::Join && s2.connected.contains(p)
                && !s2.held_hosts.contains(p) && !s2.waiting_guests.contains(p)
        }),
{
}

/// A host connecting through a free connect port is held while the guest is asked, and
/// joined when the guest accepts.
pub proof fn law_bridge_connect_handshake(s: BridgeView, p: u32)
    requires
        !s.connected.contains(p),
        !s.held_connects.contains(p),
    ensures
        ({
            let (s1, a1) = bridge_step(s, BridgeEvent::ConnectAccepted(p));
            let (s2, a2) = bridge_step(s1, BridgeEvent::GuestConnected(p));
            a1 == BridgeAction::HoldAndRequest && a2 == BridgeAction::Join && s2.connected.contains(p)
                && !s2.held_connects.contains(p)
        }),
{
}

/// A second host connection to a connected port is refused and changes nothing.
pub proof fn law_bridge_busy_port_refuses(s: BridgeView, p: u32)
    requires
        s.connected.contains(p),
    ensures
        bridge_step(s, BridgeEvent::ListenAccepted(p)) == (s, BridgeAction::Refuse),
        bridge_step(s, BridgeEvent::ConnectAccepted(p)) == (s, BridgeAction::Refuse),
{
}

/// After the guest closes a port, its data on that port is not written anywhere.
pub proof fn law_bridge_no_data_after_shutdown(s: BridgeView, p: u32)
    ensures
        bridge_step(bridge_step(s, BridgeEvent::GuestShutdown(p)).0, BridgeEvent::GuestData(p)).1
            == BridgeAction::Ignore,
{
}

} // verus!
