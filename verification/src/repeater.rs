//! The repeater core: singleton-bootstrap decision, registration table,
//! and the dispatch state machine that classifies each inbound datagram.
//!
//! All socket work stays outside the library.  The surrounding I/O loop
//! receives one datagram, hands its bytes and source endpoint to
//! [`Repeater::on_datagram`], and performs the returned [`Action`]: it
//! fans a beacon out along the plan of [`Repeater::fanout_sends`], or
//! binds a fresh forward socket, sends the confirmation bytes, and on
//! success records the client through [`Repeater::commit_registration`].

use crate::addr::Endpoint;
use crate::protocol::{
    spec_decode_header, spec_encode_header, spec_valid_command_id, Command, MessageHeader,
    HEADER_SIZE,
};
use vstd::prelude::*;

verus! {

/// One registered local CA client: the source endpoint observed on its
/// registration datagram, and the local port of the dedicated UDP socket
/// bound to forward traffic to it.  The socket itself lives with the I/O
/// code; its port stands for it here.
#[derive(Clone, Copy, Debug, PartialEq, Eq, Structural)]
pub struct RegisteredClient {
    /// The client's source UDP endpoint.
    pub remote_address: Endpoint,
    /// Local ephemeral port of the forward socket serving this client.
    pub forward_port: u16,
}

/// Why a datagram was dropped without effect.
#[derive(Clone, Copy, Debug, PartialEq, Eq, Structural)]
pub enum DropReason {
    /// The datagram is not exactly one standard header long.
    NotHeaderSized,
    /// The command field is not a known command identifier.
    UnknownCommand,
    /// A known command that the repeater does not act on.
    UnsupportedCommand,
    /// A registration from a source endpoint that is already in the table.
    AlreadyRegistered,
    /// A registration whose advertised address does not match its source.
    AddressMismatch,
}

/// What the I/O loop must do with one received datagram.
#[derive(Debug)]
pub enum Action {
    /// Drop the datagram; nothing is sent and the table is unchanged.
    Ignore(DropReason),
    /// Send these bytes, verbatim, to every registered client via its
    /// forward socket.
    ForwardToAll(Vec<u8>),
    /// Bind a fresh loopback forward socket, send these confirmation
    /// bytes through it to the datagram's source, and on send success
    /// commit the registration.
    AcceptRegistration(Vec<u8>),
}

/// No two records share a source endpoint.
pub open spec fn spec_sources_distinct(t: Seq<RegisteredClient>) -> bool {
    forall|i: int, j: int|
        0 <= i < j < t.len() ==> t[i].remote_address != t[j].remote_address
}

/// No two records share a forward-socket port.
pub open spec fn spec_forward_ports_distinct(t: Seq<RegisteredClient>) -> bool {
    forall|i: int, j: int| 0 <= i < j < t.len() ==> t[i].forward_port != t[j].forward_port
}

/// The registration table's invariant.
pub open spec fn spec_table_wf(t: Seq<RegisteredClient>) -> bool {
    spec_sources_distinct(t) && spec_forward_ports_distinct(t)
}

/// Whether some record already has this source endpoint.
pub open spec fn spec_contains_source(t: Seq<RegisteredClient>, src: Endpoint) -> bool {
    exists|i: int| 0 <= i < t.len() && t[i].remote_address == src
}

/// Whether some record already uses this forward port.
pub open spec fn spec_port_in_use(t: Seq<RegisteredClient>, port: u16) -> bool {
    exists|i: int| 0 <= i < t.len() && t[i].forward_port == port
}

/// The confirmation header sent back to a newly registered client:
/// everything zero but the command and the repeater's own IPv4 address.
pub open spec fn spec_confirm_header(local_ip: u32) -> MessageHeader {
    MessageHeader {
        command: 0x11,
        payload_size: 0,
        data_type: 0,
        data_count: 0,
        parameter_1: 0,
        parameter_2: local_ip,
    }
}

/// The repeater's state: the IPv4 address its listening socket is bound
/// to (told to each registering client), and the registration table.
pub struct Repeater {
    /// IPv4 address the repeater considers authoritative for itself.
    pub local_ip: u32,
    /// One record per registered local client, in registration order.
    pub registered_clients: Vec<RegisteredClient>,
}

impl Repeater {
    /// The registration table's invariant: pairwise distinct source
    /// endpoints and pairwise distinct forward ports.
    pub open spec fn wf(self) -> bool {
        spec_table_wf(self.registered_clients@)
    }

    /// A repeater that has just bound its listening socket: empty table.
    pub fn new(local_ip: u32) -> (r: Repeater)
        ensures
            r.local_ip == local_ip,
            r.registered_clients@.len() == 0,
            r.wf(),
    {
        Repeater { local_ip, registered_clients: Vec::new() }
    }

    /// Decides the table invariant at run time, for callers outside the
    /// verified world that must test it before committing a registration.
    #[verifier::loop_isolation(false)]
    pub fn table_is_wf(&self) -> (r: bool)
        ensures
            r == self.wf(),
    {
        let t = &self.registered_clients;
        let mut i: usize = 0;
        while i < t.len()
            invariant
                i <= t@.len(),
                forall|a: int, b: int|
                    0 <= a < b < t@.len() && a < i ==> t@[a].remote_address != t@[b].remote_address
                        && t@[a].forward_port != t@[b].forward_port,
            decreases t@.len() - i,
        {
            let mut j: usize = i + 1;
            while j < t.len()
                invariant
                    i < j <= t@.len(),
                    forall|b: int|
                        i < b < j ==> t@[i as int].remote_address != t@[b].remote_address
                            && t@[i as int].forward_port != t@[b].forward_port,
                decreases t@.len() - j,
            {
                if t[i].remote_address == t[j].remote_address || t[i].forward_port
                    == t[j].forward_port {
                    return false;
                }
                j = j + 1;
            }
            i = i + 1;
        }
        true
    }

    /// Whether a client with this source endpoint is already registered.
    pub fn contains_source(&self, src: Endpoint) -> (r: bool)
        ensures
            r == spec_contains_source(self.registered_clients@, src),
    {
        let mut i: usize = 0;
        while i < self.registered_clients.len()
            invariant
                i <= self.registered_clients@.len(),
                forall|k: int| 0 <= k < i ==> self.registered_clients@[k].remote_address != src,
            decreases self.registered_clients@.len() - i,
        {
            if self.registered_clients[i].remote_address == src {
                return true;
            }
            i = i + 1;
        }
        false
    }

    /// Whether a new registration with this source and forward port may be
    /// committed: the source is not yet registered and the port is not yet
    /// in use.  The I/O loop checks this before committing.
    pub fn can_commit(&self, src: Endpoint, forward_port: u16) -> (r: bool)
        ensures
            r == (!spec_contains_source(self.registered_clients@, src) && !spec_port_in_use(
                self.registered_clients@,
                forward_port,
            )),
    {
        if self.contains_source(src) {
            return false;
        }
        let mut i: usize = 0;
        while i < self.registered_clients.len()
            invariant
                i <= self.registered_clients@.len(),
                forall|k: int| 0 <= k < i ==> self.registered_clients@[k].forward_port
                    != forward_port,
                !spec_contains_source(self.registered_clients@, src),
            decreases self.registered_clients@.len() - i,
        {
            if self.registered_clients[i].forward_port == forward_port {
                return false;
            }
            i = i + 1;
        }
        true
    }

    /// Classifies one received datagram and decides what to do with it,
    /// without changing any state.  The checks mirror the wire contract:
    /// only 16-byte frames are considered; beacons are forwarded verbatim;
    /// a registration is accepted only when its source is new and the
    /// advertised address matches the source address; every other frame is
    /// dropped.
    pub fn on_datagram(&self, src: Endpoint, buf: &Vec<u8>) -> (action: Action)
        ensures
            buf@.len() != HEADER_SIZE ==> action == Action::Ignore(DropReason::NotHeaderSized),
            buf@.len() == HEADER_SIZE ==> {
                let h = spec_decode_header(buf@);
                &&& h.command == 0x0D ==> (action matches Action::ForwardToAll(f) && f@ == buf@)
                &&& h.command == 0x18 && spec_contains_source(self.registered_clients@, src)
                    ==> action == Action::Ignore(DropReason::AlreadyRegistered)
                &&& h.command == 0x18 && !spec_contains_source(self.registered_clients@, src)
                    && h.parameter_2 != src.ip ==> action == Action::Ignore(
                    DropReason::AddressMismatch,
                )
                &&& h.command == 0x18 && !spec_contains_source(self.registered_clients@, src)
                    && h.parameter_2 == src.ip ==> (action matches Action::AcceptRegistration(c)
                    && c@ == spec_encode_header(spec_confirm_header(self.local_ip)))
                &&& spec_valid_command_id(h.command) && h.command != 0x0D && h.command != 0x18
                    ==> action == Action::Ignore(DropReason::UnsupportedCommand)
                &&& !spec_valid_command_id(h.command) ==> action == Action::Ignore(
                    DropReason::UnknownCommand,
                )
            },
    {
        if buf.len() != HEADER_SIZE {
            return Action::Ignore(DropReason::NotHeaderSized);
        }
        // A 16-byte buffer always decodes; the arm is unreachable.
        let header = match MessageHeader::from_bytes(buf.as_slice()) {
            Ok(h) => h,
            Err(_) => {
                return Action::Ignore(DropReason::NotHeaderSized);
            },
        };
        let command = match Command::try_from_u16(header.command) {
            Ok(c) => c,
            Err(_) => {
                return Action::Ignore(DropReason::UnknownCommand);
            },
        };
        match command {
            Command::CA_PROTO_RSRV_IS_UP => Action::ForwardToAll(copy_bytes(buf)),
            Command::CA_REPEATER_REGISTER => {
                if self.contains_source(src) {
                    return Action::Ignore(DropReason::AlreadyRegistered);
                }
                if header.parameter_2 != src.ip {
                    return Action::Ignore(DropReason::AddressMismatch);
                }
                let confirm = MessageHeader {
                    command: Command::CA_REPEATER_CONFIRM.to_u16(),
                    payload_size: 0,
                    data_type: 0,
                    data_count: 0,
                    parameter_1: 0,
                    parameter_2: self.local_ip,
                };
                Action::AcceptRegistration(confirm.as_bytes())
            },
            _ => Action::Ignore(DropReason::UnsupportedCommand),
        }
    }

    /// The exact fan-out of one beacon: a byte-equal copy of the datagram
    /// for every registered client, in table order, and nothing else.
    pub fn fanout_sends(&self, buf: &Vec<u8>) -> (sends: Vec<(RegisteredClient, Vec<u8>)>)
        ensures
            sends@.len() == self.registered_clients@.len(),
            forall|i: int|
                0 <= i < sends@.len() ==> sends@[i].0 == self.registered_clients@[i]
                    && sends@[i].1@ == buf@,
    {
        let mut sends: Vec<(RegisteredClient, Vec<u8>)> = Vec::new();
        let mut i: usize = 0;
        while i < self.registered_clients.len()
            invariant
                i <= self.registered_clients@.len(),
                sends@.len() == i,
                forall|k: int|
                    0 <= k < i ==> sends@[k].0 == self.registered_clients@[k] && sends@[k].1@
                        == buf@,
            decreases self.registered_clients@.len() - i,
        {
            sends.push((self.registered_clients[i], copy_bytes(buf)));
            i = i + 1;
        }
        sends
    }

    /// Appends a successfully confirmed registration to the table.  The
    /// I/O loop calls this only after the confirmation was sent through
    /// the freshly bound forward socket, and only when `can_commit` holds.
    pub fn commit_registration(&mut self, src: Endpoint, forward_port: u16)
        requires
            old(self).wf(),
            !spec_contains_source(old(self).registered_clients@, src),
            !spec_port_in_use(old(self).registered_clients@, forward_port),
        ensures
            final(self).registered_clients@ == old(self).registered_clients@.push(
                RegisteredClient { remote_address: src, forward_port },
            ),
            final(self).local_ip == old(self).local_ip,
            final(self).wf(),
    {
        self.registered_clients.push(RegisteredClient { remote_address: src, forward_port });
        proof {
            let t = self.registered_clients@;
            let t0 = old(self).registered_clients@;
            assert forall|i: int, j: int| 0 <= i < j < t.len() implies t[i].remote_address
                != t[j].remote_address && t[i].forward_port != t[j].forward_port by {
                if j < t.len() - 1 {
                    assert(t0[i] == t[i] && t0[j] == t[j]);
                } else {
                    assert(t0[i] == t[i]);
                    assert(!(0 <= i < t0.len() && t0[i].remote_address == src));
                    assert(!(0 <= i < t0.len() && t0[i].forward_port == forward_port));
                }
            }
        }
    }
}

/// The table that results from a run of committed registrations.
pub open spec fn spec_table_after(
    t: Seq<RegisteredClient>,
    regs: Seq<RegisteredClient>,
) -> Seq<RegisteredClient>
    decreases regs.len(),
{
    if regs.len() == 0 {
        t
    } else {
        spec_table_after(t.push(regs[0]), regs.skip(1))
    }
}

/// Committing registrations one after another appends them in order.
pub proof fn lemma_table_after_appends(t: Seq<RegisteredClient>, regs: Seq<RegisteredClient>)
    ensures
        spec_table_after(t, regs) == t + regs,
    decreases regs.len(),
{
    if regs.len() == 0 {
        assert(spec_table_after(t, regs) =~= t + regs);
    } else {
        lemma_table_after_appends(t.push(regs[0]), regs.skip(1));
        assert(t.push(regs[0]) + regs.skip(1) =~= t + regs);
    }
}

/// After any number of successful registrations into an empty table —
/// sources pairwise distinct, forward ports pairwise distinct, as each
/// commit demands — the table holds exactly one record per registration,
/// and its invariant holds: the forward ports are pairwise distinct.
pub proof fn lemma_registration_table(regs: Seq<RegisteredClient>)
    requires
        spec_sources_distinct(regs),
        spec_forward_ports_distinct(regs),
    ensures
        spec_table_after(Seq::<RegisteredClient>::empty(), regs).len() == regs.len(),
        spec_table_wf(spec_table_after(Seq::<RegisteredClient>::empty(), regs)),
{
    lemma_table_after_appends(Seq::<RegisteredClient>::empty(), regs);
    assert(spec_table_after(Seq::<RegisteredClient>::empty(), regs) =~= regs);
}

/// What the bootstrap probe on the repeater port came back with.
#[derive(Clone, Copy, Debug, PartialEq, Eq, Structural)]
pub enum BindOutcome {
    /// The bind succeeded: no repeater holds the port yet.
    Bound,
    /// The port is already in use: another repeater is running.
    AddrInUse,
    /// The bind failed for any other reason.
    OtherError,
}

/// What the bootstrap must do after probing the repeater port.
#[derive(Clone, Copy, Debug, PartialEq, Eq, Structural)]
pub enum BootstrapAction {
    /// This process won the election: run the repeater core.
    SpawnRepeater,
    /// Another process already owns the port: return without spawning.
    AlreadyRunning,
    /// The port cannot be acquired at all: fatal to bootstrap.
    Fail,
}

/// The singleton election: binding the well-known port is the only
/// primitive.  Success elects this process; "address in use" means some
/// other process is the repeater; anything else is fatal.
pub fn bootstrap_decision(outcome: BindOutcome) -> (a: BootstrapAction)
    ensures
        outcome == BindOutcome::Bound ==> a == BootstrapAction::SpawnRepeater,
        outcome == BindOutcome::AddrInUse ==> a == BootstrapAction::AlreadyRunning,
        outcome == BindOutcome::OtherError ==> a == BootstrapAction::Fail,
{
    match outcome {
        BindOutcome::Bound => BootstrapAction::SpawnRepeater,
        BindOutcome::AddrInUse => BootstrapAction::AlreadyRunning,
        BindOutcome::OtherError => BootstrapAction::Fail,
    }
}

/// A byte-for-byte copy of a datagram buffer.
fn copy_bytes(src: &Vec<u8>) -> (r: Vec<u8>)
    ensures
        r@ == src@,
{
    let mut r: Vec<u8> = Vec::with_capacity(src.len());
    let mut i: usize = 0;
    while i < src.len()
        invariant
            i <= src@.len(),
            r@ == src@.take(i as int),
        decreases src@.len() - i,
    {
        r.push(src[i]);
        proof {
            assert(r@ =~= src@.take(i + 1 as int));
        }
        i = i + 1;
    }
    proof {
        assert(r@ =~= src@);
    }
    r
}

} // verus!
