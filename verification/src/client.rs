//! Client-side core: the registration handshake frame, the beacon-intake
//! bookkeeping, and the liveness sweeper over the per-server records.
//!
//! The surrounding I/O code owns the client's repeater-facing socket and
//! its tasks.  It sends the bytes of [`Client::registration_header`] to
//! the repeater port, feeds every received datagram to
//! [`Client::handle_packet`] with the arrival time, and runs
//! [`Client::sweep`] periodically with the current time.

use crate::addr::Endpoint;
use crate::protocol::{spec_decode_header, Command, MessageHeader, HEADER_SIZE};
use crate::{BEACON_EVICTION_AGE_MS, CA_SERVER_PORT, LOCALHOST_U32};
use vstd::prelude::*;
use vstd::seq_lib::group_filter_ensures;

verus! {

/// Errors surfaced to a client's caller.  Only bootstrap and socket
/// failures reach the caller; per-datagram problems are recovered locally.
#[derive(Debug)]
pub enum Error {
    /// A socket operation failed; the message describes it.
    IoError(String),
    /// The registration handshake could not be carried out.
    RegistrationError(String),
}

/// One CA server observed through forwarded beacons.
#[derive(Clone, Copy, Debug, PartialEq, Eq, Structural)]
pub struct ServerRecord {
    /// The server's TCP endpoint as advertised in its beacons.
    pub tcp_address: Endpoint,
    /// Sequence id of the most recent beacon (parameter 1 of the frame).
    pub last_beacon_id: u32,
    /// Local wall-clock arrival time of the most recent beacon, in
    /// milliseconds.
    pub last_beacon_timestamp: u64,
}

/// Whether a record is still live at time `now`: its last beacon is
/// younger than twice the beacon period.
pub open spec fn spec_live(r: ServerRecord, now: u64) -> bool {
    now - r.last_beacon_timestamp < BEACON_EVICTION_AGE_MS
}

/// No two records describe the same server endpoint.
pub open spec fn spec_servers_distinct(list: Seq<ServerRecord>) -> bool {
    forall|i: int, j: int| 0 <= i < j < list.len() ==> list[i].tcp_address != list[j].tcp_address
}

/// Whether some record already describes this server endpoint.
pub open spec fn spec_contains_server(list: Seq<ServerRecord>, ep: Endpoint) -> bool {
    exists|i: int| 0 <= i < list.len() && list[i].tcp_address == ep
}

/// The server endpoint a beacon advertises: the IPv4 address travels in
/// parameter 2, and the server's TCP port in the data-type slot per the
/// CA beacon convention, with the well-known server port standing in when
/// that slot is zero.
pub open spec fn spec_beacon_endpoint(h: MessageHeader) -> Endpoint {
    Endpoint { ip: h.parameter_2, port: if h.data_type != 0 { h.data_type } else { CA_SERVER_PORT } }
}

/// The record a beacon deposits when it arrives at time `now`.
pub open spec fn spec_beacon_record(h: MessageHeader, now: u64) -> ServerRecord {
    ServerRecord {
        tcp_address: spec_beacon_endpoint(h),
        last_beacon_id: h.parameter_1,
        last_beacon_timestamp: now,
    }
}

/// The registration frame a client sends to its local repeater:
/// everything zero but the command and the loopback address it registers.
pub open spec fn spec_registration_header() -> MessageHeader {
    MessageHeader {
        command: 0x18,
        payload_size: 0,
        data_type: 0,
        data_count: 0,
        parameter_1: 0,
        parameter_2: LOCALHOST_U32,
    }
}

/// What is left of a server table after a sweep at time `now`: exactly
/// the records whose last beacon is younger than twice the beacon period.
pub open spec fn spec_sweep(list: Seq<ServerRecord>, now: u64) -> Seq<ServerRecord> {
    list.filter(|r: ServerRecord| spec_live(r, now))
}

/// The client's protocol state: whether the repeater has confirmed the
/// registration, and the per-server liveness table.
pub struct Client {
    /// Set once, when a confirmation frame arrives; never reset.
    pub registered: bool,
    /// One record per server seen via forwarded beacons.
    pub server_list: Vec<ServerRecord>,
}

impl Client {
    /// The server table's invariant: one record per server endpoint.
    pub open spec fn wf(self) -> bool {
        spec_servers_distinct(self.server_list@)
    }

    /// A client that has not registered yet and has seen no server.
    pub fn new() -> (c: Client)
        ensures
            !c.registered,
            c.server_list@.len() == 0,
            c.wf(),
    {
        Client { registered: false, server_list: Vec::new() }
    }

    /// True once the repeater has confirmed this client's registration.
    pub fn is_registered(&self) -> (r: bool)
        ensures
            r == self.registered,
    {
        self.registered
    }

    /// Decides the table invariant at run time, for callers outside the
    /// verified world that must test it before feeding a packet in.
    #[verifier::loop_isolation(false)]
    pub fn table_is_wf(&self) -> (r: bool)
        ensures
            r == self.wf(),
    {
        let t = &self.server_list;
        let mut i: usize = 0;
        while i < t.len()
            invariant
                i <= t@.len(),
                forall|a: int, b: int|
                    0 <= a < b < t@.len() && a < i ==> t@[a].tcp_address != t@[b].tcp_address,
            decreases t@.len() - i,
        {
            let mut j: usize = i + 1;
            while j < t.len()
                invariant
                    i < j <= t@.len(),
                    forall|b: int| i < b < j ==> t@[i as int].tcp_address != t@[b].tcp_address,
                decreases t@.len() - j,
            {
                if t[i].tcp_address == t[j].tcp_address {
                    return false;
                }
                j = j + 1;
            }
            i = i + 1;
        }
        true
    }

    /// The registration frame to send to the local repeater port.
    pub fn registration_header() -> (h: MessageHeader)
        ensures
            h == spec_registration_header(),
    {
        MessageHeader {
            command: Command::CA_REPEATER_REGISTER.to_u16(),
            payload_size: 0,
            data_type: 0,
            data_count: 0,
            parameter_1: 0,
            parameter_2: LOCALHOST_U32,
        }
    }

    /// Takes one datagram received on the repeater-facing socket at time
    /// `now`.  A confirmation sets the registration flag, once and for
    /// all; a beacon refreshes or inserts the record of the server it
    /// advertises; everything else — wrong length, unknown or unsupported
    /// command — changes nothing.
    #[verifier::loop_isolation(false)]
    pub fn handle_packet(&mut self, buf: &Vec<u8>, now: u64)
        requires
            old(self).wf(),
        ensures
            final(self).wf(),
            final(self).registered == (old(self).registered || (buf@.len() == HEADER_SIZE
                && spec_decode_header(buf@).command == 0x11)),
            !(buf@.len() == HEADER_SIZE && spec_decode_header(buf@).command == 0x0D)
                ==> final(self).server_list@ == old(self).server_list@,
            buf@.len() == HEADER_SIZE && spec_decode_header(buf@).command == 0x0D ==> {
                let rec = spec_beacon_record(spec_decode_header(buf@), now);
                &&& forall|i: int|
                    0 <= i < old(self).server_list@.len()
                        && old(self).server_list@[i].tcp_address == rec.tcp_address
                        ==> final(self).server_list@ == old(self).server_list@.update(i, rec)
                &&& !spec_contains_server(old(self).server_list@, rec.tcp_address)
                    ==> final(self).server_list@ == old(self).server_list@.push(rec)
            },
    {
        if buf.len() != HEADER_SIZE {
            return ;
        }
        // A 16-byte buffer always decodes; the arm is unreachable.
        let header = match MessageHeader::from_bytes(buf.as_slice()) {
            Ok(h) => h,
            Err(_) => {
                return ;
            },
        };
        match Command::try_from_u16(header.command) {
            Ok(Command::CA_REPEATER_CONFIRM) => {
                self.registered = true;
            },
            Ok(Command::CA_PROTO_RSRV_IS_UP) => {
                let port: u16 = if header.data_type != 0 {
                    header.data_type
                } else {
                    CA_SERVER_PORT
                };
                let ep = Endpoint { ip: header.parameter_2, port };
                let rec = ServerRecord {
                    tcp_address: ep,
                    last_beacon_id: header.parameter_1,
                    last_beacon_timestamp: now,
                };
                let ghost old_list = self.server_list@;
                let mut i: usize = 0;
                while i < self.server_list.len()
                    invariant
                        i <= self.server_list@.len(),
                        self.server_list@ == old_list,
                        self.registered == old(self).registered,
                        forall|k: int| 0 <= k < i ==> old_list[k].tcp_address != ep,
                    decreases self.server_list@.len() - i,
                {
                    if self.server_list[i].tcp_address == ep {
                        self.server_list[i] = rec;
                        proof {
                            assert forall|m: int|
                                0 <= m < old_list.len() && old_list[m].tcp_address
                                    == rec.tcp_address implies self.server_list@ == old_list.update(
                                m,
                                rec,
                            ) by {
                                if m < i {
                                    assert(old_list[m].tcp_address != ep);
                                } else if m > i {
                                    assert(old_list[i as int].tcp_address
                                        != old_list[m].tcp_address);
                                }
                            }
                        }
                        return ;
                    }
                    i = i + 1;
                }
                self.server_list.push(rec);
                proof {
                    let t = self.server_list@;
                    assert forall|a: int, b: int| 0 <= a < b < t.len() implies t[a].tcp_address
                        != t[b].tcp_address by {
                        if b < t.len() - 1 {
                            assert(t[a] == old_list[a] && t[b] == old_list[b]);
                        } else {
                            assert(t[a] == old_list[a]);
                        }
                    }
                }
            },
            Ok(_) => {},
            Err(_) => {},
        }
    }

    /// One pass of the liveness sweeper at time `now`: retains exactly
    /// the records whose last beacon is younger than twice the beacon
    /// period, in order, and touches nothing else.
    #[verifier::loop_isolation(false)]
    pub fn sweep(&mut self, now: u64)
        ensures
            final(self).server_list@ == spec_sweep(old(self).server_list@, now),
            forall|j: int|
                0 <= j < final(self).server_list@.len() ==> spec_live(
                    final(self).server_list@[j],
                    now,
                ),
            final(self).registered == old(self).registered,
            old(self).wf() ==> final(self).wf(),
    {
        let ghost old_list = self.server_list@;
        let ghost pred = |r: ServerRecord| spec_live(r, now);
        let mut kept: Vec<ServerRecord> = Vec::new();
        let mut i: usize = 0;
        while i < self.server_list.len()
            invariant
                i <= self.server_list@.len(),
                self.server_list@ == old_list,
                kept@ == old_list.take(i as int).filter(pred),
            decreases self.server_list@.len() - i,
        {
            let r = self.server_list[i];
            let live = now <= r.last_beacon_timestamp || now - r.last_beacon_timestamp
                < BEACON_EVICTION_AGE_MS;
            proof {
                assert(live == pred(r));
                reveal(Seq::filter);
                assert(old_list.take(i + 1 as int).drop_last() =~= old_list.take(i as int));
                assert(old_list.take(i + 1 as int).last() == r);
            }
            if live {
                kept.push(r);
            }
            i = i + 1;
        }
        proof {
            assert(old_list.take(old_list.len() as int) =~= old_list);
            broadcast use group_filter_ensures;

            if spec_servers_distinct(old_list) {
                lemma_sweep_keeps_distinct(old_list, pred);
            }
        }
        self.server_list = kept;
    }
}

/// A sweep never introduces a duplicate server record: filtering a table
/// with pairwise distinct endpoints leaves them pairwise distinct.
proof fn lemma_sweep_keeps_distinct(list: Seq<ServerRecord>, pred: spec_fn(ServerRecord) -> bool)
    requires
        spec_servers_distinct(list),
    ensures
        spec_servers_distinct(list.filter(pred)),
    decreases list.len(),
{
    reveal(Seq::filter);
    if list.len() > 0 {
        let rest = list.drop_last();
        assert(spec_servers_distinct(rest)) by {
            assert forall|i: int, j: int| 0 <= i < j < rest.len() implies rest[i].tcp_address
                != rest[j].tcp_address by {
                assert(rest[i] == list[i] && rest[j] == list[j]);
            }
        }
        lemma_sweep_keeps_distinct(rest, pred);
        let f0 = rest.filter(pred);
        if pred(list.last()) {
            assert forall|k: int| 0 <= k < f0.len() implies f0[k].tcp_address
                != list.last().tcp_address by {
                assert(f0.contains(f0[k]));
                rest.lemma_filter_contains_rev(pred, f0[k]);
                let m = choose|m: int| 0 <= m < rest.len() && rest[m] == f0[k];
                assert(list[m] == f0[k]);
                assert(list[m].tcp_address != list[list.len() - 1].tcp_address);
            }
            let f = list.filter(pred);
            assert forall|i: int, j: int| 0 <= i < j < f.len() implies f[i].tcp_address
                != f[j].tcp_address by {
                if j < f.len() - 1 {
                    assert(f[i] == f0[i] && f[j] == f0[j]);
                } else {
                    assert(f[i] == f0[i]);
                }
            }
        }
    }
}

} // verus!
