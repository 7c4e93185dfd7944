//! *ZX Net* coders for the ZX Interface 1.
//!
//! Timestamps are counted in T-states from the start of the current frame.
use vstd::prelude::*;

use crate::chip::{elapsed_nanos, instant_now};

verus! {

/// This trait is being used by [ZxNet] to send and receive ZX-NET packets to and from remote parties.
pub trait ZxNetSocket {
    /// Should return a view of the current packet being composed or received.
    fn packet_data(&self) -> &[u8];
    /// Signals that the new packet will be composed for sending.
    fn begin_packet(&mut self);
    /// Adds a `byte` to the packet data. Should return the size of the packet data after appending `byte`.
    fn push_byte(&mut self, byte: u8) -> usize;
    /// Should return the index of the next byte to be pushed to the outbound data packet.
    /// This is the same as the byte size of the composed data packet so far.
    fn outbound_index(&self) -> usize;
    /// Should send the composed packet to the remote party.
    fn send_packet(&mut self);
    /// Should optionally wait and get the confirmation from the remote party.
    /// Returns `true` if the remote party confirmed the received packet.
    fn recv_accept(&mut self) -> bool;
    /// Should receive a data packet from the remote party.
    /// Returns `true` if the remote party has sent the next data packet.
    fn recv_packet(&mut self) -> bool;
    /// Gets the next byte from the last received data packet.
    /// Returns `None` if there are no more bytes to be returned.
    fn pull_byte(&mut self) -> Option<u8>;
    /// Should return the index of the next byte to be pulled from the outbound data packet.
    fn inbound_index(&self) -> usize;
    /// Should send the confirmation of the received packet to the remote party.
    fn send_accept(&mut self);
}

/// The direction of the current transmission.
#[derive(Clone, Copy, Debug, PartialEq, Eq, Structural)]
pub enum NetDir {
    Inbound,
    Outbound,
}

/// The state of the coder.
#[derive(Clone, Copy, Debug, PartialEq, Eq, Structural)]
pub enum NetState {
    Idle(u8),
    InputScout,
    InputStart,
    InputData(u8),
    OutputScout,
    OutputStart,
    OutputData(u8),
    OutputStop(u8),
    OutputEnd,
}

/// Implementation of this struct decodes and encodes ZX-NET packets from Spectrum's I/O port signals.
///
/// An implementation of [ZxNetSocket] should be provided as its `S` type parameter.
#[derive(Debug)]
pub struct ZxNet<S> {
    /// Direct access to the underlying [ZxNetSocket] implementation.
    pub socket: S,
    event_ts: i32,
    dir_io: NetDir,
    io: NetState,
    net_state: bool,
}

/// A helper struct for reading ZX-NET header information.
#[derive(Clone, Copy, Debug)]
pub struct ZxNetHead {
    /// `NCIRIS` The destination station number.
    pub dest: u8,
    /// `NCSELF` This Spectrum's station number.
    pub ours: u8,
    /// `NCNUMB` The block number.
    pub serial: [u8; 2],
    /// `NCTYPE` The packet type code . 0 data, 1 EOF
    pub eof: u8,
    /// `NCOBL` Number of bytes in data block.
    pub size: u8,
    /// `NCDCS` The data checksum.
    pub dchk: u8,
    /// `NCHCS` The header checksum.
    pub hchk: u8,
}

/// The size of [ZxNetHead] in bytes.
pub const HEAD_SIZE: usize = 8;

/// The header held by the first bytes of `data`.
pub open spec fn spec_zxnet_head(data: Seq<u8>) -> ZxNetHead {
    ZxNetHead {
        dest: data[0],
        ours: data[1],
        serial: [data[2], data[3]],
        eof: data[4],
        size: data[5],
        dchk: data[6],
        hchk: data[7],
    }
}

/// A trait for converting data to [ZxNetHead].
pub trait DataAsZxNetHead {
    /// Whether the data is long enough to hold a header.
    spec fn spec_holds_header(&self) -> bool;
    /// Reads the header held by the first bytes of the data.
    fn as_zxnet_header(&self) -> ZxNetHead
        requires
            self.spec_holds_header();
}

impl DataAsZxNetHead for [u8] {
    open spec fn spec_holds_header(&self) -> bool {
        self@.len() >= HEAD_SIZE
    }

    fn as_zxnet_header(&self) -> (r: ZxNetHead)
        ensures
            r == spec_zxnet_head(self@),
    {
        let r = ZxNetHead {
            dest: self[0],
            ours: self[1],
            serial: [self[2], self[3]],
            eof: self[4],
            size: self[5],
            dchk: self[6],
            hchk: self[7],
        };
        assert(r.serial =~= [self@[2], self@[3]]);
        r
    }
}

const INPAK_WAIT_MAX: i32 = 8925;
const OUTPAK_START_DELAY: i32 = 110;
const BIT_DELAY: i32 = 60;
const REST_DELAY_THRESHOLD: i64 = 64;
const PROBE_DELAY_MIN: i64 = 65;
const PROBE_DELAY_MAX: i64 = 130;
const BYTE_DELAY: i32 = 120;
const BROADCAST_DATA_DELAY: i64 = 530;

/// The largest timestamp a coder accepts: the time of the next event must fit in `i32`.
pub const MAX_TIMESTAMP: i32 = i32::MAX - 0x10000;

/// What follows a byte pushed to an outbound packet that is then `len` bytes long and holds
/// `data`: the end of the header waits for the acknowledgement (`OutputEnd`), a packet holding as
/// many data bytes as its header says is sent (`OutputEnd`, and `true`), and otherwise the next
/// byte is awaited (`OutputStart`).
pub open spec fn spec_outbound_after_push(len: usize, data: Seq<u8>) -> (NetState, bool) {
    if len == HEAD_SIZE {
        (NetState::OutputEnd, false)
    } else if len > HEAD_SIZE && data.len() >= HEAD_SIZE && len - HEAD_SIZE == spec_zxnet_head(data).size {
        (NetState::OutputEnd, true)
    } else {
        (NetState::OutputStart, false)
    }
}

/// Returns the next state of the coder, and whether to send the packet, after a byte pushed to
/// an outbound packet (see [spec_outbound_after_push]).
pub fn outbound_after_push(len: usize, data: &[u8]) -> (r: (NetState, bool))
    ensures
        r == spec_outbound_after_push(len, data@),
{
    if len == HEAD_SIZE {
        (NetState::OutputEnd, false)
    } else if len > HEAD_SIZE && data.len() >= HEAD_SIZE && len - HEAD_SIZE == data.as_zxnet_header().size as usize {
        (NetState::OutputEnd, true)
    } else {
        (NetState::OutputStart, false)
    }
}

/// `bits` rotated right by one bit.
pub open spec fn spec_rotr1(bits: u8) -> u8 {
    (bits >> 1) | ((bits & 1) << 7)
}

fn rotr1(bits: u8) -> (r: u8)
    ensures r == spec_rotr1(bits),
{
    (bits >> 1) | ((bits & 1) << 7)
}

impl<S> ZxNet<S> {
    /// The time of the next expected event.
    pub closed spec fn spec_event_ts(&self) -> i32 {
        self.event_ts
    }
    /// The direction of the current transmission.
    pub closed spec fn spec_dir(&self) -> NetDir {
        self.dir_io
    }
    /// The state of the coder.
    pub closed spec fn spec_io(&self) -> NetState {
        self.io
    }
    /// The state of the network line.
    pub closed spec fn spec_net_state(&self) -> bool {
        self.net_state
    }
}

impl<S: Default> Default for ZxNet<S> {
    fn default() -> (r: Self)
        ensures
            r.spec_event_ts() == 0,
            r.spec_dir() == NetDir::Inbound,
            r.spec_io() == NetState::Idle(0),
            !r.spec_net_state(),
    {
        ZxNet { socket: S::default(), event_ts: 0, net_state: false, dir_io: NetDir::Inbound, io: NetState::Idle(0) }
    }
}

impl<S: ZxNetSocket> ZxNet<S> {
    /// Handles the state of the network line written by the Spectrum at `timestamp`.
    ///
    /// Where the socket decides (the end of an outbound byte or packet), the next state is one
    /// of those listed; a packet too short to hold a header ends the transmission.
    pub fn send_state(&mut self, net: bool, timestamp: i32)
        requires
            timestamp <= MAX_TIMESTAMP,
        ensures
            ({
                let (io, dir, ns, ev) = (old(self).spec_io(), old(self).spec_dir(), old(self).spec_net_state(), old(self).spec_event_ts());
                let (io2, dir2, ns2, ev2) = (final(self).spec_io(), final(self).spec_dir(), final(self).spec_net_state(), final(self).spec_event_ts());
                match io {
                    NetState::Idle(_) => io2 == NetState::OutputScout && ns2 == net && dir2 == dir && ev2 == ev,
                    NetState::OutputScout => if net && !ns {
                        io2 == NetState::OutputStart && dir2 == NetDir::Outbound && ev2 == timestamp + 110 && ns2 == ns
                    } else {
                        io2 == NetState::Idle(0) && !ns2 && dir2 == dir && ev2 == ev
                    },
                    NetState::InputData(0) if net && timestamp >= ev =>
                        io2 == NetState::OutputStart && ev2 == timestamp + 110 && dir2 == dir && ns2 == ns,
                    NetState::OutputStart if !net && timestamp < ev =>
                        io2 == NetState::OutputData(0x80) && ev2 == timestamp + 60 && dir2 == dir && ns2 == ns,
                    NetState::OutputData(bits) if timestamp < ev => {
                        let next_bits = spec_rotr1((bits & 0xFE) | (if net { 1u8 } else { 0u8 }));
                        &&& io2 == (if bits & 1 == 1 { NetState::OutputStop(next_bits) } else { NetState::OutputData(next_bits) })
                        &&& ev2 == timestamp + 60 && dir2 == dir && ns2 == ns
                    },
                    NetState::OutputStop(byte) if net && timestamp < ev => {
                        &&& ev2 == timestamp + 120 && dir2 == dir
                        &&& dir == NetDir::Inbound && byte == 1 ==> io2 == NetState::OutputEnd && ns2 == ns
                        &&& dir == NetDir::Inbound && byte != 1 ==> io2 == NetState::Idle(0) && !ns2
                        &&& dir == NetDir::Outbound ==> (io2 == NetState::OutputEnd || io2 == NetState::OutputStart) && ns2 == ns
                    },
                    NetState::OutputEnd if !net && timestamp < ev => {
                        &&& ev2 == timestamp && dir2 == dir
                        &&& (io2 == NetState::Idle(0) && !ns2) || (io2 == NetState::InputScout && (ns2 || dir == NetDir::Outbound))
                            || (io2 == NetState::InputData(0) && !ns2 && dir == NetDir::Outbound)
                    },
                    _ => io2 == NetState::Idle(0) && !ns2 && dir2 == dir && ev2 == ev,
                }
            }),
    {
        match self.io {
            NetState::Idle(_) => {
                self.net_state = net;
                self.io = NetState::OutputScout;
            },
            NetState::OutputScout => {
                if net && !self.net_state {
                    self.socket.begin_packet();
                    self.dir_io = NetDir::Outbound;
                    self.event_ts = timestamp + OUTPAK_START_DELAY;
                    self.io = NetState::OutputStart;
                } else {
                    self.net_state = false;
                    self.io = NetState::Idle(0);
                }
            },
            NetState::InputData(0) if net && timestamp >= self.event_ts => {
                self.event_ts = timestamp + OUTPAK_START_DELAY;
                self.io = NetState::OutputStart;
            },
            NetState::OutputStart if !net && timestamp < self.event_ts => {
                self.event_ts = timestamp + BIT_DELAY;
                self.io = NetState::OutputData(0x80);
            },
            NetState::OutputData(bits) if timestamp < self.event_ts => {
                let next_bits = rotr1((bits & 0xFE) | (if net { 1u8 } else { 0u8 }));
                self.event_ts = timestamp + BIT_DELAY;
                self.io = if bits & 1 == 1 {
                    NetState::OutputStop(next_bits)
                } else {
                    NetState::OutputData(next_bits)
                };
            },
            NetState::OutputStop(byte) if net && timestamp < self.event_ts => {
                match self.dir_io {
                    NetDir::Inbound => {
                        if byte == 1 {
                            if self.socket.inbound_index() == HEAD_SIZE {
                                self.socket.send_accept();
                            }
                            self.io = NetState::OutputEnd;
                        } else {
                            self.net_state = false;
                            self.io = NetState::Idle(0);
                        }
                    },
                    NetDir::Outbound => {
                        let len = self.socket.push_byte(byte);
                        let (io, send) = outbound_after_push(len, self.socket.packet_data());
                        if send {
                            self.socket.send_packet();
                        }
                        self.io = io;
                    },
                }
                self.event_ts = timestamp + BYTE_DELAY;
            },
            NetState::OutputEnd if !net && timestamp < self.event_ts => {
                self.event_ts = timestamp;
                let data = self.socket.packet_data();
                if data.len() < HEAD_SIZE {
                    self.net_state = false;
                    self.io = NetState::Idle(0);
                    return;
                }
                let head = data.as_zxnet_header();
                match self.dir_io {
                    NetDir::Inbound => {
                        if self.socket.inbound_index() == head.size as usize + HEAD_SIZE {
                            self.net_state = false;
                            self.io = NetState::Idle(0);
                        } else {
                            self.net_state = true;
                            self.io = NetState::InputScout;
                        }
                    },
                    NetDir::Outbound => {
                        if self.socket.outbound_index() == head.size as usize + HEAD_SIZE {
                            self.net_state = false;
                            self.io = if head.dest == 0 { NetState::Idle(0) } else { NetState::InputScout };
                        } else if head.dest == 0 {
                            self.net_state = false;
                            self.io = NetState::InputData(0);
                        } else {
                            self.net_state = true;
                            self.io = NetState::InputScout;
                        }
                    },
                }
            },
            _ => {
                self.io = NetState::Idle(0);
                self.net_state = false;
            },
        }
    }

    /// Answers the Spectrum polling the network line at `timestamp` with the state of the line.
    ///
    /// Where the socket decides (a packet or an acceptance received), the next state is one of
    /// those listed. When no acceptance came, the next event is due after the time spent waiting
    /// for it, counted in T-states of a 3.5 MHz clock.
    pub fn poll_state(&mut self, timestamp: i32) -> (r: bool)
        requires
            timestamp <= MAX_TIMESTAMP,
        ensures
            r == final(self).spec_net_state(),
            ({
                let (io, dir, ns, ev) = (old(self).spec_io(), old(self).spec_dir(), old(self).spec_net_state(), old(self).spec_event_ts());
                let (io2, dir2, ns2, ev2) = (final(self).spec_io(), final(self).spec_dir(), final(self).spec_net_state(), final(self).spec_event_ts());
                match io {
                    NetState::Idle(cnt) => if timestamp >= ev {
                        let d = timestamp - ev;
                        if d <= 64 {
                            io2 == NetState::Idle(if cnt == 255 { 255u8 } else { (cnt + 1) as u8 }) && ev2 == timestamp && dir2 == dir && ns2 == ns
                        } else if 65 <= d <= 130 && cnt < 191 {
                            ev2 == timestamp && ((io2 == NetState::InputScout && dir2 == NetDir::Inbound && ns2)
                                || (io2 == io && dir2 == dir && ns2 == ns))
                        } else {
                            io2 == NetState::Idle(0) && ev2 == timestamp && dir2 == dir && !ns2
                        }
                    } else {
                        io2 == NetState::Idle(0) && ev2 == ev && dir2 == dir && ns2 == ns
                    },
                    NetState::OutputScout => io2 == NetState::Idle(0) && ev2 == ev && dir2 == dir && ns2 == ns,
                    NetState::InputScout => if ns {
                        io2 == NetState::InputStart && ev2 == timestamp && dir2 == dir && ns2 == ns
                    } else {
                        dir2 == dir && ((io2 == NetState::InputStart && ev2 == timestamp && ns2)
                            || (io2 == NetState::Idle(0) && ev2 >= timestamp && ns2 == ns))
                    },
                    NetState::InputStart => io2 == NetState::Idle(0) && ev2 == timestamp + 8925 && dir2 == dir && !ns2,
                    NetState::InputData(byte) => if timestamp < ev {
                        io2 == NetState::InputData(byte >> 1) && ev2 == timestamp + 60 && ns2 == (byte & 1 == 1) && dir2 == dir
                    } else if timestamp - ev <= 530 {
                        io2 == NetState::InputStart && ev2 == timestamp && ns2 && dir2 == dir
                    } else {
                        io2 == NetState::Idle(0) && ev2 == ev && !ns2 && dir2 == dir
                    },
                    _ => io2 == NetState::Idle(0) && ev2 == ev && !ns2 && dir2 == dir,
                }
            }),
    {
        match self.io {
            NetState::Idle(cnt) => {
                if timestamp >= self.event_ts {
                    let d: i64 = timestamp as i64 - self.event_ts as i64;
                    if d <= REST_DELAY_THRESHOLD {
                        self.event_ts = timestamp;
                        self.io = NetState::Idle(cnt.saturating_add(1));
                    } else if PROBE_DELAY_MIN <= d && d <= PROBE_DELAY_MAX && cnt < 191 {
                        if self.socket.recv_packet() {
                            self.event_ts = timestamp;
                            self.io = NetState::InputScout;
                            self.dir_io = NetDir::Inbound;
                            self.net_state = true;
                        } else {
                            self.event_ts = timestamp;
                        }
                    } else {
                        self.event_ts = timestamp;
                        self.io = NetState::Idle(0);
                        self.net_state = false;
                    }
                } else if cnt != 0 {
                    self.io = NetState::Idle(0);
                }
            },
            NetState::OutputScout => {
                self.io = NetState::Idle(0);
            },
            NetState::InputScout => {
                if self.net_state {
                    self.event_ts = timestamp;
                    self.io = NetState::InputStart;
                } else {
                    let now = instant_now();
                    if self.socket.recv_accept() {
                        self.event_ts = timestamp;
                        self.io = NetState::InputStart;
                        self.net_state = true;
                    } else {
                        let nanos = elapsed_nanos(&now);
                        self.setup_event_time(timestamp, nanos);
                        self.io = NetState::Idle(0);
                    }
                }
            },
            NetState::InputStart => {
                self.event_ts = timestamp + INPAK_WAIT_MAX;
                self.io = NetState::Idle(0);
                self.net_state = false;
            },
            NetState::InputData(byte) => {
                self.net_state = if timestamp < self.event_ts {
                    self.event_ts = timestamp + BIT_DELAY;
                    self.io = NetState::InputData(byte >> 1);
                    byte & 1 == 1
                } else if timestamp as i64 - self.event_ts as i64 <= BROADCAST_DATA_DELAY {
                    self.event_ts = timestamp;
                    self.io = NetState::InputStart;
                    true
                } else {
                    self.io = NetState::Idle(0);
                    false
                };
            },
            _ => {
                self.io = NetState::Idle(0);
                self.net_state = false;
            },
        }
        self.net_state
    }

    /// Handles the Spectrum waiting at `timestamp` for the next byte of a packet.
    ///
    /// Where a byte is to be pulled from the socket, the next state depends on whether it came.
    pub fn wait_data(&mut self, timestamp: i32)
        requires
            timestamp <= MAX_TIMESTAMP,
        ensures
            ({
                let (io, dir, ns, ev) = (old(self).spec_io(), old(self).spec_dir(), old(self).spec_net_state(), old(self).spec_event_ts());
                let (io2, dir2, ns2, ev2) = (final(self).spec_io(), final(self).spec_dir(), final(self).spec_net_state(), final(self).spec_event_ts());
                let none = io2 == NetState::Idle(0) && ev2 == timestamp + 8925 && !ns2 && dir2 == dir;
                let some = io2 is InputData && ev2 == timestamp + 120 && ns2 == ns && dir2 == dir;
                if io == NetState::InputStart && dir == NetDir::Outbound {
                    io2 == NetState::InputData(1) && ev2 == timestamp + 120 && ns2 == ns && dir2 == dir
                } else if (io == NetState::InputStart && dir == NetDir::Inbound)
                    || (io == NetState::InputData(0) && dir == NetDir::Inbound && timestamp > ev && timestamp < ev + 60) {
                    none || some
                } else {
                    none
                }
            }),
    {
        let byte: Option<u8> = match (self.io, self.dir_io) {
            (NetState::InputStart, NetDir::Outbound) => Some(1),
            (NetState::InputStart, NetDir::Inbound) => self.socket.pull_byte(),
            (NetState::InputData(0), NetDir::Inbound) if timestamp > self.event_ts
                && (timestamp as i64) < self.event_ts as i64 + BIT_DELAY as i64 => self.socket.pull_byte(),
            _ => None,
        };
        if let Some(byte) = byte {
            self.event_ts = timestamp + 2 * BIT_DELAY;
            self.io = NetState::InputData(byte);
        } else {
            self.event_ts = timestamp + INPAK_WAIT_MAX;
            self.io = NetState::Idle(0);
            self.net_state = false;
        }
    }

    /// Moves the coder's time on to the next frame, which lasted `frame_tstates`: the time of the
    /// next event is moved back by it, saturating at `i32::MIN`.
    pub fn next_frame(&mut self, frame_tstates: i32)
        requires
            frame_tstates >= 0,
        ensures
            final(self).spec_event_ts() == (if old(self).spec_event_ts() - frame_tstates < i32::MIN {
                i32::MIN as int
            } else {
                old(self).spec_event_ts() - frame_tstates
            }),
            final(self).spec_io() == old(self).spec_io(),
            final(self).spec_dir() == old(self).spec_dir(),
            final(self).spec_net_state() == old(self).spec_net_state(),
    {
        let ts: i64 = self.event_ts as i64 - frame_tstates as i64;
        self.event_ts = if ts < i32::MIN as i64 { i32::MIN } else { ts as i32 };
    }

    /// Sets the time of the next event to `timestamp` plus the time waited, `nanos` nanoseconds
    /// counted in T-states of a 3.5 MHz clock (rounded), saturating at `i32::MAX`.
    fn setup_event_time(&mut self, timestamp: i32, nanos: u128)
        ensures
            final(self).event_ts >= timestamp,
            final(self).io == old(self).io,
            final(self).dir_io == old(self).dir_io,
            final(self).net_state == old(self).net_state,
    {
        let elapsed_ts: u128 = if nanos > u128::MAX / 8 { u128::MAX / 2000 } else { (nanos * 7 + 1000) / 2000 };
        let event: i64 = if elapsed_ts >= 0x1_0000_0000 {
            i32::MAX as i64
        } else {
            timestamp as i64 + elapsed_ts as i64
        };
        self.event_ts = if event > i32::MAX as i64 { i32::MAX } else { event as i32 };
    }
}

} // verus!
