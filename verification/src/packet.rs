//! The 48-byte SNTP packet: its fields, the packing of leap indicator,
//! version and mode into the first byte, and its layout on the wire.

use crate::timestamp::{lemma_of_wire_of_timestamp, lemma_wire_of_timestamp_of, TimeStamp, UnixTime};
use crate::wire::{
    be_bytes, be_value, byte_of_signed, byte_to_signed, get_be, lemma_be_bytes_of_value,
    lemma_be_value_of_bytes, put_be, signed_of_byte, signed_to_byte,
};
use vstd::prelude::*;

verus! {

/// The protocol version that requests carry.
pub const NTP_VERSION: u8 = 4;

/// The size of a packet on the wire, in bytes.
pub const NTP_PACKET_SIZE: usize = 48;

/// The protocol version, a number of three bits.
pub type Version = u8;

/// The association mode of a packet.
#[derive(Clone, Copy, Debug, PartialEq, Eq, Structural)]
pub enum Mode {
    /// Mode 0, which no sender of this protocol uses.
    Reserved,
    /// Mode 3: a request.
    Client,
    /// Mode 4: a server's answer.
    Server,
}

/// The warning of a leap second to come.
#[derive(Clone, Copy, Debug, PartialEq, Eq, Structural)]
pub enum Leap {
    /// No leap second is due.
    NoWarning,
    /// The last minute of the day has 61 seconds.
    LastHas61,
    /// The last minute of the day has 59 seconds.
    LastHas59,
    /// The sender's clock is not synchronised.
    Unknown,
}

impl Mode {
    /// The number that stands for the mode on the wire.
    pub open spec fn ordinal_spec(self) -> u8 {
        match self {
            Mode::Reserved => 0,
            Mode::Client => 3,
            Mode::Server => 4,
        }
    }

    /// The mode that `value` stands for, if any.
    pub open spec fn of_ordinal(value: u8) -> Option<Mode> {
        if value == 0 {
            Some(Mode::Reserved)
        } else if value == 3 {
            Some(Mode::Client)
        } else if value == 4 {
            Some(Mode::Server)
        } else {
            None
        }
    }

    /// The number that stands for the mode on the wire.
    #[verifier::when_used_as_spec(ordinal_spec)]
    pub fn ordinal(self) -> (res: u8)
        ensures
            res == self.ordinal_spec(),
            Self::of_ordinal(res) == Some(self),
    {
        match self {
            Mode::Reserved => 0,
            Mode::Client => 3,
            Mode::Server => 4,
        }
    }

    /// The mode that `value` stands for; an error for every other number.
    pub fn try_from(value: u8) -> (res: Result<Mode, ()>)
        ensures
            match res {
                Ok(mode) => Self::of_ordinal(value) == Some(mode),
                Err(_) => Self::of_ordinal(value) is None,
            },
    {
        if value == 0 {
            Ok(Mode::Reserved)
        } else if value == 3 {
            Ok(Mode::Client)
        } else if value == 4 {
            Ok(Mode::Server)
        } else {
            Err(())
        }
    }
}

impl Leap {
    /// The number that stands for the warning on the wire.
    pub open spec fn ordinal_spec(self) -> u8 {
        match self {
            Leap::NoWarning => 0,
            Leap::LastHas61 => 1,
            Leap::LastHas59 => 2,
            Leap::Unknown => 3,
        }
    }

    /// The warning that `value` stands for, if any.
    pub open spec fn of_ordinal(value: u8) -> Option<Leap> {
        if value == 0 {
            Some(Leap::NoWarning)
        } else if value == 1 {
            Some(Leap::LastHas61)
        } else if value == 2 {
            Some(Leap::LastHas59)
        } else if value == 3 {
            Some(Leap::Unknown)
        } else {
            None
        }
    }

    /// The number that stands for the warning on the wire.
    #[verifier::when_used_as_spec(ordinal_spec)]
    pub fn ordinal(self) -> (res: u8)
        ensures
            res == self.ordinal_spec(),
            Self::of_ordinal(res) == Some(self),
    {
        match self {
            Leap::NoWarning => 0,
            Leap::LastHas61 => 1,
            Leap::LastHas59 => 2,
            Leap::Unknown => 3,
        }
    }

    /// The warning that `value` stands for; an error for every number above
    /// three.
    pub fn try_from(value: u8) -> (res: Result<Leap, ()>)
        ensures
            match res {
                Ok(leap) => Self::of_ordinal(value) == Some(leap),
                Err(_) => Self::of_ordinal(value) is None,
            },
    {
        if value == 0 {
            Ok(Leap::NoWarning)
        } else if value == 1 {
            Ok(Leap::LastHas61)
        } else if value == 2 {
            Ok(Leap::LastHas59)
        } else if value == 3 {
            Ok(Leap::Unknown)
        } else {
            Err(())
        }
    }

    /// The warning in words.
    pub fn description(&self) -> (res: &'static str)
        ensures
            res@ == match *self {
                Leap::NoWarning => "No leap"@,
                Leap::LastHas61 => "Last minute has 61 seconds"@,
                Leap::LastHas59 => "Last minute has 59 seconds"@,
                Leap::Unknown => "Unknown (clock unsynchronized)"@,
            },
    {
        match self {
            Leap::NoWarning => "No leap",
            Leap::LastHas61 => "Last minute has 61 seconds",
            Leap::LastHas59 => "Last minute has 59 seconds",
            Leap::Unknown => "Unknown (clock unsynchronized)",
        }
    }
}

/// One SNTP packet, field by field in the order of the wire.
#[derive(Clone, Copy, Debug, PartialEq, Eq, Structural)]
pub struct Packet {
    /// Leap indicator, version and mode, packed.
    pub flags: u8,
    /// Distance of the time source from a reference clock; 0 is no source.
    pub stratum: u8,
    /// Poll interval, as a power of two in seconds.
    pub poll: i8,
    /// Precision of the clock, as a power of two in seconds.
    pub precision: i8,
    /// Root delay, 32-bit fixed point.
    pub rootdelay: u32,
    /// Root dispersion, 32-bit fixed point.
    pub rootdisp: u32,
    /// Reference identifier.
    pub refid: u32,
    /// When the server's clock was last set.
    pub reftime: TimeStamp,
    /// When the request left the client, as the server echoes it.
    pub org: TimeStamp,
    /// When the request reached the server.
    pub rec: TimeStamp,
    /// When the packet left its sender.
    pub xmt: TimeStamp,
}

/// The first byte of a packet with the given leap indicator, version and
/// mode: leap in the top two bits, the low three bits of the version in the
/// middle, mode in the low three bits.
pub open spec fn pack_flags(leap: Leap, version: Version, mode: Mode) -> u8 {
    (leap.ordinal_spec() * 64 + (version % 8) * 8 + mode.ordinal_spec()) as u8
}

/// The leap indicator in the top two bits of a first byte: every number of
/// two bits stands for one.
pub open spec fn leap_of(flags: u8) -> Leap {
    if flags / 64 == 0 {
        Leap::NoWarning
    } else if flags / 64 == 1 {
        Leap::LastHas61
    } else if flags / 64 == 2 {
        Leap::LastHas59
    } else {
        Leap::Unknown
    }
}

/// The version in the middle three bits of a first byte.
pub open spec fn version_of(flags: u8) -> Version {
    flags / 8 % 8
}

/// The mode in the low three bits of a first byte, if they stand for one.
pub open spec fn mode_of(flags: u8) -> Option<Mode> {
    Mode::of_ordinal(flags % 8)
}

impl Packet {
    /// The packet's leap indicator.
    pub open spec fn leap_spec(self) -> Leap {
        leap_of(self.flags)
    }

    /// The packet's version.
    pub open spec fn version_spec(self) -> Version {
        version_of(self.flags)
    }

    /// The packet's mode, if its three bits stand for one.
    pub open spec fn mode_spec(self) -> Option<Mode> {
        mode_of(self.flags)
    }

    /// The request of a client whose clock reads `xmt`: leap indicator
    /// unknown, the client's version and mode, the transmit timestamp, and
    /// zero everywhere else.
    pub open spec fn client_request(xmt: TimeStamp) -> Packet {
        Packet {
            flags: pack_flags(Leap::Unknown, NTP_VERSION, Mode::Client),
            stratum: 0,
            poll: 0,
            precision: 0,
            rootdelay: 0,
            rootdisp: 0,
            refid: 0,
            reftime: TimeStamp { time: 0 },
            org: TimeStamp { time: 0 },
            rec: TimeStamp { time: 0 },
            xmt,
        }
    }

    /// The 48 bytes of the packet on the wire, field by field, every number
    /// most significant byte first.
    pub open spec fn wire(self) -> Seq<u8> {
        seq![self.flags, self.stratum, byte_of_signed(self.poll), byte_of_signed(self.precision)]
            + be_bytes(self.rootdelay) + be_bytes(self.rootdisp) + be_bytes(self.refid)
            + self.reftime.wire() + self.org.wire() + self.rec.wire() + self.xmt.wire()
    }

    /// The packet that the first 48 bytes of `bytes` spell.
    pub open spec fn of_wire(bytes: Seq<u8>) -> Packet {
        Packet {
            flags: bytes[0],
            stratum: bytes[1],
            poll: signed_of_byte(bytes[2]),
            precision: signed_of_byte(bytes[3]),
            rootdelay: be_value(bytes, 4) as u32,
            rootdisp: be_value(bytes, 8) as u32,
            refid: be_value(bytes, 12) as u32,
            reftime: TimeStamp::of_wire(bytes, 16),
            org: TimeStamp::of_wire(bytes, 24),
            rec: TimeStamp::of_wire(bytes, 32),
            xmt: TimeStamp::of_wire(bytes, 40),
        }
    }

    /// The packet as it goes on the wire: 48 bytes that spell the packet.
    pub fn encode(&self) -> (res: Vec<u8>)
        ensures
            res@ == self.wire(),
            res@.len() == NTP_PACKET_SIZE,
            Self::of_wire(res@) == *self,
    {
        proof {
            lemma_decode_encode(*self);
        }
        let mut out: Vec<u8> = Vec::with_capacity(NTP_PACKET_SIZE);
        out.push(self.flags);
        out.push(self.stratum);
        out.push(signed_to_byte(self.poll));
        out.push(signed_to_byte(self.precision));
        assert(out@ =~= seq![
            self.flags,
            self.stratum,
            byte_of_signed(self.poll),
            byte_of_signed(self.precision),
        ]);
        put_be(&mut out, self.rootdelay);
        put_be(&mut out, self.rootdisp);
        put_be(&mut out, self.refid);
        self.reftime.put(&mut out);
        self.org.put(&mut out);
        self.rec.put(&mut out);
        self.xmt.put(&mut out);
        out
    }

    /// The packet that a datagram spells; none unless the datagram has the
    /// packet's size to the byte. The packet's bytes are the datagram's.
    pub fn decode(bytes: &[u8]) -> (res: Option<Packet>)
        ensures
            res == if bytes@.len() == NTP_PACKET_SIZE {
                Some(Self::of_wire(bytes@))
            } else {
                None
            },
            res matches Some(packet) ==> packet.wire() == bytes@,
    {
        if bytes.len() != NTP_PACKET_SIZE {
            return None;
        }
        proof {
            lemma_encode_decode(bytes@);
            lemma_be_bytes_of_value(bytes@, 4);
            lemma_be_bytes_of_value(bytes@, 8);
            lemma_be_bytes_of_value(bytes@, 12);
        }
        Some(
            Packet {
                flags: bytes[0],
                stratum: bytes[1],
                poll: byte_to_signed(bytes[2]),
                precision: byte_to_signed(bytes[3]),
                rootdelay: get_be(bytes, 4),
                rootdisp: get_be(bytes, 8),
                refid: get_be(bytes, 12),
                reftime: TimeStamp::get(bytes, 16),
                org: TimeStamp::get(bytes, 24),
                rec: TimeStamp::get(bytes, 32),
                xmt: TimeStamp::get(bytes, 40),
            },
        )
    }

    /// The first byte of a packet with the given leap indicator, version and
    /// mode. Of `version` only the low three bits are used.
    pub fn flags(leap: Leap, version: Version, mode: Mode) -> (res: u8)
        ensures
            res == pack_flags(leap, version, mode),
            leap_of(res) == leap,
            version_of(res) == version % 8,
            mode_of(res) == Some(mode),
    {
        let l = leap.ordinal();
        let m = mode.ordinal();
        assert(((l << 6) | ((version & 7) << 3) | m) == l * 64 + (version % 8) * 8 + m) by (bit_vector)
            requires
                l < 4,
                m < 8,
        ;
        (l << 6) | ((version & 7) << 3) | m
    }

    /// The packet's leap indicator. It is always there: two bits hold no
    /// number without a meaning.
    pub fn leap(&self) -> (res: Option<Leap>)
        ensures
            res == Some(self.leap_spec()),
    {
        let flags = self.flags;
        assert(flags >> 6 == flags / 64) by (bit_vector);
        match Leap::try_from(self.flags >> 6) {
            Ok(leap) => Some(leap),
            Err(_) => None,
        }
    }

    /// The packet's version.
    pub fn version(&self) -> (res: Version)
        ensures
            res == self.version_spec(),
    {
        let flags = self.flags;
        assert((flags >> 3) & 7 == flags / 8 % 8) by (bit_vector);
        (self.flags >> 3) & 7
    }

    /// The packet's mode; none where its three bits stand for no mode.
    pub fn mode(&self) -> (res: Option<Mode>)
        ensures
            res == self.mode_spec(),
    {
        let flags = self.flags;
        assert(flags & 7 == flags % 8) by (bit_vector);
        match Mode::try_from(self.flags & 0x7) {
            Ok(mode) => Some(mode),
            Err(_) => None,
        }
    }

    /// The request of a client whose clock reads `xmt`.
    pub fn client_packet_at(xmt: TimeStamp) -> (res: Packet)
        ensures
            res == Self::client_request(xmt),
            res.leap_spec() == Leap::Unknown,
            res.version_spec() == NTP_VERSION,
            res.mode_spec() == Some(Mode::Client),
    {
        Packet {
            flags: Self::flags(Leap::Unknown, NTP_VERSION, Mode::Client),
            stratum: 0,
            poll: 0,
            precision: 0,
            rootdelay: 0,
            rootdisp: 0,
            refid: 0,
            reftime: TimeStamp::default(),
            org: TimeStamp::default(),
            rec: TimeStamp::default(),
            xmt,
        }
    }

    /// The request of a client for the timestamp that its clock gave, and
    /// none where the clock gave no timestamp.
    pub fn client_packet_from(xmt: Option<TimeStamp>) -> (res: Option<Packet>)
        ensures
            res == match xmt {
                Some(stamp) => Some(Self::client_request(stamp)),
                None => None,
            },
    {
        match xmt {
            Some(stamp) => Some(Self::client_packet_at(stamp)),
            None => None,
        }
    }

    /// The request of a client, stamped with the system clock's present
    /// reading; none where the clock stands before the Unix epoch.
    pub fn new_client_packet() -> (res: Option<Packet>)
        ensures
            res matches Some(packet) ==> exists|n: nat|
                packet == Self::client_request(TimeStamp::of_unix_nanos(n)),
    {
        Self::client_packet_from(TimeStamp::now())
    }

    /// The time from the Unix epoch to the instant that `t` stands for; none
    /// where `t` stands for no instant on or after that epoch.
    pub fn duration_since_unix_epoch(t: TimeStamp) -> (res: Option<UnixTime>)
        ensures
            match res {
                Some(elapsed) => elapsed.wf() && t.unix_nanos() == Some(elapsed@),
                None => t.unix_nanos() is None,
            },
    {
        t.decode()
    }

    /// The three instants that the server reports, in nanoseconds after the
    /// Unix epoch: origin, receive and transmit. None where one of the three
    /// timestamps stands for no instant.
    pub open spec fn timestamps_spec(self) -> Option<(nat, nat, nat)> {
        match (self.org.unix_nanos(), self.rec.unix_nanos(), self.xmt.unix_nanos()) {
            (Some(t1), Some(t2), Some(t3)) => Some((t1, t2, t3)),
            _ => None,
        }
    }

    /// The three instants that the server reports: origin, receive and
    /// transmit. None where one of the three stands for no instant.
    pub fn timestamps(&self) -> (res: Option<(UnixTime, UnixTime, UnixTime)>)
        ensures
            match res {
                Some((t1, t2, t3)) => t1.wf() && t2.wf() && t3.wf() && self.timestamps_spec()
                    == Some((t1@, t2@, t3@)),
                None => self.timestamps_spec() is None,
            },
    {
        let t1 = match Self::duration_since_unix_epoch(self.org) {
            Some(t) => t,
            None => return None,
        };
        let t2 = match Self::duration_since_unix_epoch(self.rec) {
            Some(t) => t,
            None => return None,
        };
        let t3 = match Self::duration_since_unix_epoch(self.xmt) {
            Some(t) => t,
            None => return None,
        };
        Some((t1, t2, t3))
    }
}

/// Decoding the bytes of a packet gives the packet back, field for field.
pub proof fn lemma_decode_encode(packet: Packet)
    ensures
        packet.wire().len() == NTP_PACKET_SIZE,
        Packet::of_wire(packet.wire()) == packet,
{
    let head = seq![
        packet.flags,
        packet.stratum,
        byte_of_signed(packet.poll),
        byte_of_signed(packet.precision),
    ];
    let w = packet.wire();
    let a = head + be_bytes(packet.rootdelay);
    let b = a + be_bytes(packet.rootdisp);
    let c = b + be_bytes(packet.refid);
    let d = c + packet.reftime.wire();
    let e = d + packet.org.wire();
    let f = e + packet.rec.wire();
    let tail_f = Seq::<u8>::empty();
    let tail_e = packet.xmt.wire() + tail_f;
    let tail_d = packet.rec.wire() + tail_e;
    let tail_c = packet.org.wire() + tail_d;
    let tail_b = packet.reftime.wire() + tail_c;
    let tail_a = be_bytes(packet.refid) + tail_b;
    let tail_head = be_bytes(packet.rootdisp) + tail_a;
    assert(w.len() == 48);
    assert(w[0] == packet.flags && w[1] == packet.stratum);
    assert(w[2] == byte_of_signed(packet.poll) && w[3] == byte_of_signed(packet.precision));
    assert(w =~= head + be_bytes(packet.rootdelay) + tail_head);
    lemma_be_value_of_bytes(packet.rootdelay, head, tail_head);
    assert(w =~= a + be_bytes(packet.rootdisp) + tail_a);
    lemma_be_value_of_bytes(packet.rootdisp, a, tail_a);
    assert(w =~= b + be_bytes(packet.refid) + tail_b);
    lemma_be_value_of_bytes(packet.refid, b, tail_b);
    assert(w =~= c + packet.reftime.wire() + tail_c);
    lemma_of_wire_of_timestamp(packet.reftime, c, tail_c);
    assert(w =~= d + packet.org.wire() + tail_d);
    lemma_of_wire_of_timestamp(packet.org, d, tail_d);
    assert(w =~= e + packet.rec.wire() + tail_e);
    lemma_of_wire_of_timestamp(packet.rec, e, tail_e);
    assert(w =~= f + packet.xmt.wire() + tail_f);
    lemma_of_wire_of_timestamp(packet.xmt, f, tail_f);
}

/// A datagram of the packet's size is the bytes of its fields laid end to end.
proof fn lemma_fields_cover(bytes: Seq<u8>)
    requires
        bytes.len() == NTP_PACKET_SIZE,
    ensures
        bytes == bytes.subrange(0, 4) + bytes.subrange(4, 8) + bytes.subrange(8, 12)
            + bytes.subrange(12, 16) + bytes.subrange(16, 24) + bytes.subrange(24, 32)
            + bytes.subrange(32, 40) + bytes.subrange(40, 48),
{
    assert(bytes =~= bytes.subrange(0, 4) + bytes.subrange(4, 8) + bytes.subrange(8, 12)
        + bytes.subrange(12, 16) + bytes.subrange(16, 24) + bytes.subrange(24, 32)
        + bytes.subrange(32, 40) + bytes.subrange(40, 48));
}

/// Encoding the packet that 48 bytes spell gives the 48 bytes back.
pub proof fn lemma_encode_decode(bytes: Seq<u8>)
    requires
        bytes.len() == NTP_PACKET_SIZE,
    ensures
        Packet::of_wire(bytes).wire() == bytes,
{
    let packet = Packet::of_wire(bytes);
    let head = seq![
        packet.flags,
        packet.stratum,
        byte_of_signed(packet.poll),
        byte_of_signed(packet.precision),
    ];
    assert(head == bytes.subrange(0, 4)) by {
        assert(head =~= bytes.subrange(0, 4));
    }
    assert(be_bytes(packet.rootdelay) == bytes.subrange(4, 8)) by {
        lemma_be_bytes_of_value(bytes, 4);
    }
    assert(be_bytes(packet.rootdisp) == bytes.subrange(8, 12)) by {
        lemma_be_bytes_of_value(bytes, 8);
    }
    assert(be_bytes(packet.refid) == bytes.subrange(12, 16)) by {
        lemma_be_bytes_of_value(bytes, 12);
    }
    assert(packet.reftime.wire() == bytes.subrange(16, 24)) by {
        lemma_wire_of_timestamp_of(bytes, 16);
    }
    assert(packet.org.wire() == bytes.subrange(24, 32)) by {
        lemma_wire_of_timestamp_of(bytes, 24);
    }
    assert(packet.rec.wire() == bytes.subrange(32, 40)) by {
        lemma_wire_of_timestamp_of(bytes, 32);
    }
    assert(packet.xmt.wire() == bytes.subrange(40, 48)) by {
        lemma_wire_of_timestamp_of(bytes, 40);
    }
    lemma_fields_cover(bytes);
}

impl Default for Packet {
    /// The empty packet: zero in every field.
    fn default() -> (res: Packet)
        ensures
            res == (Packet {
                flags: 0,
                stratum: 0,
                poll: 0,
                precision: 0,
                rootdelay: 0,
                rootdisp: 0,
                refid: 0,
                reftime: TimeStamp { time: 0 },
                org: TimeStamp { time: 0 },
                rec: TimeStamp { time: 0 },
                xmt: TimeStamp { time: 0 },
            }),
    {
        Packet {
            flags: 0,
            stratum: 0,
            poll: 0,
            precision: 0,
            rootdelay: 0,
            rootdisp: 0,
            refid: 0,
            reftime: TimeStamp::default(),
            org: TimeStamp::default(),
            rec: TimeStamp::default(),
            xmt: TimeStamp::default(),
        }
    }
}

} // verus!
