//! NTP fixed-point timestamps and their conversion to and from instants
//! counted from the Unix epoch.

use crate::wire::{be_bytes, be_value, get_be, lemma_be_bytes_of_value, lemma_be_value_of_bytes, put_be};
use std::time::SystemTime;
use vstd::prelude::*;

verus! {

/// Seconds between the NTP epoch (1900-01-01) and the Unix epoch (1970-01-01).
pub const NTP_TO_UNIX_SECONDS: u64 = 2_208_988_800;

/// Nanoseconds in one second.
pub const NANOS_PER_SECOND: u32 = 1_000_000_000;

/// Steps of the 32-bit fraction in one second, and seconds in one NTP era.
pub const TWO_POW_32: u64 = 0x1_0000_0000;

/// The standard library's reading of the system clock, carried through as it
/// is.
#[verifier::external_type_specification]
#[verifier::external_body]
pub struct ExSystemTime(SystemTime);

/// `SystemTime::now` reads the system clock. Nothing is claimed of the
/// reading.
pub assume_specification[ SystemTime::now ]() -> SystemTime;

/// `SystemTime::duration_since` with `UNIX_EPOCH` as the earlier instant: the
/// whole seconds (`Duration::as_secs`) and the nanoseconds of the second begun
/// (`Duration::subsec_nanos`, always less than a second) between the epoch
/// and `reading`, or none where `reading` lies before the epoch.
#[verifier::external_body]
fn since_unix_epoch(reading: &SystemTime) -> (res: Option<(u64, u32)>)
    ensures
        res matches Some((_, nanos)) ==> nanos < NANOS_PER_SECOND,
{
    match reading.duration_since(std::time::UNIX_EPOCH) {
        Ok(elapsed) => Some((elapsed.as_secs(), elapsed.subsec_nanos())),
        Err(_) => None,
    }
}

/// An instant on or after the Unix epoch, kept as the time elapsed since
/// then: whole seconds and the nanoseconds of the second begun.
///
/// Its view is the whole distance in nanoseconds.
#[derive(Clone, Copy, Debug, PartialEq, Eq)]
pub struct UnixTime {
    secs: u64,
    nanos: u32,
}

impl View for UnixTime {
    type V = nat;

    closed spec fn view(&self) -> nat {
        (self.secs * NANOS_PER_SECOND + self.nanos) as nat
    }
}

impl UnixTime {
    /// The nanoseconds stay below one second.
    #[verifier::type_invariant]
    pub closed spec fn wf(self) -> bool {
        self.nanos < NANOS_PER_SECOND
    }

    /// The instant `secs` seconds and `nanos` nanoseconds after the Unix
    /// epoch; none where `nanos` is a second or more.
    pub fn new(secs: u64, nanos: u32) -> (res: Option<UnixTime>)
        ensures
            res is Some <==> nanos < NANOS_PER_SECOND,
            res matches Some(t) ==> t.wf() && t@ == secs * NANOS_PER_SECOND + nanos,
    {
        if nanos < NANOS_PER_SECOND {
            Some(UnixTime { secs, nanos })
        } else {
            None
        }
    }

    /// The instant that a clock's reading stands for, where the reading is
    /// the whole seconds and the nanoseconds since the Unix epoch; none where
    /// the clock gave no such reading, or one with a second or more of
    /// nanoseconds.
    pub fn from_reading(reading: Option<(u64, u32)>) -> (res: Option<UnixTime>)
        ensures
            match reading {
                Some((secs, nanos)) => if nanos < NANOS_PER_SECOND {
                    res matches Some(t) && t.wf() && t@ == secs * NANOS_PER_SECOND + nanos
                } else {
                    res is None
                },
                None => res is None,
            },
    {
        match reading {
            Some((secs, nanos)) => UnixTime::new(secs, nanos),
            None => None,
        }
    }

    /// The system clock's present reading; none where the clock stands
    /// before the Unix epoch.
    pub fn now() -> (res: Option<UnixTime>)
        ensures
            res matches Some(t) ==> t.wf(),
    {
        let reading = SystemTime::now();
        Self::from_reading(since_unix_epoch(&reading))
    }

    /// Whole seconds since the Unix epoch.
    pub fn secs(&self) -> (res: u64)
        ensures
            res == self@ / (NANOS_PER_SECOND as nat),
    {
        proof {
            use_type_invariant(self);
        }
        self.secs
    }

    /// Nanoseconds of the second begun.
    pub fn subsec_nanos(&self) -> (res: u32)
        ensures
            res == self@ % (NANOS_PER_SECOND as nat),
            res < NANOS_PER_SECOND,
    {
        proof {
            use_type_invariant(self);
        }
        self.nanos
    }

    /// The whole distance from the Unix epoch in nanoseconds.
    pub fn as_nanos(&self) -> (res: u128)
        ensures
            res == self@,
            res < 0x4000_0000_0000_0000_0000_0000,
    {
        proof {
            use_type_invariant(self);
        }
        let whole: u128 = (self.secs as u128) * 1_000_000_000;
        whole + (self.nanos as u128)
    }

    /// Two valid instants at the same distance from the epoch are the same
    /// instant.
    pub proof fn lemma_view_injective(a: UnixTime, b: UnixTime)
        requires
            a.wf(),
            b.wf(),
            a@ == b@,
        ensures
            a == b,
    {
    }

    /// A valid instant lies less than 2^64 seconds after the epoch.
    pub proof fn lemma_view_bound(self)
        requires
            self.wf(),
        ensures
            self@ < 0x1_0000_0000_0000_0000 * NANOS_PER_SECOND,
    {
    }
}

/// A 64-bit NTP timestamp: whole seconds since the NTP epoch in the high 32
/// bits, the numerator of a fraction of a second over 2^32 in the low 32
/// bits. The value zero is no instant: it stands for "unset".
#[derive(Clone, Copy, Debug, PartialEq, Eq, Structural)]
pub struct TimeStamp {
    pub time: u64,
}

/// The fraction over 2^32 that stands for `nanos` nanoseconds: the least one
/// that is not earlier. For less than a second of nanoseconds it is the least
/// fraction that `nanos_of_fraction` takes back to `nanos`.
pub open spec fn fraction_of_nanos(nanos: int) -> int {
    (nanos * TWO_POW_32 + NANOS_PER_SECOND - 1) / (NANOS_PER_SECOND as int)
}

/// The whole nanoseconds that have passed at `fraction` over 2^32 of a second.
pub open spec fn nanos_of_fraction(fraction: int) -> int {
    fraction * NANOS_PER_SECOND / (TWO_POW_32 as int)
}

impl TimeStamp {
    /// The seconds field: whole seconds since the NTP epoch, within one era.
    pub open spec fn seconds(self) -> int {
        self.time as int / TWO_POW_32 as int
    }

    /// The fraction field: the part of a second over 2^32.
    pub open spec fn fraction(self) -> int {
        self.time as int % TWO_POW_32 as int
    }

    /// The timestamp of the instant `n` nanoseconds after the Unix epoch.
    /// Seconds beyond the era that began in 1900 wrap round.
    pub open spec fn of_unix_nanos(n: nat) -> TimeStamp {
        let secs = n as int / NANOS_PER_SECOND as int;
        let nanos = n as int % NANOS_PER_SECOND as int;
        TimeStamp {
            time: (((secs + NTP_TO_UNIX_SECONDS) % (TWO_POW_32 as int)) * TWO_POW_32
                + fraction_of_nanos(nanos)) as u64,
        }
    }

    /// The instant that the timestamp stands for, in nanoseconds after the
    /// Unix epoch; none where its seconds lie before that epoch, as those of
    /// the unset timestamp do.
    pub open spec fn unix_nanos(self) -> Option<nat> {
        if self.seconds() < NTP_TO_UNIX_SECONDS {
            None
        } else {
            Some(
                ((self.seconds() - NTP_TO_UNIX_SECONDS) * NANOS_PER_SECOND + nanos_of_fraction(
                    self.fraction(),
                )) as nat,
            )
        }
    }

    /// Whether `n` nanoseconds after the Unix epoch falls into the era that
    /// a timestamp can tell apart from others.
    pub open spec fn representable(n: nat) -> bool {
        n as int / NANOS_PER_SECOND as int + NTP_TO_UNIX_SECONDS < TWO_POW_32
    }

    /// The eight bytes of the timestamp on the wire: seconds, then fraction,
    /// each most significant byte first.
    pub open spec fn wire(self) -> Seq<u8> {
        be_bytes(self.seconds() as u32) + be_bytes(self.fraction() as u32)
    }

    /// The timestamp that the eight bytes of `bytes` from index `at` on spell.
    pub open spec fn of_wire(bytes: Seq<u8>, at: int) -> TimeStamp {
        TimeStamp {
            time: (be_value(bytes, at) * TWO_POW_32 + be_value(bytes, at + 4)) as u64,
        }
    }

    /// The 64-bit fixed-point value.
    pub fn raw(&self) -> (res: u64)
        ensures
            res == self.time,
    {
        self.time
    }

    /// The timestamp of the instant `t`. Within the representable era it
    /// stands for `t` again, and is not the unset timestamp.
    pub fn encode(t: UnixTime) -> (res: TimeStamp)
        ensures
            res == Self::of_unix_nanos(t@),
            Self::representable(t@) ==> res.unix_nanos() == Some(t@) && res.time != 0,
    {
        proof {
            if Self::representable(t@) {
                lemma_timestamp_round_trip(t@);
            }
        }
        let secs = t.secs();
        let nanos = t.subsec_nanos();
        let era_secs: u64 = (secs % TWO_POW_32 + NTP_TO_UNIX_SECONDS) % TWO_POW_32;
        let fraction: u64 = ((nanos as u64) * TWO_POW_32 + 999_999_999) / 1_000_000_000;
        assert(fraction == fraction_of_nanos(nanos as int));
        assert(fraction < TWO_POW_32);
        TimeStamp { time: era_secs * TWO_POW_32 + fraction }
    }

    /// The timestamp of a clock's reading: that of the instant read, and
    /// none where the clock gave no reading.
    pub fn from_reading(reading: Option<UnixTime>) -> (res: Option<TimeStamp>)
        ensures
            res == match reading {
                Some(t) => Some(Self::of_unix_nanos(t@)),
                None => None,
            },
    {
        match reading {
            Some(t) => Some(Self::encode(t)),
            None => None,
        }
    }

    /// The timestamp of the system clock's present reading; none where the
    /// clock stands before the Unix epoch.
    pub fn now() -> (res: Option<TimeStamp>)
        ensures
            res matches Some(stamp) ==> exists|n: nat| stamp == Self::of_unix_nanos(n),
    {
        Self::from_reading(UnixTime::now())
    }

    /// The instant that the timestamp stands for; none where its seconds lie
    /// before the Unix epoch. The unset timestamp gives none.
    pub fn decode(&self) -> (res: Option<UnixTime>)
        ensures
            match res {
                Some(t) => t.wf() && self.unix_nanos() == Some(t@),
                None => self.unix_nanos() is None,
            },
            self.time == 0 ==> res is None,
    {
        let seconds: u64 = self.time / TWO_POW_32;
        let fraction: u64 = self.time % TWO_POW_32;
        if seconds < NTP_TO_UNIX_SECONDS {
            return None;
        }
        assert(fraction * 1_000_000_000 < 0x1_0000_0000 * 1_000_000_000);
        let nanos: u64 = fraction * 1_000_000_000 / TWO_POW_32;
        assert(nanos == nanos_of_fraction(self.fraction()));
        UnixTime::new(seconds - NTP_TO_UNIX_SECONDS, nanos as u32)
    }

    /// Appends the eight bytes of the timestamp to `out`.
    pub fn put(&self, out: &mut Vec<u8>)
        ensures
            final(out)@ == old(out)@ + self.wire(),
    {
        put_be(out, (self.time / TWO_POW_32) as u32);
        put_be(out, (self.time % TWO_POW_32) as u32);
        assert(out@ =~= old(out)@ + self.wire());
    }

    /// Reads the timestamp that the eight bytes from index `at` on spell.
    pub fn get(bytes: &[u8], at: usize) -> (res: TimeStamp)
        requires
            at + 8 <= bytes.len(),
        ensures
            res == Self::of_wire(bytes@, at as int),
    {
        let seconds = get_be(bytes, at);
        let fraction = get_be(bytes, at + 4);
        TimeStamp { time: (seconds as u64) * TWO_POW_32 + (fraction as u64) }
    }
}

/// A second's worth of nanoseconds or less comes back from its fraction
/// unchanged, and the fraction fits the 32-bit field.
pub proof fn lemma_fraction_round_trip(nanos: int)
    requires
        0 <= nanos < NANOS_PER_SECOND,
    ensures
        0 <= fraction_of_nanos(nanos) < TWO_POW_32,
        nanos_of_fraction(fraction_of_nanos(nanos)) == nanos,
        forall|fraction: int|
            0 <= fraction < fraction_of_nanos(nanos) ==> #[trigger] nanos_of_fraction(fraction)
                < nanos,
{
    let f = fraction_of_nanos(nanos);
    assert(nanos * 0x1_0000_0000 <= f * 1_000_000_000 <= nanos * 0x1_0000_0000 + 999_999_999);
    assert forall|fraction: int| 0 <= fraction < f implies #[trigger] nanos_of_fraction(fraction)
        < nanos by {
        assert(fraction * 1_000_000_000 <= f * 1_000_000_000 - 1_000_000_000);
    }
}

/// Every fraction stands for less than a second.
pub proof fn lemma_nanos_of_fraction_bound(fraction: int)
    requires
        0 <= fraction < TWO_POW_32,
    ensures
        0 <= nanos_of_fraction(fraction) < NANOS_PER_SECOND,
{
}

/// Decoding the timestamp of an instant gives the instant back, to the
/// nanosecond, for every instant of the representable era; and that
/// timestamp is never the unset one.
pub proof fn lemma_timestamp_round_trip(n: nat)
    requires
        TimeStamp::representable(n),
    ensures
        TimeStamp::of_unix_nanos(n).unix_nanos() == Some(n),
        TimeStamp::of_unix_nanos(n).time != 0,
{
    let secs = n as int / 1_000_000_000;
    let nanos = n as int % 1_000_000_000;
    let f = fraction_of_nanos(nanos);
    lemma_fraction_round_trip(nanos);
    let stamp = TimeStamp::of_unix_nanos(n);
    let era = secs + 2_208_988_800;
    assert(era % 0x1_0000_0000 == era);
    assert(stamp.time == era * 0x1_0000_0000 + f);
    assert(stamp.seconds() == era);
    assert(stamp.fraction() == f);
}

/// A timestamp that stands for an instant stands for one of the
/// representable era, and the timestamp of that instant is the earliest one
/// that stands for it.
pub proof fn lemma_timestamp_of_decoded(stamp: TimeStamp)
    requires
        stamp.unix_nanos() is Some,
    ensures
        TimeStamp::representable(stamp.unix_nanos().unwrap()),
        TimeStamp::of_unix_nanos(stamp.unix_nanos().unwrap()).unix_nanos() == stamp.unix_nanos(),
        TimeStamp::of_unix_nanos(stamp.unix_nanos().unwrap()).time <= stamp.time,
{
    let n = stamp.unix_nanos().unwrap();
    let nanos = nanos_of_fraction(stamp.fraction());
    lemma_nanos_of_fraction_bound(stamp.fraction());
    assert(n as int / 1_000_000_000 == stamp.seconds() - 2_208_988_800);
    assert(n as int % 1_000_000_000 == nanos);
    lemma_timestamp_round_trip(n);
    lemma_fraction_round_trip(nanos);
    assert(fraction_of_nanos(nanos) <= stamp.fraction());
}

/// Reading back the bytes of a timestamp gives the timestamp, wherever they
/// lie.
pub proof fn lemma_of_wire_of_timestamp(stamp: TimeStamp, before: Seq<u8>, after: Seq<u8>)
    ensures
        TimeStamp::of_wire(before + stamp.wire() + after, before.len() as int) == stamp,
{
    let hi = stamp.seconds() as u32;
    let lo = stamp.fraction() as u32;
    let all = before + stamp.wire() + after;
    assert(all =~= before + be_bytes(hi) + (be_bytes(lo) + after));
    lemma_be_value_of_bytes(hi, before, be_bytes(lo) + after);
    assert(all =~= (before + be_bytes(hi)) + be_bytes(lo) + after);
    lemma_be_value_of_bytes(lo, before + be_bytes(hi), after);
}

/// Writing out the timestamp that eight bytes spell gives the eight bytes.
pub proof fn lemma_wire_of_timestamp_of(bytes: Seq<u8>, at: int)
    requires
        0 <= at,
        at + 8 <= bytes.len(),
    ensures
        TimeStamp::of_wire(bytes, at).wire() == bytes.subrange(at, at + 8),
{
    lemma_be_bytes_of_value(bytes, at);
    lemma_be_bytes_of_value(bytes, at + 4);
    let stamp = TimeStamp::of_wire(bytes, at);
    let hi = be_value(bytes, at);
    let lo = be_value(bytes, at + 4);
    assert(stamp.time == hi * 0x1_0000_0000 + lo);
    assert(stamp.seconds() == hi);
    assert(stamp.fraction() == lo);
    assert(stamp.wire() =~= bytes.subrange(at, at + 4) + bytes.subrange(at + 4, at + 8));
    assert(stamp.wire() =~= bytes.subrange(at, at + 8));
}

impl Default for TimeStamp {
    /// The unset timestamp.
    fn default() -> (res: TimeStamp)
        ensures
            res.time == 0,
    {
        TimeStamp { time: 0 }
    }
}

} // verus!
