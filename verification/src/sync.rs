//! What is made of a reply: the rules it has to meet, and the clock offset
//! and round-trip delay that its timestamps give.

use crate::calendar::{utc_debug, utc_debug_text};
use crate::error::{fixed_message, ErrorKind, NtpError};
use crate::packet::{Leap, Mode, Packet};
use crate::timestamp::{UnixTime, NANOS_PER_SECOND};
use vstd::prelude::*;

verus! {

/// The outcome of one synchronisation. Times are counted in nanoseconds.
#[derive(Clone, Copy, Debug, PartialEq, Eq, Structural)]
pub struct SyncResult {
    /// The local clock's reading put right by the offset, in nanoseconds
    /// after the Unix epoch; negative before it.
    pub estimated_time: i128,
    /// How far the server's clock is ahead of the local one.
    pub offset: i128,
    /// The time that request and reply spent on the way.
    pub delay: i128,
    /// The leap indicator of the reply.
    pub leap: Leap,
}

/// Whether a reply is thrown away: its mode is not that of a server, its
/// stratum is zero, or one of the three timestamps that the server owes is
/// unset.
pub open spec fn reply_discarded(packet: Packet) -> bool {
    ||| packet.mode_spec() != Some(Mode::Server)
    ||| packet.stratum == 0
    ||| packet.org.time == 0
    ||| packet.rec.time == 0
    ||| packet.xmt.time == 0
}

/// The clock offset that four instants give: `t1` when the request left,
/// `t2` when it reached the server, `t3` when the reply left, `t4` when it
/// arrived. Half a unit is rounded down.
pub open spec fn clock_offset(t1: int, t2: int, t3: int, t4: int) -> int {
    ((t2 - t1) + (t3 - t4)) / 2
}

/// The round-trip delay that the same four instants give.
pub open spec fn round_trip_delay(t1: int, t2: int, t3: int, t4: int) -> int {
    (t4 - t1) - (t3 - t2)
}

/// What a reply, received at `t4` and worked out at `now`, comes to: the
/// result, or the kind of failure. All instants in nanoseconds after the Unix
/// epoch.
pub open spec fn reply_result(packet: Packet, t4: nat, now: nat) -> Result<SyncResult, ErrorKind> {
    match packet.timestamps_spec() {
        Some((t1, t2, t3)) => {
            let offset = clock_offset(t1 as int, t2 as int, t3 as int, t4 as int);
            Ok(
                SyncResult {
                    estimated_time: (now + offset) as i128,
                    offset: offset as i128,
                    delay: round_trip_delay(t1 as int, t2 as int, t3 as int, t4 as int) as i128,
                    leap: packet.leap_spec(),
                },
            )
        },
        None => Err(ErrorKind::TimestampDecode),
    }
}

/// What a reply, received at `t4` and worked out at `now`, comes to once it
/// is held to the rules: a reply that breaks one is thrown away before any
/// of its timestamps is read.
pub open spec fn reply_outcome(packet: Packet, t4: nat, now: nat) -> Result<SyncResult, ErrorKind> {
    if reply_discarded(packet) {
        Err(ErrorKind::InvalidReplyContent)
    } else {
        reply_result(packet, t4, now)
    }
}

/// Where request and reply took the same time `way` on their paths and the
/// server's clock is `theta` ahead of the local one, the offset is `theta` and
/// the delay is both ways together, however long the server took to answer.
pub proof fn lemma_symmetric_paths(t1: int, t2: int, t3: int, t4: int, way: int, theta: int)
    requires
        t2 == t1 + way + theta,
        t4 == t3 + way - theta,
    ensures
        clock_offset(t1, t2, t3, t4) == theta,
        round_trip_delay(t1, t2, t3, t4) == 2 * way,
{
}

/// Whether the reply is to be thrown away.
pub fn should_discard_received_packet(packet: &Packet) -> (res: bool)
    ensures
        res == reply_discarded(*packet),
        packet.stratum == 0 ==> res,
        packet.mode_spec() != Some(Mode::Server) ==> res,
{
    let mode = match packet.mode() {
        Some(mode) => mode,
        None => {
            return true;
        },
    };
    packet.stratum == 0 || mode != Mode::Server || packet.org.raw() == 0 || packet.rec.raw() == 0
        || packet.xmt.raw() == 0
}

/// Clock offset and round-trip delay, in nanoseconds, from the four instants
/// of one exchange.
pub fn offset_and_delay(t1: UnixTime, t2: UnixTime, t3: UnixTime, t4: UnixTime) -> (res: (
    i128,
    i128,
))
    ensures
        res.0 == clock_offset(t1@ as int, t2@ as int, t3@ as int, t4@ as int),
        res.1 == round_trip_delay(t1@ as int, t2@ as int, t3@ as int, t4@ as int),
{
    let n1 = t1.as_nanos() as i128;
    let n2 = t2.as_nanos() as i128;
    let n3 = t3.as_nanos() as i128;
    let n4 = t4.as_nanos() as i128;
    let sum: i128 = (n2 - n1) + (n3 - n4);
    let offset: i128 = if sum >= 0 {
        sum / 2
    } else {
        -((1 - sum) / 2)
    };
    let delay: i128 = (n4 - n1) - (n3 - n2);
    (offset, delay)
}

impl SyncResult {
    /// The whole seconds of the estimated time, counted from the Unix epoch
    /// and rounded down.
    pub open spec fn estimated_secs(self) -> int {
        self.estimated_time as int / NANOS_PER_SECOND as int
    }

    /// The nanoseconds of the estimated time beyond its whole seconds.
    pub open spec fn estimated_subsec_nanos(self) -> int {
        self.estimated_time as int % NANOS_PER_SECOND as int
    }

    /// The estimated time as a date and time of day in UTC; none where the
    /// calendar does not reach that far.
    pub open spec fn estimated_time_text_spec(self) -> Option<Seq<char>> {
        if i64::MIN <= self.estimated_secs() <= i64::MAX {
            utc_debug_text(self.estimated_secs(), self.estimated_subsec_nanos())
        } else {
            None
        }
    }

    /// The estimated time as a date and time of day in UTC; none where the
    /// calendar does not reach that far.
    pub fn estimated_time_text(&self) -> (res: Option<String>)
        ensures
            match res {
                Some(text) => self.estimated_time_text_spec() == Some(text@),
                None => self.estimated_time_text_spec() is None,
            },
    {
        let (secs, nanos): (i128, i128) = if self.estimated_time >= 0 {
            (self.estimated_time / 1_000_000_000, self.estimated_time % 1_000_000_000)
        } else {
            let before: i128 = -(self.estimated_time + 1);
            (-(before / 1_000_000_000) - 1, 999_999_999 - before % 1_000_000_000)
        };
        assert(secs == self.estimated_secs() && nanos == self.estimated_subsec_nanos());
        if secs < i64::MIN as i128 || secs > i64::MAX as i128 {
            return None;
        }
        utc_debug(secs as i64, nanos as u32)
    }

    /// The result for a local clock that reads `now`.
    pub fn new(offset: i128, delay: i128, leap: Leap, now: UnixTime) -> (res: SyncResult)
        requires
            i128::MIN <= now@ + offset <= i128::MAX,
        ensures
            res == (SyncResult { estimated_time: (now@ + offset) as i128, offset, delay, leap }),
    {
        let estimated_time: i128 = (now.as_nanos() as i128) + offset;
        SyncResult { estimated_time, offset, delay, leap }
    }
}

/// Works a reply out: `t4` is the local clock's reading when the reply
/// arrived, `now` its reading at the time of the estimate. Fails where one of
/// the reply's three timestamps stands for no instant.
pub fn compute_time(packet: &Packet, t4: UnixTime, now: UnixTime) -> (res: Result<
    SyncResult,
    NtpError,
>)
    ensures
        match res {
            Ok(result) => reply_result(*packet, t4@, now@) == Ok::<SyncResult, ErrorKind>(result),
            Err(e) => reply_result(*packet, t4@, now@) == Err::<SyncResult, ErrorKind>(e.kind)
                && fixed_message(e.kind) == Some(e.msg@),
        },
        res is Ok <==> packet.timestamps_spec() is Some,
{
    let (t1, t2, t3) = match packet.timestamps() {
        Some(r) => r,
        None => {
            return Err(
                NtpError::from_slice(
                    ErrorKind::TimestampDecode,
                    "Failed to decode timestamps from reply",
                ),
            );
        },
    };
    let leap = packet.leap().unwrap();
    let (offset, delay) = offset_and_delay(t1, t2, t3, t4);
    proof {
        use_type_invariant(&t4);
        use_type_invariant(&now);
        t1.lemma_view_bound();
        t2.lemma_view_bound();
        t3.lemma_view_bound();
        t4.lemma_view_bound();
        now.lemma_view_bound();
    }
    Ok(SyncResult::new(offset, delay, leap, now))
}

/// Holds a reply to the rules and, where it meets them, works it out. `t4`
/// is the local clock's reading when the reply arrived, `now` its reading at
/// the time of the estimate.
pub fn evaluate_reply(packet: &Packet, t4: UnixTime, now: UnixTime) -> (res: Result<
    SyncResult,
    NtpError,
>)
    ensures
        match res {
            Ok(result) => reply_outcome(*packet, t4@, now@) == Ok::<SyncResult, ErrorKind>(result),
            Err(e) => reply_outcome(*packet, t4@, now@) == Err::<SyncResult, ErrorKind>(e.kind)
                && fixed_message(e.kind) == Some(e.msg@),
        },
        reply_discarded(*packet) ==> (res matches Err(e) && e.kind
            == ErrorKind::InvalidReplyContent),
        res is Ok <==> !reply_discarded(*packet) && packet.timestamps_spec() is Some,
{
    if should_discard_received_packet(packet) {
        return Err(
            NtpError::from_slice(
                ErrorKind::InvalidReplyContent,
                "Incorrect server reply content, discarded",
            ),
        );
    }
    compute_time(packet, t4, now)
}

} // verus!
