//! Points in time of a stream.
use vstd::prelude::*;

verus! {

/// The nanoseconds in a second.
pub const NANOS_PER_SEC: u32 = 1_000_000_000;

/// A point in time, counted from the start of the stream.
#[derive(Clone, Copy, Debug, PartialEq, Eq, Structural)]
pub struct StreamInstant {
    secs: i64,
    nanos: u32,
}

impl StreamInstant {
    /// The whole seconds since the start.
    pub closed spec fn secs_part(self) -> int {
        self.secs as int
    }

    /// The nanoseconds since the last whole second.
    pub closed spec fn nanos_part(self) -> int {
        self.nanos as int
    }

    /// Not before the start, and with less than a second of nanoseconds.
    pub open spec fn valid(self) -> bool {
        &&& 0 <= self.secs_part() <= i64::MAX
        &&& 0 <= self.nanos_part() < NANOS_PER_SEC
    }

    /// The nanoseconds since the start.
    pub open spec fn nanos_total(self) -> int {
        self.secs_part() * NANOS_PER_SEC + self.nanos_part()
    }

    /// The instant that lies `total` nanoseconds after the start.
    pub closed spec fn at(total: int) -> StreamInstant {
        StreamInstant {
            secs: (total / NANOS_PER_SEC as int) as i64,
            nanos: (total % NANOS_PER_SEC as int) as u32,
        }
    }

    /// Whether the instant `total` nanoseconds after the start can be represented.
    pub open spec fn representable(total: int) -> bool {
        0 <= total && total / NANOS_PER_SEC as int <= i64::MAX
    }

    /// The whole seconds since the start.
    pub fn secs(&self) -> (n: i64)
        ensures
            n == self.secs_part(),
    {
        self.secs
    }

    /// The nanoseconds since the last whole second.
    pub fn subsec_nanos(&self) -> (n: u32)
        ensures
            n == self.nanos_part(),
    {
        self.nanos
    }

    /// The instant `nanos` nanoseconds after the start, unless its seconds are
    /// too many to be counted.
    pub fn from_nanos_i128(nanos: i128) -> (instant: Option<StreamInstant>)
        requires
            0 <= nanos,
        ensures
            instant == if Self::representable(nanos as int) {
                Some(Self::at(nanos as int))
            } else {
                None
            },
            instant matches Some(i) ==> i.valid() && i.nanos_total() == nanos,
    {
        let secs: i128 = nanos / NANOS_PER_SEC as i128;
        if secs > i64::MAX as i128 {
            None
        } else {
            let subsec: i128 = nanos % NANOS_PER_SEC as i128;
            Some(StreamInstant { secs: secs as i64, nanos: subsec as u32 })
        }
    }

    /// The instant `nanos` nanoseconds after this one, unless its seconds are
    /// too many to be counted.
    pub fn add(&self, nanos: u64) -> (instant: Option<StreamInstant>)
        requires
            self.valid(),
        ensures
            instant == if Self::representable(self.nanos_total() + nanos) {
                Some(Self::at(self.nanos_total() + nanos))
            } else {
                None
            },
            instant matches Some(i) ==> i.valid() && i.nanos_total() == self.nanos_total() + nanos,
    {
        let own: i128 = self.secs as i128 * NANOS_PER_SEC as i128 + self.nanos as i128;
        Self::from_nanos_i128(own + nanos as i128)
    }

    /// An instant can be represented if and only if it does not lie before the start,
    /// and its whole seconds fit in 63 bits.
    pub proof fn law_representable(total: int)
        ensures
            Self::representable(total) <==> 0 <= total < (0x7fff_ffff_ffff_ffff + 1)
                * 1_000_000_000,
    {
    }

    /// The instant at a representable number of nanoseconds is valid and has that
    /// number, in whole seconds and the rest.
    pub proof fn law_at(total: int)
        requires
            Self::representable(total),
        ensures
            Self::at(total).valid(),
            Self::at(total).nanos_total() == total,
            Self::at(total).secs_part() == total / 1_000_000_000,
            Self::at(total).nanos_part() == total % 1_000_000_000,
    {
    }

    /// A valid instant is known by its nanoseconds since the start: it is the
    /// instant at that number.
    pub proof fn law_nanos_total(self)
        requires
            self.valid(),
        ensures
            Self::representable(self.nanos_total()),
            Self::at(self.nanos_total()) == self,
    {
    }
}

/// When a buffer was asked for, and when it will be heard.
#[derive(Clone, Copy, Debug, PartialEq, Eq, Structural)]
pub struct OutputStreamTimestamp {
    /// When the data callback is called.
    pub callback: StreamInstant,
    /// When the first sample written by the callback will be played.
    pub playback: StreamInstant,
}

/// What the data callback of an output stream is told.
#[derive(Clone, Copy, Debug, PartialEq, Eq, Structural)]
pub struct OutputCallbackInfo {
    pub timestamp: OutputStreamTimestamp,
}

} // verus!
