//! Offsets: what a caller may ask for, what the engine understands, and the
//! integer encoding librdkafka stores in a partition list.

use vstd::prelude::*;

verus! {

/// Encoding of [`ConcreteOffset::Beginning`].
pub const RAW_BEGINNING: i64 = -2;

/// Encoding of [`ConcreteOffset::End`].
pub const RAW_END: i64 = -1;

/// Encoding of [`ConcreteOffset::Stored`].
pub const RAW_STORED: i64 = -1000;

/// Encoding of [`ConcreteOffset::Invalid`]; also what a freshly added
/// partition holds before an offset is set.
pub const RAW_INVALID: i64 = -1001;

/// Encodings at or below this value count back from the end of the partition.
pub const RAW_TAIL_BASE: i64 = -2000;

/// The largest distance from the tail whose encoding still fits in an `i64`.
pub const MAX_TAIL: i64 = 0x7fff_ffff_ffff_f830;

/// Where consumption starts, as a caller asks for it.
#[derive(Clone, Copy, Debug, PartialEq, Eq, Structural)]
pub enum KafkaOffset {
    /// The earliest available offset.
    Beginning,
    /// The next offset to be written.
    End,
    /// The last committed offset of the consumer group.
    Stored,
    /// `n >= 0` is the exact offset `n`; `n < 0` counts back from the tail,
    /// `-1` being the position nearest to it.
    Offset(i64),
    /// Start at the first bound. The second bound is carried for a later
    /// stop-at-offset rule and does not take part in resolution.
    OffsetInterval(i64, i64),
    /// Start at the first offset whose timestamp (epoch milliseconds) is at
    /// least the first bound. The second bound does not take part in
    /// resolution.
    TimeInterval(i64, i64),
}

/// A position the engine can be assigned to.
#[derive(Clone, Copy, Debug, PartialEq, Eq, Structural)]
pub enum ConcreteOffset {
    /// Start of the partition.
    Beginning,
    /// End of the partition.
    End,
    /// The stored (committed) offset.
    Stored,
    /// No offset.
    Invalid,
    /// An exact offset.
    Offset(i64),
    /// A distance back from the end of the partition.
    OffsetTail(i64),
}

/// What it takes to turn a [`KafkaOffset`] into a [`ConcreteOffset`].
#[derive(Clone, Copy, Debug, PartialEq, Eq, Structural)]
pub enum Resolution {
    /// Known without asking anyone.
    Ready(ConcreteOffset),
    /// The broker has to be asked which offset belongs to this timestamp
    /// (epoch milliseconds).
    NeedsTimeLookup(i64),
}

impl KafkaOffset {
    /// The resolution of each kind of request.
    pub open spec fn resolution(self) -> Resolution {
        match self {
            KafkaOffset::Beginning => Resolution::Ready(ConcreteOffset::Beginning),
            KafkaOffset::End => Resolution::Ready(ConcreteOffset::End),
            KafkaOffset::Stored => Resolution::Ready(ConcreteOffset::Stored),
            KafkaOffset::Offset(n) => if n >= 0 {
                Resolution::Ready(ConcreteOffset::Offset(n))
            } else {
                Resolution::Ready(ConcreteOffset::OffsetTail((-n - 1) as i64))
            },
            KafkaOffset::OffsetInterval(begin, _) => Resolution::Ready(
                ConcreteOffset::Offset(begin),
            ),
            KafkaOffset::TimeInterval(begin_ms, _) => Resolution::NeedsTimeLookup(begin_ms),
        }
    }

    /// Whether resolving this request takes a broker round-trip.
    pub open spec fn needs_broker(self) -> bool {
        self is TimeInterval
    }

    /// Resolves the request as far as that is possible locally.
    pub fn resolve(self) -> (r: Resolution)
        ensures
            r == self.resolution(),
            r is NeedsTimeLookup <==> self.needs_broker(),
    {
        match self {
            KafkaOffset::Beginning => Resolution::Ready(ConcreteOffset::Beginning),
            KafkaOffset::End => Resolution::Ready(ConcreteOffset::End),
            KafkaOffset::Stored => Resolution::Ready(ConcreteOffset::Stored),
            KafkaOffset::Offset(n) => {
                if n >= 0 {
                    Resolution::Ready(ConcreteOffset::Offset(n))
                } else {
                    Resolution::Ready(ConcreteOffset::OffsetTail(-(n + 1)))
                }
            },
            KafkaOffset::OffsetInterval(begin, _) => Resolution::Ready(
                ConcreteOffset::Offset(begin),
            ),
            KafkaOffset::TimeInterval(begin_ms, _) => Resolution::NeedsTimeLookup(begin_ms),
        }
    }
}

impl ConcreteOffset {
    /// The integer librdkafka stores for this offset, if it has one: exact
    /// offsets must not be negative, and a distance from the tail must be
    /// positive and small enough for its encoding to fit.
    pub open spec fn raw(self) -> Option<i64> {
        match self {
            ConcreteOffset::Beginning => Some(RAW_BEGINNING),
            ConcreteOffset::End => Some(RAW_END),
            ConcreteOffset::Stored => Some(RAW_STORED),
            ConcreteOffset::Invalid => Some(RAW_INVALID),
            ConcreteOffset::Offset(n) => if n >= 0 {
                Some(n)
            } else {
                None
            },
            ConcreteOffset::OffsetTail(n) => if 0 < n <= MAX_TAIL {
                Some((RAW_TAIL_BASE - n) as i64)
            } else {
                None
            },
        }
    }

    /// The offset that a stored integer stands for.
    pub open spec fn of_raw(raw: i64) -> ConcreteOffset {
        if raw == RAW_BEGINNING {
            ConcreteOffset::Beginning
        } else if raw == RAW_END {
            ConcreteOffset::End
        } else if raw == RAW_STORED {
            ConcreteOffset::Stored
        } else if raw == RAW_INVALID {
            ConcreteOffset::Invalid
        } else if raw <= RAW_TAIL_BASE {
            ConcreteOffset::OffsetTail((RAW_TAIL_BASE - raw) as i64)
        } else {
            ConcreteOffset::Offset(raw)
        }
    }

    /// Whether a partition list can hold this offset.
    pub open spec fn representable(self) -> bool {
        self.raw() is Some
    }

    /// Whether a partition list can hold this offset.
    pub fn is_representable(self) -> (b: bool)
        ensures
            b == self.representable(),
    {
        match self {
            ConcreteOffset::Offset(n) => n >= 0,
            ConcreteOffset::OffsetTail(n) => 0 < n && n <= MAX_TAIL,
            _ => true,
        }
    }
}

/// An exact, non-negative offset resolves to itself, with no broker involved.
pub proof fn law_absolute_offset(n: i64)
    requires
        n >= 0,
    ensures
        KafkaOffset::Offset(n).resolution() == Resolution::Ready(ConcreteOffset::Offset(n)),
        !KafkaOffset::Offset(n).needs_broker(),
{
}

/// A negative offset `n` resolves to the distance `-n - 1` from the tail, for
/// every `n` down to `i64::MIN`, with no broker involved.
pub proof fn law_tail_offset(n: i64)
    requires
        n < 0,
    ensures
        KafkaOffset::Offset(n).resolution() matches Resolution::Ready(ConcreteOffset::OffsetTail(d))
            && d == -n - 1 && d >= 0,
        !KafkaOffset::Offset(n).needs_broker(),
{
}

/// Only a time interval needs the broker, and it asks about its first bound.
pub proof fn law_lookup_only_for_time(spec: KafkaOffset)
    ensures
        spec.resolution() is NeedsTimeLookup <==> spec is TimeInterval,
        spec matches KafkaOffset::TimeInterval(begin_ms, _) ==> spec.resolution()
            == Resolution::NeedsTimeLookup(begin_ms),
{
}

/// Reading back what was stored gives the offset that was stored.
pub proof fn law_raw_round_trip(offset: ConcreteOffset)
    requires
        offset.representable(),
    ensures
        ConcreteOffset::of_raw(offset.raw()->0) == offset,
{
}

} // verus!
