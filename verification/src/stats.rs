//! The result of a probe run: totals, elapsed time, rates and ratio.

use vstd::prelude::*;

verus! {

/// Nanoseconds in a second.
pub const NANOS_PER_SEC: u64 = 1_000_000_000;

/// A transfer rate: `bytes` moved within `nanos` nanoseconds. Nothing moves
/// at any rate within no time: only a value with `nanos` above zero is a rate.
#[derive(Clone, Copy, Debug, PartialEq, Eq, Structural)]
pub struct Rate {
    pub bytes: usize,
    pub nanos: u64,
}

impl Rate {
    /// Whether this is a rate: whether its time is above zero.
    pub open spec fn is_defined(self) -> bool {
        self.nanos > 0
    }

    /// The rate of `bytes` moved within `elapsed_nanos` nanoseconds, and none
    /// where no time has elapsed.
    pub fn new(bytes: usize, elapsed_nanos: u64) -> (rate: Option<Rate>)
        ensures
            rate == rate_of(bytes, elapsed_nanos),
    {
        if elapsed_nanos == 0 {
            None
        } else {
            Some(Rate { bytes, nanos: elapsed_nanos })
        }
    }
}

/// The rate of `bytes` moved within `elapsed_nanos` nanoseconds. There is
/// none where no time has elapsed.
pub open spec fn rate_of(bytes: usize, elapsed_nanos: u64) -> Option<Rate> {
    if elapsed_nanos == 0 {
        None
    } else {
        Some(Rate { bytes, nanos: elapsed_nanos })
    }
}

/// A quotient of two byte counts, `numer / denom`.
#[derive(Clone, Copy, Debug, PartialEq, Eq, Structural)]
pub struct Ratio {
    pub numer: usize,
    pub denom: usize,
}

impl Ratio {
    /// Whether the quotient is zero.
    pub open spec fn is_zero(self) -> bool {
        self.numer == 0 && self.denom > 0
    }

    /// Whether the quotient equals `numer / denom` as a fraction.
    pub open spec fn equals(self, numer: nat, denom: nat) -> bool {
        self.denom > 0 && denom > 0 && self.numer * denom == numer * self.denom
    }
}

/// What was received per byte sent, and zero where nothing was sent.
pub open spec fn ratio_of(received: usize, sent: usize) -> Ratio {
    if sent == 0 {
        Ratio { numer: 0, denom: 1 }
    } else {
        Ratio { numer: received, denom: sent }
    }
}

/// What a probe run measured.
#[derive(Clone, Copy, Debug, PartialEq, Eq)]
pub struct NetworkStats {
    /// The bytes written in all.
    pub bytes_sent: usize,
    /// The bytes read in all.
    pub bytes_received: usize,
    /// The time that the run took, in nanoseconds.
    pub elapsed_nanos: u64,
    /// The rate at which bytes were written; none for a run that took no time.
    pub upload_rate: Option<Rate>,
    /// The rate at which bytes were read; none for a run that took no time.
    pub download_rate: Option<Rate>,
    /// The bytes received for each byte sent; zero where nothing was sent.
    pub ratio: Ratio,
}

/// The result that belongs to the totals of a run and its elapsed time.
pub open spec fn stats_of(sent: usize, received: usize, elapsed_nanos: u64) -> NetworkStats {
    NetworkStats {
        bytes_sent: sent,
        bytes_received: received,
        elapsed_nanos,
        upload_rate: rate_of(sent, elapsed_nanos),
        download_rate: rate_of(received, elapsed_nanos),
        ratio: ratio_of(received, sent),
    }
}

impl NetworkStats {
    /// Derives the result of a run from its totals and its elapsed time.
    pub fn new(bytes_sent: usize, bytes_received: usize, elapsed_nanos: u64) -> (stats: Self)
        ensures
            stats == stats_of(bytes_sent, bytes_received, elapsed_nanos),
    {
        let ratio = if bytes_sent == 0 {
            Ratio { numer: 0, denom: 1 }
        } else {
            Ratio { numer: bytes_received, denom: bytes_sent }
        };
        NetworkStats {
            bytes_sent,
            bytes_received,
            elapsed_nanos,
            upload_rate: Rate::new(bytes_sent, elapsed_nanos),
            download_rate: Rate::new(bytes_received, elapsed_nanos),
            ratio,
        }
    }
}

/// The ratio of a run is never over zero. It is zero where nothing was sent, and otherwise the
/// fraction of the bytes received over the bytes sent. It is zero exactly when
/// one of the two totals is zero, so where something was received, it is zero
/// exactly when nothing was sent.
pub proof fn lemma_ratio_matches_totals(sent: usize, received: usize, elapsed_nanos: u64)
    ensures
        stats_of(sent, received, elapsed_nanos).ratio.denom > 0,
        sent == 0 ==> stats_of(sent, received, elapsed_nanos).ratio.is_zero(),
        sent > 0 ==> stats_of(sent, received, elapsed_nanos).ratio.equals(
            received as nat,
            sent as nat,
        ),
        stats_of(sent, received, elapsed_nanos).ratio.is_zero() <==> sent == 0 || received == 0,
        received > 0 ==> (stats_of(sent, received, elapsed_nanos).ratio.is_zero() <==> sent == 0),
{
}

/// The rates of a run are guarded against a run that took no time: such a
/// run has no rates, and every rate that a result holds is over its elapsed
/// time, which is above zero, and of its totals.
pub proof fn lemma_rates_are_guarded(sent: usize, received: usize, elapsed_nanos: u64)
    ensures
        ({
            let stats = stats_of(sent, received, elapsed_nanos);
            &&& elapsed_nanos == 0 <==> stats.upload_rate is None
            &&& elapsed_nanos == 0 <==> stats.download_rate is None
            &&& stats.upload_rate matches Some(rate) ==> rate.is_defined() && rate == (Rate {
                bytes: sent,
                nanos: elapsed_nanos,
            })
            &&& stats.download_rate matches Some(rate) ==> rate.is_defined() && rate == (Rate {
                bytes: received,
                nanos: elapsed_nanos,
            })
        }),
{
}

} // verus!
