//! Streams: a release at a constant rate per interval, counted from the last
//! checkpoint.

use vstd::prelude::*;
use crate::error::{calculation, CustomError};
use crate::identity::Address;
use crate::math::{checked_add, checked_mul, lemma_product_fits, narrow};
use crate::vesting::TokensReleased;

verus! {

/// The formula by which a stream releases. Only the linear one is defined;
/// the other two are names without a formula, and a stream of either kind
/// releases nothing and says so.
#[derive(Clone, Copy, Debug, PartialEq, Eq, Structural)]
pub enum StreamType {
    Linear,
    Exponential,
    Custom,
}

/// One stream: its rate and the record of what it has released.
#[derive(Clone, Copy, Debug, PartialEq, Eq, Structural)]
pub struct StreamSchedule {
    pub stream_type: StreamType,
    /// The amount released for each whole interval.
    pub rate: u64,
    /// The length of an interval in seconds.
    pub interval: i64,
    /// The time of the last checkpoint; it only advances.
    pub last_update_time: i64,
    /// What has been released so far; it only grows.
    pub total_streamed: u64,
}

impl StreamSchedule {
    /// The number of whole intervals between the last checkpoint and `now`.
    pub open spec fn whole_intervals(&self, now: i64) -> int {
        (now - self.last_update_time) / (self.interval as int)
    }

    /// Whether the linear formula has a value at `now`: time has not run
    /// backwards and the interval is positive.
    pub open spec fn measurable(&self, now: i64) -> bool {
        now >= self.last_update_time && self.interval > 0
    }

    /// The amount that has accrued since the last checkpoint: the rate for
    /// each whole interval.
    pub open spec fn spec_streamable_amount(&self, now: i64) -> Result<u64, CustomError> {
        if self.stream_type != StreamType::Linear {
            Err(CustomError::InvalidStreamRate)
        } else if self.measurable(now) && self.rate * self.whole_intervals(now) <= u64::MAX {
            Ok((self.rate * self.whole_intervals(now)) as u64)
        } else {
            Err(CustomError::CalculationError)
        }
    }

    /// The stream after a checkpoint at `now`, where the accrued amount has a
    /// value and the running total stays within 64 bits.
    pub open spec fn spec_checkpoint(&self, now: i64) -> Result<StreamSchedule, CustomError> {
        match self.spec_streamable_amount(now) {
            Err(e) => Err(e),
            Ok(amount) => if self.total_streamed + amount <= u64::MAX {
                Ok(
                    StreamSchedule {
                        last_update_time: now,
                        total_streamed: (self.total_streamed + amount) as u64,
                        ..*self
                    },
                )
            } else {
                Err(CustomError::CalculationError)
            },
        }
    }

    /// Creates a stream at time `now` with nothing released.
    pub fn initialize(stream_type: StreamType, rate: u64, interval: i64, now: i64) -> (s:
        StreamSchedule)
        ensures
            s == (StreamSchedule {
                stream_type,
                rate,
                interval,
                last_update_time: now,
                total_streamed: 0,
            }),
    {
        StreamSchedule { stream_type, rate, interval, last_update_time: now, total_streamed: 0 }
    }

    /// The amount that has accrued at `now` since the last checkpoint.
    /// Nothing is changed.
    pub fn streamable_amount(&self, now: i64) -> (r: Result<u64, CustomError>)
        ensures
            r == self.spec_streamable_amount(now),
    {
        match self.stream_type {
            StreamType::Linear => {},
            _ => {
                return Err(CustomError::InvalidStreamRate);
            },
        }
        if now < self.last_update_time || self.interval <= 0 {
            return Err(CustomError::CalculationError);
        }
        let elapsed: u64 = (now as i128 - self.last_update_time as i128) as u64;
        let intervals: u64 = elapsed / (self.interval as u64);
        proof {
            lemma_product_fits(self.rate, intervals);
        }
        let amount: u128 = calculation(checked_mul(self.rate as u128, intervals as u128))?;
        calculation(narrow(amount))
    }

    /// Commits what has accrued at `now`: adds it to the running total, moves
    /// the checkpoint to `now` and returns the amount. A failed checkpoint
    /// changes nothing.
    pub fn checkpoint(&mut self, now: i64) -> (r: Result<u64, CustomError>)
        ensures
            match old(self).spec_checkpoint(now) {
                Ok(next) => *final(self) == next && r == Ok::<u64, CustomError>(
                    (next.total_streamed - old(self).total_streamed) as u64,
                ) && r == old(self).spec_streamable_amount(now),
                Err(e) => r == Err::<u64, CustomError>(e) && *final(self) == *old(self),
            },
            r.is_ok() ==> final(self).last_update_time >= old(self).last_update_time,
            final(self).total_streamed >= old(self).total_streamed,
    {
        let amount: u64 = self.streamable_amount(now)?;
        let total: u128 = calculation(checked_add(self.total_streamed as u128, amount as u128))?;
        let total: u64 = calculation(narrow(total))?;
        self.total_streamed = total;
        self.last_update_time = now;
        Ok(amount)
    }

    /// A checkpoint for a beneficiary: what `checkpoint` does, with the
    /// record of the release in place of the bare amount.
    pub fn checkpoint_for(&mut self, beneficiary: Address, now: i64) -> (r: Result<
        TokensReleased,
        CustomError,
    >)
        ensures
            match old(self).spec_checkpoint(now) {
                Ok(next) => *final(self) == next && r == Ok::<TokensReleased, CustomError>(
                    TokensReleased {
                        beneficiary,
                        amount: (next.total_streamed - old(self).total_streamed) as u64,
                        timestamp: now,
                    },
                ),
                Err(e) => r == Err::<TokensReleased, CustomError>(e) && *final(self) == *old(self),
            },
    {
        let amount: u64 = self.checkpoint(now)?;
        Ok(TokensReleased { beneficiary, amount, timestamp: now })
    }
}

} // verus!
