//! Vesting: how much of a fixed entitlement has been earned by a given time,
//! and the record of what has been released.

use vstd::prelude::*;
use crate::error::CustomError;
use crate::identity::Address;
use crate::math::{lemma_fraction_bounds, lemma_product_fits, lemma_quotient_monotonic};

verus! {

/// The number of equal stages of a staggered schedule.
pub const STAGES: u64 = 4;

/// The policy by which an entitlement is earned.
#[derive(Clone, Copy, Debug, PartialEq, Eq, Structural)]
pub enum VestingScheduleType {
    /// In proportion to the time that has passed.
    Linear,
    /// In four equal steps, one per quarter of the period.
    Staggered,
    /// All at once at the end.
    Cliff,
    /// In the shares that the milestones name, each at its time.
    CustomMilestone,
}

/// One unlock event: a share of the entitlement, in percent, that is earned
/// at a given time.
#[derive(Clone, Copy, Debug, PartialEq, Eq, Structural)]
pub struct VestingMilestone {
    pub unlock_time: i64,
    pub unlock_percentage: u8,
    pub is_claimed: bool,
}

/// One grant: its policy, its period and what has been released of it.
#[derive(Clone, Debug, PartialEq, Eq)]
pub struct VestingSchedule {
    pub schedule_type: VestingScheduleType,
    /// The period, in seconds since the epoch; the end lies after the start.
    pub start_time: i64,
    pub end_time: i64,
    /// Seconds from the start during which nothing is earned; not negative.
    pub cliff_duration: i64,
    /// The entitlement; fixed at creation.
    pub total_amount: u64,
    /// What has been released so far; it only grows, up to the entitlement.
    pub released_amount: u64,
    /// Read by a milestone schedule only.
    pub milestones: Vec<VestingMilestone>,
}

/// The record of a release: at `timestamp` the beneficiary is owed `amount`.
#[derive(Clone, Copy, Debug, PartialEq, Eq)]
pub struct TokensReleased {
    pub beneficiary: Address,
    pub amount: u64,
    pub timestamp: i64,
}

/// The percentages of all milestones, added up.
pub open spec fn percentage_sum(milestones: Seq<VestingMilestone>) -> nat
    decreases milestones.len(),
{
    if milestones.len() == 0 {
        0
    } else {
        percentage_sum(milestones.drop_last()) + milestones.last().unlock_percentage as nat
    }
}

/// Whether a milestone counts at `now`: its time has come and it has not
/// been claimed.
pub open spec fn counts(m: VestingMilestone, now: i64) -> bool {
    m.unlock_time <= now && !m.is_claimed
}

/// A milestone's share of the entitlement: `total · percentage / 100`,
/// rounded down.
pub open spec fn milestone_share(total: u64, m: VestingMilestone) -> nat {
    ((total * m.unlock_percentage) / 100) as nat
}

/// The shares of all milestones that count at `now`, added up.
pub open spec fn unlocked_sum(total: u64, milestones: Seq<VestingMilestone>, now: i64) -> nat
    decreases milestones.len(),
{
    if milestones.len() == 0 {
        0
    } else {
        unlocked_sum(total, milestones.drop_last(), now) + if counts(milestones.last(), now) {
            milestone_share(total, milestones.last())
        } else {
            0
        }
    }
}

/// The milestones after a claim at `now`: each one whose time has come is
/// marked claimed, and nothing else changes.
pub open spec fn marked(milestones: Seq<VestingMilestone>, now: i64) -> Seq<VestingMilestone> {
    Seq::new(
        milestones.len(),
        |i: int|
            VestingMilestone {
                is_claimed: milestones[i].is_claimed || milestones[i].unlock_time <= now,
                ..milestones[i]
            },
    )
}

/// The smaller of an amount and the entitlement.
pub open spec fn clamp(amount: int, total: u64) -> u64 {
    if amount <= total {
        amount as u64
    } else {
        total
    }
}

impl VestingSchedule {
    /// What every schedule satisfies from its creation on.
    pub open spec fn wf(&self) -> bool {
        &&& self.end_time > self.start_time
        &&& self.cliff_duration >= 0
        &&& self.total_amount > 0
        &&& self.released_amount <= self.total_amount
        &&& (self.schedule_type == VestingScheduleType::CustomMilestone ==> self.milestones@.len()
            > 0 && percentage_sum(self.milestones@) == 100)
    }

    /// Whether the cliff has been passed at `now`.
    pub open spec fn past_cliff(&self, now: i64) -> bool {
        now >= self.start_time + self.cliff_duration
    }

    /// The linear amount: everything from the end on, before that the
    /// elapsed fraction of the period, rounded down.
    pub open spec fn linear_vested(&self, now: i64) -> int {
        if now >= self.end_time {
            self.total_amount as int
        } else {
            (self.total_amount * (now - self.start_time)) / (self.end_time - self.start_time)
        }
    }

    /// The cliff amount: nothing until the end, then everything.
    pub open spec fn cliff_vested(&self, now: i64) -> int {
        if now >= self.end_time {
            self.total_amount as int
        } else {
            0
        }
    }

    /// The length of one stage: a quarter of the period, rounded down.
    pub open spec fn stage_duration(&self) -> int {
        (self.end_time - self.start_time) / 4
    }

    /// The number of stages reached at `now`, at most four.
    pub open spec fn stages_reached(&self, now: i64) -> int {
        let index = (now - self.start_time) / self.stage_duration();
        if index <= 4 {
            index
        } else {
            4
        }
    }

    /// The staggered amount: a quarter of the entitlement, rounded down, for
    /// each stage reached.
    pub open spec fn staggered_vested(&self, now: i64) -> int {
        (self.total_amount / 4) * self.stages_reached(now)
    }

    /// The amount earned at `now`: nothing before the cliff, then what the
    /// policy gives, never more than the entitlement. A staggered schedule
    /// whose period is shorter than four seconds has no stage length to
    /// divide by.
    pub open spec fn spec_vested_amount(&self, now: i64) -> Result<u64, CustomError> {
        if !self.past_cliff(now) {
            Ok(0)
        } else {
            match self.schedule_type {
                VestingScheduleType::Linear => Ok(clamp(self.linear_vested(now), self.total_amount)),
                VestingScheduleType::Cliff => Ok(clamp(self.cliff_vested(now), self.total_amount)),
                VestingScheduleType::Staggered => if self.stage_duration() == 0 {
                    Err(CustomError::CalculationError)
                } else {
                    Ok(clamp(self.staggered_vested(now), self.total_amount))
                },
                VestingScheduleType::CustomMilestone => Ok(
                    clamp(
                        unlocked_sum(self.total_amount, self.milestones@, now) as int,
                        self.total_amount,
                    ),
                ),
            }
        }
    }

    /// What a claim at `now` releases: the amount earned beyond what has been
    /// released, or nothing where less has been earned than released.
    pub open spec fn spec_claim(&self, now: i64, period_ended: bool, market_cap_reached: bool)
        -> Result<u64, CustomError> {
        if self.released_amount == self.total_amount {
            Err(CustomError::TokensAlreadyUnlocked)
        } else if !period_ended {
            Err(CustomError::VestingPeriodNotEnded)
        } else if !market_cap_reached {
            Err(CustomError::MarketCapNotReached)
        } else {
            match self.spec_vested_amount(now) {
                Ok(vested) => Ok(
                    if vested > self.released_amount {
                        (vested - self.released_amount) as u64
                    } else {
                        0
                    },
                ),
                Err(e) => Err(e),
            }
        }
    }

    /// The milestones after a successful claim at `now`: in a milestone
    /// schedule past its cliff, those whose time has come are marked.
    pub open spec fn milestones_after_claim(&self, now: i64) -> Seq<VestingMilestone> {
        if self.schedule_type == VestingScheduleType::CustomMilestone && self.past_cliff(now) {
            marked(self.milestones@, now)
        } else {
            self.milestones@
        }
    }
}


/// Adding one more milestone to a prefix adds its percentage to the sum.
pub proof fn lemma_percentage_sum_step(milestones: Seq<VestingMilestone>, i: int)
    requires
        0 <= i < milestones.len(),
    ensures
        percentage_sum(milestones.take(i + 1)) == percentage_sum(milestones.take(i))
            + milestones[i].unlock_percentage,
{
    assert(milestones.take(i + 1).drop_last() =~= milestones.take(i));
}

/// A prefix's percentages add up to no more than the whole sequence's.
pub proof fn lemma_percentage_sum_prefix(milestones: Seq<VestingMilestone>, i: int)
    requires
        0 <= i <= milestones.len(),
    ensures
        percentage_sum(milestones.take(i)) <= percentage_sum(milestones),
    decreases milestones.len(),
{
    if i == milestones.len() {
        assert(milestones.take(i) =~= milestones);
    } else {
        lemma_percentage_sum_prefix(milestones.drop_last(), i);
        assert(milestones.drop_last().take(i) =~= milestones.take(i));
    }
}

/// Adding one more milestone to a prefix adds its share where it counts.
pub proof fn lemma_unlocked_sum_step(
    total: u64,
    milestones: Seq<VestingMilestone>,
    now: i64,
    i: int,
)
    requires
        0 <= i < milestones.len(),
    ensures
        unlocked_sum(total, milestones.take(i + 1), now) == unlocked_sum(
            total,
            milestones.take(i),
            now,
        ) + if counts(milestones[i], now) {
            milestone_share(total, milestones[i])
        } else {
            0
        },
{
    assert(milestones.take(i + 1).drop_last() =~= milestones.take(i));
}

/// Marking milestones as claimed changes no percentage.
pub proof fn lemma_marked_keeps_percentages(milestones: Seq<VestingMilestone>, now: i64)
    ensures
        percentage_sum(marked(milestones, now)) == percentage_sum(milestones),
    decreases milestones.len(),
{
    if milestones.len() > 0 {
        lemma_marked_keeps_percentages(milestones.drop_last(), now);
        assert(marked(milestones, now).drop_last() =~= marked(milestones.drop_last(), now));
    }
}

/// Whether the percentages add up to exactly 100.
fn percentages_are_whole(milestones: &Vec<VestingMilestone>) -> (r: bool)
    ensures
        r == (percentage_sum(milestones@) == 100),
{
    let n: usize = milestones.len();
    let mut i: usize = 0;
    let mut sum: u32 = 0;
    while i < n
        invariant
            i <= n,
            n == milestones@.len(),
            sum == percentage_sum(milestones@.take(i as int)),
            sum <= 100,
        decreases n - i,
    {
        proof {
            lemma_percentage_sum_step(milestones@, i as int);
            lemma_percentage_sum_prefix(milestones@, i + 1);
        }
        sum = sum + milestones[i].unlock_percentage as u32;
        if sum > 100 {
            return false;
        }
        i = i + 1;
    }
    proof {
        assert(milestones@.take(n as int) =~= milestones@);
    }
    sum == 100
}

/// Marks every milestone whose time has come as claimed.
fn mark_claimed(milestones: &mut Vec<VestingMilestone>, now: i64)
    ensures
        final(milestones)@ == marked(old(milestones)@, now),
{
    let n: usize = milestones.len();
    let mut i: usize = 0;
    while i < n
        invariant
            i <= n,
            n == milestones@.len(),
            n == old(milestones)@.len(),
            forall|j: int| 0 <= j < i ==> milestones@[j] == marked(old(milestones)@, now)[j],
            forall|j: int| i <= j < n ==> milestones@[j] == old(milestones)@[j],
        decreases n - i,
    {
        let m: VestingMilestone = milestones[i];
        if m.unlock_time <= now {
            milestones.set(
                i,
                VestingMilestone {
                    unlock_time: m.unlock_time,
                    unlock_percentage: m.unlock_percentage,
                    is_claimed: true,
                },
            );
        }
        i = i + 1;
    }
    proof {
        assert(milestones@ =~= marked(old(milestones)@, now));
    }
}

impl VestingSchedule {
    /// Creates a grant with nothing released. The period must have a positive
    /// length, the cliff must not be negative and the entitlement must be
    /// positive; a milestone schedule needs milestones whose percentages add
    /// up to exactly 100.
    pub fn initialize(
        schedule_type: VestingScheduleType,
        start_time: i64,
        end_time: i64,
        cliff_duration: i64,
        total_amount: u64,
        milestones: Vec<VestingMilestone>,
    ) -> (r: Result<VestingSchedule, CustomError>)
        ensures
            r == Self::spec_initialize(
                schedule_type,
                start_time,
                end_time,
                cliff_duration,
                total_amount,
                milestones,
            ),
            r.is_ok() ==> r.unwrap().wf(),
    {
        if !(end_time > start_time) || cliff_duration < 0 {
            return Err(CustomError::InvalidTimeParameters);
        }
        if total_amount == 0 {
            return Err(CustomError::InvalidAmount);
        }
        match schedule_type {
            VestingScheduleType::CustomMilestone => {
                if milestones.len() == 0 || !percentages_are_whole(&milestones) {
                    return Err(CustomError::InvalidMilestone);
                }
            },
            _ => {},
        }
        Ok(
            VestingSchedule {
                schedule_type,
                start_time,
                end_time,
                cliff_duration,
                total_amount,
                released_amount: 0,
                milestones,
            },
        )
    }

    /// What `initialize` returns: the first requirement that fails decides
    /// the error.
    pub open spec fn spec_initialize(
        schedule_type: VestingScheduleType,
        start_time: i64,
        end_time: i64,
        cliff_duration: i64,
        total_amount: u64,
        milestones: Vec<VestingMilestone>,
    ) -> Result<VestingSchedule, CustomError> {
        if end_time <= start_time || cliff_duration < 0 {
            Err(CustomError::InvalidTimeParameters)
        } else if total_amount == 0 {
            Err(CustomError::InvalidAmount)
        } else if schedule_type == VestingScheduleType::CustomMilestone && (milestones@.len() == 0
            || percentage_sum(milestones@) != 100) {
            Err(CustomError::InvalidMilestone)
        } else {
            Ok(
                VestingSchedule {
                    schedule_type,
                    start_time,
                    end_time,
                    cliff_duration,
                    total_amount,
                    released_amount: 0,
                    milestones,
                },
            )
        }
    }

    /// Whether the schedule satisfies what every schedule must.
    pub fn is_valid(&self) -> (r: bool)
        ensures
            r == self.wf(),
    {
        let shaped: bool = self.end_time > self.start_time && self.cliff_duration >= 0
            && self.total_amount > 0 && self.released_amount <= self.total_amount;
        match self.schedule_type {
            VestingScheduleType::CustomMilestone => shaped && self.milestones.len() > 0
                && percentages_are_whole(&self.milestones),
            _ => shaped,
        }
    }

    /// The amount earned at `now`. Nothing is changed.
    pub fn vested_amount(&self, now: i64) -> (r: Result<u64, CustomError>)
        requires
            self.wf(),
        ensures
            r == self.spec_vested_amount(now),
            r.is_ok() ==> r.unwrap() <= self.total_amount,
    {
        if (now as i128) < self.start_time as i128 + self.cliff_duration as i128 {
            return Ok(0);
        }
        match self.schedule_type {
            VestingScheduleType::Linear => Ok(self.calculate_linear_vesting(now)),
            VestingScheduleType::Cliff => Ok(self.calculate_cliff_vesting(now)),
            VestingScheduleType::Staggered => self.calculate_staggered_vesting(now),
            VestingScheduleType::CustomMilestone => Ok(self.calculate_milestone_vesting(now)),
        }
    }

    fn calculate_linear_vesting(&self, now: i64) -> (r: u64)
        requires
            self.wf(),
            self.past_cliff(now),
        ensures
            r == self.linear_vested(now),
            r <= self.total_amount,
    {
        if now >= self.end_time {
            return self.total_amount;
        }
        let total_duration: u64 = (self.end_time as i128 - self.start_time as i128) as u64;
        let elapsed_time: u64 = (now as i128 - self.start_time as i128) as u64;
        proof {
            lemma_product_fits(self.total_amount, elapsed_time);
            lemma_fraction_bounds(
                self.total_amount as int,
                elapsed_time as int,
                total_duration as int,
            );
        }
        let vested: u128 = (self.total_amount as u128 * elapsed_time as u128)
            / total_duration as u128;
        vested as u64
    }

    fn calculate_cliff_vesting(&self, now: i64) -> (r: u64)
        ensures
            r == self.cliff_vested(now),
            r <= self.total_amount,
    {
        if now >= self.end_time {
            self.total_amount
        } else {
            0
        }
    }

    fn calculate_staggered_vesting(&self, now: i64) -> (r: Result<u64, CustomError>)
        requires
            self.wf(),
            self.past_cliff(now),
        ensures
            self.stage_duration() == 0 ==> r == Err::<u64, CustomError>(
                CustomError::CalculationError,
            ),
            self.stage_duration() != 0 ==> r.is_ok() && r.unwrap() == self.staggered_vested(now)
                && r.unwrap() <= self.total_amount,
    {
        let total_duration: u64 = (self.end_time as i128 - self.start_time as i128) as u64;
        let stage_duration: u64 = total_duration / STAGES;
        if stage_duration == 0 {
            return Err(CustomError::CalculationError);
        }
        let elapsed_time: u64 = (now as i128 - self.start_time as i128) as u64;
        let current_stage: u64 = elapsed_time / stage_duration;
        let reached: u64 = if current_stage <= STAGES {
            current_stage
        } else {
            STAGES
        };
        let stage_amount: u64 = self.total_amount / STAGES;
        proof {
            assert(stage_amount * reached <= stage_amount * 4) by (nonlinear_arith)
                requires
                    0 <= reached <= 4,
                    0 <= stage_amount,
            ;
        }
        Ok(stage_amount * reached)
    }

    fn calculate_milestone_vesting(&self, now: i64) -> (r: u64)
        ensures
            r == clamp(
                unlocked_sum(self.total_amount, self.milestones@, now) as int,
                self.total_amount,
            ),
    {
        let n: usize = self.milestones.len();
        let mut i: usize = 0;
        let mut vested: u64 = 0;
        while i < n
            invariant
                i <= n,
                n == self.milestones@.len(),
                vested == clamp(
                    unlocked_sum(self.total_amount, self.milestones@.take(i as int), now) as int,
                    self.total_amount,
                ),
            decreases n - i,
        {
            let m: VestingMilestone = self.milestones[i];
            proof {
                lemma_unlocked_sum_step(self.total_amount, self.milestones@, now, i as int);
            }
            if now >= m.unlock_time && !m.is_claimed {
                proof {
                    lemma_product_fits(self.total_amount, m.unlock_percentage as u64);
                }
                let share: u128 = (self.total_amount as u128 * m.unlock_percentage as u128) / 100;
                let sum: u128 = vested as u128 + share;
                vested = if sum <= self.total_amount as u128 {
                    sum as u64
                } else {
                    self.total_amount
                };
            }
            i = i + 1;
        }
        proof {
            assert(self.milestones@.take(n as int) =~= self.milestones@);
        }
        vested
    }

    /// Releases what has been earned at `now` beyond what was released
    /// before, and returns that amount. The two conditions come from outside:
    /// whether the vesting period has ended and whether the market
    /// capitalisation has reached its target. Where less has been earned than
    /// released, nothing is released. A failed claim changes nothing.
    pub fn claim(&mut self, now: i64, period_ended: bool, market_cap_reached: bool) -> (r: Result<
        u64,
        CustomError,
    >)
        requires
            old(self).wf(),
        ensures
            final(self).wf(),
            final(self).released_amount >= old(self).released_amount,
            match old(self).spec_claim(now, period_ended, market_cap_reached) {
                Ok(delta) => {
                    &&& r == Ok::<u64, CustomError>(delta)
                    &&& final(self).released_amount == old(self).released_amount + delta
                    &&& final(self).milestones@ == old(self).milestones_after_claim(now)
                    &&& final(self).schedule_type == old(self).schedule_type
                    &&& final(self).start_time == old(self).start_time
                    &&& final(self).end_time == old(self).end_time
                    &&& final(self).cliff_duration == old(self).cliff_duration
                    &&& final(self).total_amount == old(self).total_amount
                },
                Err(e) => r == Err::<u64, CustomError>(e) && *final(self) == *old(self),
            },
    {
        if self.released_amount == self.total_amount {
            return Err(CustomError::TokensAlreadyUnlocked);
        }
        if !period_ended {
            return Err(CustomError::VestingPeriodNotEnded);
        }
        if !market_cap_reached {
            return Err(CustomError::MarketCapNotReached);
        }
        let vested: u64 = self.vested_amount(now)?;
        let delta: u64 = if vested > self.released_amount {
            vested - self.released_amount
        } else {
            0
        };
        let past_cliff: bool = now as i128 >= self.start_time as i128 + self.cliff_duration as i128;
        self.released_amount = self.released_amount + delta;
        match self.schedule_type {
            VestingScheduleType::CustomMilestone => {
                if past_cliff {
                    proof {
                        lemma_marked_keeps_percentages(self.milestones@, now);
                    }
                    mark_claimed(&mut self.milestones, now);
                }
            },
            _ => {},
        }
        Ok(delta)
    }

    /// A claim for a beneficiary: what `claim` does, with the record of the
    /// release in place of the bare amount.
    pub fn claim_for(
        &mut self,
        beneficiary: Address,
        now: i64,
        period_ended: bool,
        market_cap_reached: bool,
    ) -> (r: Result<TokensReleased, CustomError>)
        requires
            old(self).wf(),
        ensures
            final(self).wf(),
            final(self).released_amount >= old(self).released_amount,
            match old(self).spec_claim(now, period_ended, market_cap_reached) {
                Ok(delta) => {
                    &&& r == Ok::<TokensReleased, CustomError>(
                        TokensReleased { beneficiary, amount: delta, timestamp: now },
                    )
                    &&& final(self).released_amount == old(self).released_amount + delta
                    &&& final(self).milestones@ == old(self).milestones_after_claim(now)
                    &&& final(self).schedule_type == old(self).schedule_type
                    &&& final(self).start_time == old(self).start_time
                    &&& final(self).end_time == old(self).end_time
                    &&& final(self).cliff_duration == old(self).cliff_duration
                    &&& final(self).total_amount == old(self).total_amount
                },
                Err(e) => r == Err::<TokensReleased, CustomError>(e) && *final(self) == *old(self),
            },
    {
        let amount: u64 = self.claim(now, period_ended, market_cap_reached)?;
        Ok(TokensReleased { beneficiary, amount, timestamp: now })
    }
}


/// What the rounding of the shares leaves over: the remainders of
/// `total · percentage / 100` over all milestones, added up.
pub open spec fn remainder_sum(total: u64, milestones: Seq<VestingMilestone>) -> nat
    decreases milestones.len(),
{
    if milestones.len() == 0 {
        0
    } else {
        remainder_sum(total, milestones.drop_last()) + ((total
            * milestones.last().unlock_percentage) % 100) as nat
    }
}

/// Later, no less is unlocked: a milestone that counts keeps counting while
/// it is unclaimed.
pub proof fn lemma_unlocked_sum_monotonic(
    total: u64,
    milestones: Seq<VestingMilestone>,
    earlier: i64,
    later: i64,
)
    requires
        earlier <= later,
    ensures
        unlocked_sum(total, milestones, earlier) <= unlocked_sum(total, milestones, later),
    decreases milestones.len(),
{
    if milestones.len() > 0 {
        lemma_unlocked_sum_monotonic(total, milestones.drop_last(), earlier, later);
    }
}

/// Where every milestone counts, the shares and their remainders together
/// make up `total · (sum of percentages) / 100` exactly.
pub proof fn lemma_shares_and_remainders(total: u64, milestones: Seq<VestingMilestone>, now: i64)
    requires
        forall|i: int| 0 <= i < milestones.len() ==> counts(#[trigger] milestones[i], now),
    ensures
        100 * unlocked_sum(total, milestones, now) + remainder_sum(total, milestones) == total
            * percentage_sum(milestones),
    decreases milestones.len(),
{
    if milestones.len() > 0 {
        let init = milestones.drop_last();
        let p = milestones.last().unlock_percentage as int;
        assert forall|i: int| 0 <= i < init.len() implies counts(#[trigger] init[i], now) by {
            assert(init[i] == milestones[i]);
        }
        lemma_shares_and_remainders(total, init, now);
        assert(total * (percentage_sum(init) + p) == total * percentage_sum(init) + total * p)
            by (nonlinear_arith);
        assert(counts(milestones[milestones.len() - 1], now));
    } else {
        assert(total * 0 == 0);
    }
}

/// The remainders add up to zero exactly where each of them is zero.
pub proof fn lemma_remainder_sum_zero(total: u64, milestones: Seq<VestingMilestone>)
    ensures
        remainder_sum(total, milestones) == 0 <==> forall|i: int|
            0 <= i < milestones.len() ==> (total * (#[trigger] milestones[i]).unlock_percentage)
                % 100 == 0,
    decreases milestones.len(),
{
    if milestones.len() > 0 {
        let init = milestones.drop_last();
        lemma_remainder_sum_zero(total, init);
        if remainder_sum(total, milestones) == 0 {
            assert forall|i: int| 0 <= i < milestones.len() implies (total
                * (#[trigger] milestones[i]).unlock_percentage) % 100 == 0 by {
                if i < init.len() {
                    assert(init[i] == milestones[i]);
                }
            }
        }
        if forall|i: int|
            0 <= i < milestones.len() ==> (total * (#[trigger] milestones[i]).unlock_percentage)
                % 100 == 0 {
            assert forall|i: int| 0 <= i < init.len() implies (total
                * (#[trigger] init[i]).unlock_percentage) % 100 == 0 by {
                assert(init[i] == milestones[i]);
            }
        }
    }
}

/// The amount earned never goes down as time passes, under every policy,
/// while the schedule itself is unchanged.
pub proof fn lemma_vested_amount_monotonic(s: VestingSchedule, earlier: i64, later: i64)
    requires
        s.wf(),
        earlier <= later,
        s.spec_vested_amount(earlier).is_ok(),
        s.spec_vested_amount(later).is_ok(),
    ensures
        s.spec_vested_amount(earlier).unwrap() <= s.spec_vested_amount(later).unwrap(),
{
    if s.past_cliff(earlier) {
        let total = s.total_amount as int;
        let first = earlier - s.start_time;
        let second = later - s.start_time;
        match s.schedule_type {
            VestingScheduleType::Linear => {
                let duration = s.end_time - s.start_time;
                if earlier < s.end_time {
                    lemma_fraction_bounds(total, first, duration);
                }
                if later < s.end_time {
                    lemma_fraction_bounds(total, second, duration);
                    assert(total * first <= total * second) by (nonlinear_arith)
                        requires
                            0 <= total,
                            first <= second,
                    ;
                    lemma_quotient_monotonic(total * first, total * second, duration);
                }
            },
            VestingScheduleType::Cliff => {},
            VestingScheduleType::Staggered => {
                let stage = s.stage_duration();
                lemma_quotient_monotonic(first, second, stage);
                lemma_quotient_monotonic(0, first, stage);
                let quarter = total / 4;
                let a = s.stages_reached(earlier);
                let b = s.stages_reached(later);
                assert(0 <= quarter * a <= quarter * b <= quarter * 4) by (nonlinear_arith)
                    requires
                        0 <= quarter,
                        0 <= a <= b <= 4,
                ;
            },
            VestingScheduleType::CustomMilestone => {
                lemma_unlocked_sum_monotonic(s.total_amount, s.milestones@, earlier, later);
            },
        }
    }
}

/// Before the cliff nothing has been earned, under every policy.
pub proof fn lemma_nothing_before_cliff(s: VestingSchedule, now: i64)
    requires
        s.wf(),
        now < s.start_time + s.cliff_duration,
    ensures
        s.spec_vested_amount(now) == Ok::<u64, CustomError>(0),
{
}

/// At the cliff itself a linear schedule has earned the cliff's share of the
/// period, rounded down, while the cliff lies before the end.
pub proof fn lemma_linear_at_cliff(s: VestingSchedule, now: i64)
    requires
        s.wf(),
        s.schedule_type == VestingScheduleType::Linear,
        now == s.start_time + s.cliff_duration,
        now < s.end_time,
    ensures
        s.spec_vested_amount(now) == Ok::<u64, CustomError>(
            ((s.total_amount * s.cliff_duration) / (s.end_time - s.start_time)) as u64,
        ),
{
    lemma_fraction_bounds(
        s.total_amount as int,
        s.cliff_duration as int,
        s.end_time - s.start_time,
    );
}

/// A linear schedule has earned nothing at its start where it has no cliff.
pub proof fn lemma_linear_nothing_at_start(s: VestingSchedule)
    requires
        s.wf(),
        s.schedule_type == VestingScheduleType::Linear,
        s.cliff_duration == 0,
    ensures
        s.spec_vested_amount(s.start_time) == Ok::<u64, CustomError>(0),
{
    assert(s.total_amount * (s.start_time - s.start_time) == 0) by (nonlinear_arith);
    assert(0int / (s.end_time - s.start_time) == 0) by (nonlinear_arith)
        requires
            s.end_time - s.start_time > 0,
    ;
}

/// A linear schedule has earned everything at its end, provided the cliff
/// lies within the period.
pub proof fn lemma_linear_everything_at_end(s: VestingSchedule)
    requires
        s.wf(),
        s.schedule_type == VestingScheduleType::Linear,
        s.start_time + s.cliff_duration <= s.end_time,
    ensures
        s.spec_vested_amount(s.end_time) == Ok::<u64, CustomError>(s.total_amount),
{
}

/// Once every milestone of a milestone schedule has come and none has been
/// claimed, the amount earned is the whole entitlement exactly where no share
/// loses anything to rounding; otherwise it is less.
pub proof fn lemma_milestones_all_passed(s: VestingSchedule, now: i64)
    requires
        s.wf(),
        s.schedule_type == VestingScheduleType::CustomMilestone,
        s.past_cliff(now),
        forall|i: int| 0 <= i < s.milestones@.len() ==> counts(#[trigger] s.milestones@[i], now),
    ensures
        s.spec_vested_amount(now).is_ok(),
        s.spec_vested_amount(now).unwrap() <= s.total_amount,
        s.spec_vested_amount(now).unwrap() == s.total_amount <==> forall|i: int|
            0 <= i < s.milestones@.len() ==> (s.total_amount
                * (#[trigger] s.milestones@[i]).unlock_percentage) % 100 == 0,
{
    lemma_shares_and_remainders(s.total_amount, s.milestones@, now);
    lemma_remainder_sum_zero(s.total_amount, s.milestones@);
}

} // verus!
