use vstd::prelude::*;
use vstd::arithmetic::div_mod::{lemma_div_is_ordered, lemma_div_pos_is_pos, lemma_multiply_divide_le};
use vstd::arithmetic::mul::{
    lemma_mul_inequality, lemma_mul_is_commutative, lemma_mul_nonnegative, lemma_mul_upper_bound,
};

use crate::error::ErrorCode;
use crate::key::AccountKey;

verus! {

/// A linear unlock with a cliff over a locked allocation of `total_amount`
/// tokens: nothing before `cliff_time`, everything from `end_time`, and in
/// between the share of `[start_time, end_time)` that has elapsed.
#[derive(Clone, Copy, Debug, PartialEq, Eq, Structural)]
pub struct VestingSchedule {
    pub beneficiary: AccountKey,
    pub mint: AccountKey,
    pub total_amount: u64,
    pub claimed_amount: u64,
    pub start_time: i64,
    pub cliff_time: i64,
    pub end_time: i64,
    pub release_interval: i64,
    pub last_claim_time: i64,
    pub bump: u8,
}

/// Record of tokens released to a beneficiary.
#[derive(Clone, Copy, Debug, PartialEq, Eq, Structural)]
pub struct VestingClaimEvent {
    pub beneficiary: AccountKey,
    pub mint: AccountKey,
    pub amount_claimed: u64,
    pub total_claimed: u64,
    pub timestamp: i64,
}

impl VestingSchedule {
    /// Account space: discriminator, two keys, two amounts, five times, bump.
    pub const MAX_SIZE: usize = 8 + 32 + 32 + 8 + 8 + 8 + 8 + 8 + 8 + 8 + 1;

    /// Never more claimed than allocated; the schedule ends after it starts
    /// and after its cliff.
    pub open spec fn wf(&self) -> bool {
        &&& self.claimed_amount <= self.total_amount
        &&& self.start_time < self.end_time
        &&& self.cliff_time < self.end_time
    }
}

/// Tokens unlocked at `now`. Before the start (a cliff may precede it) the
/// elapsed share is zero.
pub open spec fn unlocked_amount(s: VestingSchedule, now: int) -> int {
    if now < s.cliff_time {
        0
    } else if now >= s.end_time {
        s.total_amount as int
    } else if now <= s.start_time {
        0
    } else {
        s.total_amount * (now - s.start_time) / (s.end_time - s.start_time)
    }
}

/// The refusal, if any, of a claim at `now`, in the order the checks are made.
pub open spec fn claim_error(
    s: VestingSchedule,
    beneficiary: AccountKey,
    mint: AccountKey,
    now: int,
) -> Option<ErrorCode> {
    if beneficiary != s.beneficiary {
        Some(ErrorCode::Unauthorized)
    } else if mint != s.mint {
        Some(ErrorCode::InvalidMint)
    } else if now < s.cliff_time {
        Some(ErrorCode::CliffNotReached)
    } else if unlocked_amount(s, now) <= s.claimed_amount {
        Some(ErrorCode::NoTokensToClaim)
    } else {
        None
    }
}

/// The schedule after a claim at `now`: everything unlocked counts as claimed.
pub open spec fn after_claim(s: VestingSchedule, now: i64) -> VestingSchedule {
    VestingSchedule {
        claimed_amount: unlocked_amount(s, now as int) as u64,
        last_claim_time: now,
        ..s
    }
}

/// What a read-only preview reports as claimable at `now`.
pub open spec fn claimable_preview(s: VestingSchedule, now: int) -> int {
    if now < s.cliff_time || unlocked_amount(s, now) <= s.claimed_amount {
        0
    } else {
        unlocked_amount(s, now) - s.claimed_amount
    }
}

/// The unlocked amount never exceeds the allocation.
pub proof fn lemma_unlocked_bounds(s: VestingSchedule, now: int)
    requires
        s.wf(),
    ensures
        0 <= unlocked_amount(s, now) <= s.total_amount,
{
    if s.cliff_time <= now < s.end_time && s.start_time < now {
        let elapsed = now - s.start_time;
        let duration = s.end_time - s.start_time;
        lemma_mul_nonnegative(s.total_amount as int, elapsed);
        lemma_div_pos_is_pos(s.total_amount * elapsed, duration);
        lemma_mul_inequality(elapsed, duration, s.total_amount as int);
        lemma_mul_is_commutative(elapsed, s.total_amount as int);
        lemma_mul_is_commutative(duration, s.total_amount as int);
        lemma_multiply_divide_le(s.total_amount * elapsed, duration, s.total_amount as int);
    }
}

/// Creates a schedule over `total_amount` tokens already held in escrow:
/// the cliff ends `cliff_duration` after `start_time`, vesting
/// `vesting_duration` after it.
pub fn initialize_vesting(
    beneficiary: AccountKey,
    mint: AccountKey,
    total_amount: u64,
    start_time: i64,
    cliff_duration: i64,
    vesting_duration: i64,
    release_interval: i64,
    bump: u8,
) -> (r: Result<VestingSchedule, ErrorCode>)
    ensures
        total_amount == 0 ==> r == Err::<VestingSchedule, ErrorCode>(ErrorCode::InvalidAmount),
        total_amount > 0 && vesting_duration <= 0 ==> r == Err::<VestingSchedule, ErrorCode>(
            ErrorCode::InvalidVestingDuration,
        ),
        total_amount > 0 && vesting_duration > 0 && cliff_duration >= vesting_duration ==> r
            == Err::<VestingSchedule, ErrorCode>(ErrorCode::InvalidCliffDuration),
        total_amount > 0 && 0 < vesting_duration && cliff_duration < vesting_duration && (
        start_time + vesting_duration > i64::MAX || start_time + cliff_duration < i64::MIN) ==> r
            == Err::<VestingSchedule, ErrorCode>(ErrorCode::ArithmeticOverflow),
        total_amount > 0 && 0 < vesting_duration && cliff_duration < vesting_duration
            && start_time + vesting_duration <= i64::MAX && start_time + cliff_duration
            >= i64::MIN ==> r == Ok::<VestingSchedule, ErrorCode>(
            VestingSchedule {
                beneficiary,
                mint,
                total_amount,
                claimed_amount: 0,
                start_time,
                cliff_time: (start_time + cliff_duration) as i64,
                end_time: (start_time + vesting_duration) as i64,
                release_interval,
                last_claim_time: start_time,
                bump,
            },
        ),
        r matches Ok(s) ==> s.wf(),
{
    if total_amount == 0 {
        return Err(ErrorCode::InvalidAmount);
    }
    if vesting_duration <= 0 {
        return Err(ErrorCode::InvalidVestingDuration);
    }
    if cliff_duration >= vesting_duration {
        return Err(ErrorCode::InvalidCliffDuration);
    }
    let cliff_time = match start_time.checked_add(cliff_duration) {
        Some(t) => t,
        None => return Err(ErrorCode::ArithmeticOverflow),
    };
    let end_time = match start_time.checked_add(vesting_duration) {
        Some(t) => t,
        None => return Err(ErrorCode::ArithmeticOverflow),
    };
    Ok(
        VestingSchedule {
            beneficiary,
            mint,
            total_amount,
            claimed_amount: 0,
            start_time,
            cliff_time,
            end_time,
            release_interval,
            last_claim_time: start_time,
            bump,
        },
    )
}

/// Tokens of `schedule` unlocked at `current_time`.
pub fn calculate_unlocked_amount(schedule: &VestingSchedule, current_time: i64) -> (r: u64)
    requires
        schedule.wf(),
    ensures
        r == unlocked_amount(*schedule, current_time as int),
        r <= schedule.total_amount,
{
    proof {
        lemma_unlocked_bounds(*schedule, current_time as int);
    }
    if current_time < schedule.cliff_time {
        return 0;
    }
    if current_time >= schedule.end_time {
        return schedule.total_amount;
    }
    if current_time <= schedule.start_time {
        return 0;
    }
    let vesting_duration = ((schedule.end_time as i128) - (schedule.start_time as i128)) as u128;
    let elapsed_time = ((current_time as i128) - (schedule.start_time as i128)) as u128;
    proof {
        lemma_mul_upper_bound(
            schedule.total_amount as int,
            u64::MAX as int,
            elapsed_time as int,
            u64::MAX as int,
        );
    }
    let unlocked = (schedule.total_amount as u128) * elapsed_time / vesting_duration;
    unlocked as u64
}

/// Releases to the beneficiary everything unlocked at `now` and not yet
/// claimed. `beneficiary` and `mint` are the caller's accounts, which must
/// be the schedule's own.
pub fn claim_vested_tokens(
    schedule: &mut VestingSchedule,
    beneficiary: AccountKey,
    mint: AccountKey,
    now: i64,
) -> (r: Result<VestingClaimEvent, ErrorCode>)
    requires
        old(schedule).wf(),
    ensures
        final(schedule).wf(),
        match r {
            Ok(event) => {
                &&& claim_error(*old(schedule), beneficiary, mint, now as int) is None
                &&& *final(schedule) == after_claim(*old(schedule), now)
                &&& event == (VestingClaimEvent {
                    beneficiary: old(schedule).beneficiary,
                    mint: old(schedule).mint,
                    amount_claimed: (unlocked_amount(*old(schedule), now as int)
                        - old(schedule).claimed_amount) as u64,
                    total_claimed: final(schedule).claimed_amount,
                    timestamp: now,
                })
            },
            Err(e) => {
                &&& claim_error(*old(schedule), beneficiary, mint, now as int) == Some(e)
                &&& *final(schedule) == *old(schedule)
            },
        },
{
    if beneficiary != schedule.beneficiary {
        return Err(ErrorCode::Unauthorized);
    }
    if mint != schedule.mint {
        return Err(ErrorCode::InvalidMint);
    }
    if now < schedule.cliff_time {
        return Err(ErrorCode::CliffNotReached);
    }
    let unlocked = calculate_unlocked_amount(schedule, now);
    let claimable = match unlocked.checked_sub(schedule.claimed_amount) {
        Some(c) => c,
        None => return Err(ErrorCode::NoTokensToClaim),
    };
    if claimable == 0 {
        return Err(ErrorCode::NoTokensToClaim);
    }
    schedule.claimed_amount = schedule.claimed_amount + claimable;
    schedule.last_claim_time = now;
    Ok(
        VestingClaimEvent {
            beneficiary: schedule.beneficiary,
            mint: schedule.mint,
            amount_claimed: claimable,
            total_claimed: schedule.claimed_amount,
            timestamp: now,
        },
    )
}

/// How much a claim at `now` would release, without changing anything:
/// zero before the cliff, else the unlocked amount not yet claimed, floored
/// at zero.
pub fn get_claimable_amount(schedule: &VestingSchedule, now: i64) -> (r: u64)
    requires
        schedule.wf(),
    ensures
        r == claimable_preview(*schedule, now as int),
{
    if now < schedule.cliff_time {
        return 0;
    }
    let unlocked = calculate_unlocked_amount(schedule, now);
    unlocked.saturating_sub(schedule.claimed_amount)
}

} // verus!
