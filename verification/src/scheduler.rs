//! When the next paired operation may start.

use crate::address::Address;
use crate::cooldown::{cooldown_of, determin_sleep_time, ConfigurationError, CooldownRange, RoleTag};
use vstd::prelude::*;

verus! {

/// What the caller has to do before it goes on.
#[derive(Clone, Copy, Debug, PartialEq, Eq, Structural)]
pub enum SleepPlan {
    /// Go on at once: nothing is slept.
    NoWait,
    /// Sleep `sleep_from_now` seconds, which ends at `target_time`.
    SleepUntil { target_time: u64, sleep_from_now: u64 },
}

impl SleepPlan {
    /// The earliest moment at which the caller goes on, when it reads the clock at `now`.
    pub open spec fn resumes_at(self, now: u64) -> int {
        match self {
            SleepPlan::NoWait => now as int,
            SleepPlan::SleepUntil { sleep_from_now, .. } => now + sleep_from_now,
        }
    }
}

/// The plan for a deadline, seen from `now`.
pub open spec fn plan_for(target_time: u64, now: u64) -> SleepPlan {
    if now >= target_time {
        SleepPlan::NoWait
    } else {
        SleepPlan::SleepUntil { target_time, sleep_from_now: (target_time - now) as u64 }
    }
}

/// Why no plan can be made.
#[derive(Clone, Copy, Debug, PartialEq, Eq, Structural)]
pub enum SchedulerError {
    /// The cooldown window cannot be worked with.
    Configuration(ConfigurationError),
    /// The deadline `last_time + cooldown` lies beyond every 64-bit timestamp.
    DeadlineOutOfRange { last_time: u64, cooldown: u64 },
}

/// The plan after the counterparty's last opposite event, if there was one,
/// with the cooldown that belongs to it.
pub open spec fn plan_after(last_event: Option<u64>, cooldown: u64, now: u64) -> Result<
    SleepPlan,
    SchedulerError,
> {
    match last_event {
        None => Ok(SleepPlan::NoWait),
        Some(last_time) => if last_time + cooldown <= u64::MAX {
            Ok(plan_for((last_time + cooldown) as u64, now))
        } else {
            Err(SchedulerError::DeadlineOutOfRange { last_time, cooldown })
        },
    }
}

/// Decides between going on and sleeping until `target_time`.
pub fn sleep_if_needed(target_time: u64, now: u64) -> (plan: SleepPlan)
    ensures
        plan == plan_for(target_time, now),
        now >= target_time ==> plan == SleepPlan::NoWait,
        now < target_time ==> plan == (SleepPlan::SleepUntil {
            target_time,
            sleep_from_now: (target_time - now) as u64,
        }),
        plan.resumes_at(now) >= target_time,
{
    if now >= target_time {
        SleepPlan::NoWait
    } else {
        SleepPlan::SleepUntil { target_time, sleep_from_now: target_time - now }
    }
}

/// Decides the wait once the cooldown is known.
pub fn sleep_after(last_event: Option<u64>, cooldown: u64, now: u64) -> (res: Result<
    SleepPlan,
    SchedulerError,
>)
    ensures
        res == plan_after(last_event, cooldown, now),
        last_event is None ==> res == Ok::<SleepPlan, SchedulerError>(SleepPlan::NoWait),
        match (res, last_event) {
            (Ok(plan), Some(last_time)) => plan.resumes_at(now) >= last_time + cooldown,
            _ => true,
        },
{
    match last_event {
        None => Ok(SleepPlan::NoWait),
        Some(last_time) => {
            if cooldown > u64::MAX - last_time {
                Err(SchedulerError::DeadlineOutOfRange { last_time, cooldown })
            } else {
                Ok(sleep_if_needed(last_time + cooldown, now))
            }
        },
    }
}

/// What is owed for an event time, an address, a role and a window, seen
/// from `now`: nothing to wait for without an event; with one, the error
/// of an empty window, or else the plan for the event's cooldown.
pub open spec fn wait_of(
    last_event: Option<u64>,
    address: Seq<u8>,
    role: RoleTag,
    range: CooldownRange,
    now: u64,
) -> Result<SleepPlan, SchedulerError> {
    match last_event {
        None => Ok(SleepPlan::NoWait),
        Some(last_time) => if range.valid() {
            plan_after(last_event, cooldown_of(last_time, address, role, range), now)
        } else {
            Err(
                SchedulerError::Configuration(
                    ConfigurationError::EmptyCooldownRange { min: range.min, max: range.max },
                ),
            )
        },
    }
}

/// What holds of a plan made for an event at `last_time`: it ends inside
/// the window after the event, sleeps nothing once the deadline is
/// reached, and a sleep ends exactly at the deadline.
pub open spec fn plan_respects(plan: SleepPlan, last_time: u64, range: CooldownRange, now: u64) -> bool {
    &&& last_time + range.min <= plan.resumes_at(now)
    &&& now >= last_time + range.max ==> plan == SleepPlan::NoWait
    &&& plan matches SleepPlan::SleepUntil { target_time, sleep_from_now } ==> {
        &&& now < target_time
        &&& now + sleep_from_now == target_time
        &&& last_time + range.min <= target_time < last_time + range.max
    }
}

fn sleep_before(
    last_event: Option<u64>,
    address: &Address,
    role: RoleTag,
    range: CooldownRange,
    now: u64,
) -> (res: Result<SleepPlan, SchedulerError>)
    ensures
        res == wait_of(last_event, address@, role, range, now),
        last_event is None ==> res == Ok::<SleepPlan, SchedulerError>(SleepPlan::NoWait),
        match (res, last_event) {
            (Ok(plan), Some(last_time)) => plan_respects(plan, last_time, range, now),
            _ => true,
        },
{
    match last_event {
        None => Ok(SleepPlan::NoWait),
        Some(last_time) => {
            match determin_sleep_time(last_time, address, role, range) {
                Err(e) => Err(SchedulerError::Configuration(e)),
                Ok(cooldown) => sleep_after(last_event, cooldown, now),
            }
        },
    }
}

/// The wait before a deposit, from the last withdrawal of `withdrawal_address`.
///
/// Without an earlier withdrawal nothing is slept. Otherwise the deadline is
/// the withdrawal's time plus its cooldown: at or after it nothing is slept,
/// before it the plan ends exactly there. A deadline that is no timestamp
/// is an error.
pub fn sleep_before_deposit(
    last_withdrawal_time: Option<u64>,
    withdrawal_address: &Address,
    range: CooldownRange,
    now: u64,
) -> (res: Result<SleepPlan, SchedulerError>)
    ensures
        res == wait_of(last_withdrawal_time, withdrawal_address@, RoleTag::Deposit, range, now),
        last_withdrawal_time is None ==> res == Ok::<SleepPlan, SchedulerError>(SleepPlan::NoWait),
        match (res, last_withdrawal_time) {
            (Ok(plan), Some(last_time)) => plan_respects(plan, last_time, range, now),
            _ => true,
        },
{
    sleep_before(last_withdrawal_time, withdrawal_address, RoleTag::Deposit, range, now)
}

/// The wait before a withdrawal, from the last deposit of `deposit_address`.
///
/// Without an earlier deposit nothing is slept. Otherwise the deadline is
/// the deposit's time plus its cooldown: at or after it nothing is slept,
/// before it the plan ends exactly there. A deadline that is no timestamp
/// is an error.
pub fn sleep_before_withdrawal(
    last_deposit_time: Option<u64>,
    deposit_address: &Address,
    range: CooldownRange,
    now: u64,
) -> (res: Result<SleepPlan, SchedulerError>)
    ensures
        res == wait_of(last_deposit_time, deposit_address@, RoleTag::Withdrawal, range, now),
        last_deposit_time is None ==> res == Ok::<SleepPlan, SchedulerError>(SleepPlan::NoWait),
        match (res, last_deposit_time) {
            (Ok(plan), Some(last_time)) => plan_respects(plan, last_time, range, now),
            _ => true,
        },
{
    sleep_before(last_deposit_time, deposit_address, RoleTag::Withdrawal, range, now)
}

/// Without an earlier event the plan is to go on at once, whatever the
/// address, the role, the window and the clock.
pub proof fn lemma_no_history_no_wait(address: Seq<u8>, role: RoleTag, range: CooldownRange, now: u64)
    ensures
        wait_of(None, address, role, range, now) == Ok::<SleepPlan, SchedulerError>(SleepPlan::NoWait),
{
}

/// At or after the deadline the plan is to go on at once.
pub proof fn lemma_past_deadline_no_wait(
    last_time: u64,
    address: Seq<u8>,
    role: RoleTag,
    range: CooldownRange,
    now: u64,
)
    requires
        range.valid(),
        now >= last_time + cooldown_of(last_time, address, role, range),
    ensures
        wait_of(Some(last_time), address, role, range, now) == Ok::<SleepPlan, SchedulerError>(
            SleepPlan::NoWait,
        ),
{
}

/// Before a deadline that is a timestamp the plan is a sleep that ends
/// exactly at the deadline, so the caller goes on no earlier than that.
pub proof fn lemma_future_deadline_waits(
    last_time: u64,
    address: Seq<u8>,
    role: RoleTag,
    range: CooldownRange,
    now: u64,
)
    requires
        range.valid(),
        last_time + cooldown_of(last_time, address, role, range) <= u64::MAX,
        now < last_time + cooldown_of(last_time, address, role, range),
    ensures
        wait_of(Some(last_time), address, role, range, now) == Ok::<SleepPlan, SchedulerError>(
            SleepPlan::SleepUntil {
                target_time: (last_time + cooldown_of(last_time, address, role, range)) as u64,
                sleep_from_now: (last_time + cooldown_of(last_time, address, role, range) - now) as u64,
            },
        ),
        wait_of(Some(last_time), address, role, range, now).unwrap().resumes_at(now) == last_time
            + cooldown_of(last_time, address, role, range),
{
}

/// A deadline beyond every timestamp gives no plan: the wait is never skipped.
pub proof fn lemma_deadline_out_of_range(last_time: u64, cooldown: u64, now: u64)
    requires
        last_time + cooldown > u64::MAX,
    ensures
        plan_after(Some(last_time), cooldown, now) == Err::<SleepPlan, SchedulerError>(
            SchedulerError::DeadlineOutOfRange { last_time, cooldown },
        ),
{
}

} // verus!
