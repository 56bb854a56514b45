//! Conversion of a CPU percentage into a period/quota pair.
//!
//! The period is fixed at 10 milliseconds. A request of `percent` grants
//! `ceil(period * percent / 100)` of CPU time per period, rounded up so that
//! small percentages are never silently under-granted. Both values are held
//! at microsecond resolution. Writes are last-write-wins: a setting fully
//! replaces the previous one.

use vstd::prelude::*;

verus! {

/// The fixed scheduling period, in milliseconds.
pub const PERIOD_MS: u64 = 10;

/// The fixed scheduling period, in microseconds.
pub const PERIOD_US: u64 = 10_000;

/// The largest percentage the conversion accepts: beyond this the
/// microsecond arithmetic would overflow the machine word.
pub const PERCENT_MAX: u64 = (u64::MAX - 99) / 10_000;

/// The quota, in microseconds, granted for a percentage:
/// `period * percent / 100`, rounded up.
pub open spec fn spec_quota_us(percent: int) -> int {
    (PERIOD_US * percent + 99) / 100
}

/// One period/quota setting as attached to a group. `quota_us` is the
/// granted running time per `period_us` of wall-clock time.
#[derive(Clone, Copy, PartialEq, Eq, Structural, Debug)]
pub struct QuotaSetting {
    pub period_us: u64,
    pub quota_us: u64,
}

/// The setting that a percentage request converts to.
pub open spec fn spec_setting_for(percent: int) -> QuotaSetting {
    QuotaSetting { period_us: PERIOD_US, quota_us: spec_quota_us(percent) as u64 }
}

/// Converts a percentage into the quota it grants, in microseconds.
pub fn quota_us_for(percent: u64) -> (q: u64)
    requires
        percent <= PERCENT_MAX,
    ensures
        q == spec_quota_us(percent as int),
        // rounding is upward: the quota is never less than the exact share
        q * 100 >= PERIOD_US * percent,
        q * 100 < PERIOD_US * percent + 100,
{
    (PERIOD_US * percent + 99) / 100
}

/// Converts a percentage into the full period/quota setting.
pub fn setting_for(percent: u64) -> (s: QuotaSetting)
    requires
        percent <= PERCENT_MAX,
    ensures
        s == spec_setting_for(percent as int),
{
    QuotaSetting { period_us: PERIOD_US, quota_us: quota_us_for(percent) }
}

/// With a period of 10000 microseconds the granted quota is exactly 100
/// microseconds per requested percent: the ceiling never has to round.
pub proof fn lemma_quota_exact(percent: int)
    requires
        0 <= percent,
    ensures
        spec_quota_us(percent) == 100 * percent,
{
    assert(PERIOD_US * percent == 100 * (100 * percent));
    assert((100 * (100 * percent) + 99) / 100 == 100 * percent) by {
        vstd::arithmetic::div_mod::lemma_div_multiples_vanish_fancy(100 * percent, 99, 100);
    }
}

/// Setting a quota and deriving the percentage back from the stored
/// period/quota pair returns the requested percentage exactly: the
/// conversion loses nothing on this period.
pub proof fn lemma_set_then_derive(percent: int)
    requires
        0 <= percent <= PERCENT_MAX,
    ensures
        spec_setting_for(percent).quota_us * 100 / (spec_setting_for(percent).period_us as int)
            == percent,
{
    lemma_quota_exact(percent);
    let s = spec_setting_for(percent);
    assert(s.quota_us == 100 * percent);
    assert((10000 * percent + 0) / 10000 == percent) by {
        vstd::arithmetic::div_mod::lemma_div_multiples_vanish_fancy(percent, 0, 10000);
    }
    assert(s.quota_us * 100 == 10000 * percent);
}

/// A quota write/read failure, surfaced to the control loop as a failed
/// command: the loop stays alive.
pub struct QuotaError {
    /// What the cpu-controller interface reported.
    pub detail: String,
}

/// Converts the percentage and applies the resulting pair to the group's
/// cpu controller, destructively: the previous setting is overwritten, not
/// merged. Returns the applied setting.
pub fn set_cpu_limit(ctrl: &cgroups_rs::fs::cpu::CpuController, percent: u64) -> (r: Result<
    QuotaSetting,
    QuotaError,
>)
    requires
        percent <= PERCENT_MAX,
    ensures
        r matches Ok(s) ==> s == spec_setting_for(percent as int),
{
    let setting = setting_for(percent);
    proof {
        lemma_quota_exact(percent as int);
    }
    match crate::cgfs::cpu_set_quota_period(ctrl, setting.quota_us as i64, setting.period_us) {
        Ok(_) => Ok(setting),
        Err(detail) => Err(QuotaError { detail }),
    }
}

} // verus!
