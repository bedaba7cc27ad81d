//! Splitting a host uptime, counted in seconds, into days, hours,
//! minutes and seconds for display.

use vstd::prelude::*;
use vstd::arithmetic::div_mod::{lemma_fundamental_div_mod, lemma_mod_mod};

verus! {

/// One uptime reading broken into the four displayed components.
pub struct UptimeParts {
    pub days: u64,
    pub hours: u64,
    pub minutes: u64,
    pub seconds: u64,
}

/// Splits a second count the way the Uptime panel displays it:
/// floor division and remainders by 86400, 3600 and 60.
pub fn split_uptime(total: u64) -> (r: UptimeParts)
    ensures
        r.days == total as int / 86400,
        r.hours == (total as int % 86400) / 3600,
        r.minutes == (total as int % 3600) / 60,
        r.seconds == total as int % 60,
{
    UptimeParts {
        days: total / 86400,
        hours: (total % 86400) / 3600,
        minutes: (total % 3600) / 60,
        seconds: total % 60,
    }
}

/// The displayed uptime components lose nothing and stay in range:
/// recombining days, hours, minutes and seconds gives back the exact
/// second count, every component is non-negative, and hours, minutes
/// and seconds are below 24, 60 and 60.
pub proof fn lemma_uptime_decomposition(s: u64)
    ensures
        (s as int / 86400) * 86400 + ((s as int % 86400) / 3600) * 3600 + ((s as int % 3600) / 60)
            * 60 + (s as int % 60) == s as int,
        0 <= s as int / 86400,
        0 <= (s as int % 86400) / 3600 < 24,
        0 <= (s as int % 3600) / 60 < 60,
        0 <= s as int % 60 < 60,
{
    let si = s as int;
    lemma_fundamental_div_mod(si, 86400);
    lemma_fundamental_div_mod(si % 86400, 3600);
    lemma_fundamental_div_mod(si % 3600, 60);
    lemma_mod_mod(si, 3600, 24);
    lemma_mod_mod(si, 60, 60);
    assert((si % 86400) / 3600 < 24) by (nonlinear_arith)
        requires
            0 <= si % 86400 < 86400,
    ;
    assert((si % 3600) / 60 < 60) by (nonlinear_arith)
        requires
            0 <= si % 3600 < 3600,
    ;
    assert(si == (si / 86400) * 86400 + ((si % 86400) / 3600) * 3600 + ((si % 3600) / 60) * 60 + (
    si % 60));
}

} // verus!
