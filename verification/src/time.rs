//! Julian dates in Coordinated Universal Time and in Terrestrial Time.
//!
//! A Julian date is held here as a whole number of milliseconds: the
//! Julian date in days, times 86 400 000. Noon of January 1, 2000, Julian
//! date 2 451 545.0, is [`JD_J2000`].

use vstd::prelude::*;

verus! {

/// The number of milliseconds in a day.
pub const MILLIS_PER_DAY: i64 = 86_400_000;

/// The Julian dates, in milliseconds, of the midnights at which a leap
/// second took effect, in ascending order.
pub const TT_LEAP_SECONDS: [i64; 27] = [
    210_945_556_800_000,  // JD 2441499.5
    210_961_454_400_000,  // JD 2441683.5
    210_992_990_400_000,  // JD 2442048.5
    211_024_526_400_000,  // JD 2442413.5
    211_056_062_400_000,  // JD 2442778.5
    211_087_684_800_000,  // JD 2443144.5
    211_119_220_800_000,  // JD 2443509.5
    211_150_756_800_000,  // JD 2443874.5
    211_182_292_800_000,  // JD 2444239.5
    211_229_553_600_000,  // JD 2444786.5
    211_261_089_600_000,  // JD 2445151.5
    211_292_625_600_000,  // JD 2445516.5
    211_355_784_000_000,  // JD 2446247.5
    211_434_753_600_000,  // JD 2447161.5
    211_497_912_000_000,  // JD 2447892.5
    211_529_448_000_000,  // JD 2448257.5
    211_576_708_800_000,  // JD 2448804.5
    211_608_244_800_000,  // JD 2449169.5
    211_639_780_800_000,  // JD 2449534.5
    211_687_214_400_000,  // JD 2450083.5
    211_734_475_200_000,  // JD 2450630.5
    211_781_908_800_000,  // JD 2451179.5
    212_002_833_600_000,  // JD 2453736.5
    212_097_528_000_000,  // JD 2454832.5
    212_207_860_800_000,  // JD 2456109.5
    212_302_468_800_000,  // JD 2457204.5
    212_349_988_800_000,  // JD 2457754.5
];

/// Julian date 2 451 545.0, in milliseconds.
pub const JD_J2000: i64 = 211_813_488_000_000;

/// What Terrestrial Time is ahead of International Atomic Time, in
/// milliseconds: 32.184 s.
pub const TT_MINUS_TAI_MILLIS: i64 = 32_184;

/// How many entries of [`TT_LEAP_SECONDS`], from index `from` on, the
/// Julian date `jd` has reached: those that are not after it.
pub open spec fn epochs_reached(jd: int, from: int) -> int
    decreases 27 - from,
{
    if from < 0 || from >= 27 {
        0
    } else if TT_LEAP_SECONDS[from] <= jd {
        1 + epochs_reached(jd, from + 1)
    } else {
        epochs_reached(jd, from + 1)
    }
}

/// The leap seconds that have been introduced at or before the Julian
/// date `jd`: the ten that Coordinated Universal Time began with, and one
/// for each entry of the table that `jd` has reached.
pub open spec fn leap_seconds(jd: int) -> int {
    10 + epochs_reached(jd, 0)
}

/// No more entries are reached than there are.
pub proof fn lemma_epochs_reached_bound(jd: int, from: int)
    requires
        0 <= from <= 27,
    ensures
        0 <= epochs_reached(jd, from) <= 27 - from,
    decreases 27 - from,
{
    if from < 27 {
        lemma_epochs_reached_bound(jd, from + 1);
    }
}

/// A later date has reached every entry that an earlier one has.
pub proof fn lemma_epochs_reached_grows(earlier: int, later: int, from: int)
    requires
        earlier <= later,
        0 <= from <= 27,
    ensures
        epochs_reached(earlier, from) <= epochs_reached(later, from),
    decreases 27 - from,
{
    if from < 27 {
        lemma_epochs_reached_grows(earlier, later, from + 1);
    }
}

/// The leap second count never falls as time goes on. It is ten before
/// the first entry of the table and 37 from the last one on.
pub proof fn lemma_leap_seconds_never_fall(earlier: int, later: int)
    requires
        earlier <= later,
    ensures
        10 <= leap_seconds(earlier) <= leap_seconds(later) <= 37,
        later < TT_LEAP_SECONDS[0] ==> leap_seconds(later) == 10,
        earlier >= TT_LEAP_SECONDS[26] ==> leap_seconds(earlier) == 37,
{
    lemma_epochs_reached_bound(earlier, 0);
    lemma_epochs_reached_bound(later, 0);
    lemma_epochs_reached_grows(earlier, later, 0);
    reveal_with_fuel(epochs_reached, 28);
}

/// The leap seconds that have been introduced at or before a Julian date
/// given in milliseconds.
///
/// The count starts at ten, and every entry of [`TT_LEAP_SECONDS`] that
/// `jd` has reached adds one. The result is therefore between 10 and 37.
pub fn get_leap_seconds(jd: i64) -> (count: u32)
    ensures
        count == leap_seconds(jd as int),
        10 <= count <= 37,
{
    let mut count: u32 = 10;
    let mut i: usize = 0;
    proof {
        lemma_epochs_reached_bound(jd as int, 0);
    }
    while i < 27
        invariant
            i <= 27,
            10 <= count <= 10 + i,
            leap_seconds(jd as int) == count + epochs_reached(jd as int, i as int),
        decreases 27 - i,
    {
        if TT_LEAP_SECONDS[i] <= jd {
            count = count + 1;
        }
        i = i + 1;
    }
    count
}

/// What Terrestrial Time is ahead of Coordinated Universal Time at the
/// Julian date `jd`, in milliseconds: the leap seconds and 32.184 s.
pub open spec fn tt_offset_millis(jd: int) -> int {
    1000 * leap_seconds(jd) + TT_MINUS_TAI_MILLIS
}

/// Converts a Julian date in Coordinated Universal Time to Terrestrial
/// Time, both in milliseconds.
pub fn jd_utc_to_tt(jd: i64) -> (tt: i64)
    requires
        jd + 69_184 <= i64::MAX,
    ensures
        tt == jd + tt_offset_millis(jd as int),
        jd + 42_184 <= tt <= jd + 69_184,
{
    let leap: i64 = get_leap_seconds(jd) as i64;
    jd + (leap * 1000 + TT_MINUS_TAI_MILLIS)
}

} // verus!
