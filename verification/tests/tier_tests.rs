//! Tests of the cadence tiers and the desired-tier rule.

use daemon_monitor::tier::desired_tier;
use daemon_monitor::tier::Tier;

#[test]
fn test_tier_intervals() {
    assert_eq!(Tier::Quick.interval_ms(), 800);
    assert_eq!(Tier::Fast.interval_ms(), 1500);
    assert_eq!(Tier::Normal.interval_ms(), 3000);
}

#[test]
fn test_desired_tier_priorities() {
    // A suspected restart inside its window pins the cadence to quick,
    // whatever the stability says.
    assert_eq!(desired_tier(true, 11_999, 100), Tier::Quick);
    // Outside the window the stability decides.
    assert_eq!(desired_tier(true, 12_000, 100), Tier::Normal);
    assert_eq!(desired_tier(false, 0, 5), Tier::Normal);
    assert_eq!(desired_tier(false, 0, 4), Tier::Fast);
    assert_eq!(desired_tier(false, 0, 3), Tier::Fast);
    assert_eq!(desired_tier(false, 0, 2), Tier::Quick);
    assert_eq!(desired_tier(false, 0, 0), Tier::Quick);
}
