use tokensbyte::ha::HaConfig;
use tokensbyte::meltdown::{is_melted_down, scrub_failed_channels, still_blocked, MeltdownTable};

fn cfg(cooldown: i64) -> HaConfig {
    HaConfig {
        plugin_enabled: true,
        max_retries: 3,
        total_timeout_secs: 0,
        cooldown_429: cooldown,
        cooldown_auth: cooldown,
        cooldown_404: cooldown,
        cooldown_network: cooldown,
        meltdown_blacklist: vec![],
        meltdown_whitelist: vec!["moderation".to_string()],
    }
}

#[test]
fn meltdown_blocks_until_deadline() {
    let mut t = MeltdownTable::new();
    t.trigger_ha_meltdown(&cfg(10), "ha_group_1", 500, "boom", 1_000);
    assert_eq!(t.len(), 1);
    assert!(is_melted_down(&mut t, "ha_group_1", 10_999));
    assert!(!is_melted_down(&mut t, "ha_group_1", 11_000));
    assert_eq!(t.len(), 0);
}

#[test]
fn meltdown_skips_non_ha_whitelist_and_zero_cooldown() {
    let mut t = MeltdownTable::new();
    t.trigger_ha_meltdown(&cfg(10), "plain", 500, "boom", 0);
    t.trigger_ha_meltdown(&cfg(10), "ha_group_2", 500, "Blocked by MODERATION", 0);
    t.trigger_ha_meltdown(&cfg(0), "ha_group_3", 500, "boom", 0);
    assert_eq!(t.len(), 0);
    assert!(!is_melted_down(&mut t, "ha_group_3", 0));
}

#[test]
fn scrub_drops_expired() {
    let mut t = MeltdownTable::new();
    t.trigger_ha_meltdown(&cfg(1), "ha_group_a", 500, "x", 0);
    t.trigger_ha_meltdown(&cfg(100), "ha_group_b", 500, "x", 0);
    assert_eq!(t.len(), 2);
    scrub_failed_channels(&mut t, 5_000);
    assert_eq!(t.len(), 1);
    assert!(is_melted_down(&mut t, "ha_group_b", 5_000));
    assert!(still_blocked(2, 1));
    assert!(!still_blocked(1, 1));
}
