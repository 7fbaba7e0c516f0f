use rustrtc::config::{RtcConfiguration, RtcConfigurationBuilder};
use std::time::Duration;

#[test]
fn test_rtc_configuration_defaults() {
    let config = RtcConfiguration::default();
    assert_eq!(config.ice_connection_timeout, Duration::from_secs(30));
    assert_eq!(config.sctp_rto_initial, Duration::from_secs(3));
    assert_eq!(config.sctp_rto_min, Duration::from_secs(1));
    assert_eq!(config.sctp_rto_max, Duration::from_secs(60));
    assert_eq!(config.sctp_max_association_retransmits, 20);
    assert_eq!(config.sctp_heartbeat_interval, Duration::from_secs(15));
    assert_eq!(config.sctp_max_heartbeat_failures, 4);
    assert!(!config.sctp_diag_enabled);
    assert!(!config.sctp_no_sack_sig_gating);
    assert_eq!(config.sctp_initial_cwnd, 0);
    assert_eq!(config.sctp_slow_start_increase_cap, 0);
    assert_eq!(config.sctp_gap_sack_delay_srtt_divisor, 2);
    assert_eq!(config.sctp_max_burst, 0);
    assert!(config.sctp_unlimited_burst_non_recovery);
    assert_eq!(config.sctp_max_cwnd, 256 * 1024);
}

#[test]
fn test_rtc_configuration_builder() {
    let config = RtcConfigurationBuilder::new()
        .stun_timeout(Duration::from_secs(10))
        .build();
    assert_eq!(config.stun_timeout, Duration::from_secs(10));
    // Verify other defaults are still there
    assert_eq!(config.ice_connection_timeout, Duration::from_secs(30));
}

#[test]
fn test_sctp_builder_methods() {
    let config = RtcConfigurationBuilder::new()
        .sctp_rto_initial(Duration::from_millis(500))
        .sctp_rto_min(Duration::from_millis(200))
        .sctp_rto_max(Duration::from_secs(10))
        .sctp_max_association_retransmits(30)
        .sctp_receive_window(512 * 1024)
        .sctp_heartbeat_interval(Duration::from_secs(10))
        .sctp_max_heartbeat_failures(8)
        .sctp_diag_enabled(true)
        .sctp_no_sack_sig_gating(true)
        .sctp_initial_cwnd(24 * 1024)
        .sctp_slow_start_increase_cap(12 * 1024)
        .sctp_gap_sack_delay_srtt_divisor(4)
        .sctp_max_burst(4)
        .sctp_unlimited_burst_non_recovery(false)
        .sctp_max_cwnd(512 * 1024)
        .ice_connection_timeout(Duration::from_secs(60))
        .build();

    assert_eq!(config.sctp_rto_initial, Duration::from_millis(500));
    assert_eq!(config.sctp_rto_min, Duration::from_millis(200));
    assert_eq!(config.sctp_rto_max, Duration::from_secs(10));
    assert_eq!(config.sctp_max_association_retransmits, 30);
    assert_eq!(config.sctp_receive_window, 512 * 1024);
    assert_eq!(config.sctp_heartbeat_interval, Duration::from_secs(10));
    assert_eq!(config.sctp_max_heartbeat_failures, 8);
    assert!(config.sctp_diag_enabled);
    assert!(config.sctp_no_sack_sig_gating);
    assert_eq!(config.sctp_initial_cwnd, 24 * 1024);
    assert_eq!(config.sctp_slow_start_increase_cap, 12 * 1024);
    assert_eq!(config.sctp_gap_sack_delay_srtt_divisor, 4);
    assert_eq!(config.sctp_max_burst, 4);
    assert!(!config.sctp_unlimited_burst_non_recovery);
    assert_eq!(config.sctp_max_cwnd, 512 * 1024);
    assert_eq!(config.ice_connection_timeout, Duration::from_secs(60));
}

#[test]
fn test_turn_optimized_config() {
    // Verify a TURN-optimized configuration can be expressed cleanly
    let config = RtcConfigurationBuilder::new()
        .sctp_rto_initial(Duration::from_millis(500))
        .sctp_rto_min(Duration::from_millis(200))
        .sctp_rto_max(Duration::from_secs(10))
        .sctp_max_association_retransmits(30)
        .sctp_max_heartbeat_failures(8)
        .sctp_max_burst(4)
        .stun_timeout(Duration::from_secs(10))
        .nomination_timeout(Duration::from_secs(20))
        .build();

    // Verify the TURN-optimized values are more aggressive than defaults
    let defaults = RtcConfiguration::default();
    assert!(config.sctp_rto_initial < defaults.sctp_rto_initial);
    assert!(config.sctp_rto_min < defaults.sctp_rto_min);
    assert!(config.sctp_rto_max < defaults.sctp_rto_max);
    assert!(config.sctp_max_association_retransmits > defaults.sctp_max_association_retransmits);
    assert!(config.sctp_max_heartbeat_failures > defaults.sctp_max_heartbeat_failures);
    assert!(config.sctp_max_burst > 0); // Explicit burst limit vs. heuristic
}
