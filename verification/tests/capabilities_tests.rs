use rustrtc::config::{
    default_filter_private_host_candidates, ApplicationCapability, AudioCapability, BundlePolicy,
    CertificateConfig, IceCredentialType, IceServer, IceTransportPolicy, MediaCapabilities,
    RtcConfiguration, RtcConfigurationBuilder, RtcpMuxPolicy, TransportMode, VideoCapability,
};
use std::time::Duration;

fn strings(items: &[&str]) -> Vec<String> {
    items.iter().map(|s| s.to_string()).collect()
}

#[test]
fn opus_is_the_default_audio_capability() {
    let opus = AudioCapability::opus();
    assert_eq!(opus, AudioCapability::default());
    assert_eq!(opus.payload_type, 111);
    assert_eq!(opus.codec_name, "opus");
    assert_eq!(opus.clock_rate, 48000);
    assert_eq!(opus.channels, 2);
    assert_eq!(opus.fmtp.as_deref(), Some("minptime=10;useinbandfec=1"));
    assert!(opus.rtcp_fbs.is_empty());
}

#[test]
fn narrowband_codecs() {
    let cases = [
        (AudioCapability::pcmu(), 0u8, "PCMU"),
        (AudioCapability::pcma(), 8, "PCMA"),
        (AudioCapability::g722(), 9, "G722"),
        (AudioCapability::g729(), 18, "G729"),
    ];
    for (cap, pt, name) in cases.iter() {
        assert_eq!(cap.payload_type, *pt);
        assert_eq!(cap.codec_name, *name);
        assert_eq!(cap.clock_rate, 8000);
        assert_eq!(cap.channels, 1);
        assert_eq!(cap.fmtp, None);
        assert!(cap.rtcp_fbs.is_empty());
    }
}

#[test]
fn telephone_event_codec() {
    let cap = AudioCapability::telephone_event();
    assert_eq!(cap.payload_type, 101);
    assert_eq!(cap.codec_name, "telephone-event");
    assert_eq!(cap.clock_rate, 8000);
    assert_eq!(cap.channels, 1);
    assert_eq!(cap.fmtp.as_deref(), Some("0-16"));
}

#[test]
fn default_video_is_vp8_with_feedback() {
    let video = VideoCapability::default();
    assert_eq!(video.payload_type, 96);
    assert_eq!(video.codec_name, "VP8");
    assert_eq!(video.clock_rate, 90000);
    assert_eq!(
        video.rtcp_fbs,
        strings(&["nack", "nack pli", "ccm fir", "goog-remb", "transport-cc"])
    );
}

#[test]
fn default_media_capabilities() {
    let caps = MediaCapabilities::default();
    assert_eq!(caps.audio, vec![AudioCapability::opus(), AudioCapability::pcmu()]);
    assert_eq!(caps.video, vec![VideoCapability::default()]);
    assert_eq!(caps.application, Some(ApplicationCapability { sctp_port: 5000 }));
    assert_eq!(ApplicationCapability::default().sctp_port, 5000);
}

#[test]
fn ice_server_construction() {
    let urls = strings(&["stun:stun.example.org:3478"]);
    let server = IceServer::new(urls.clone());
    assert_eq!(server.urls, urls);
    assert_eq!(server.username, None);
    assert_eq!(server.credential, None);
    assert_eq!(server.credential_type, IceCredentialType::Password);

    let server = server
        .with_credential("alice".to_string(), "secret".to_string())
        .credential_type(IceCredentialType::Oauth);
    assert_eq!(server.urls, urls);
    assert_eq!(server.username.as_deref(), Some("alice"));
    assert_eq!(server.credential.as_deref(), Some("secret"));
    assert_eq!(server.credential_type, IceCredentialType::Oauth);

    assert_eq!(IceServer::default(), IceServer::new(Vec::new()));
}

#[test]
fn enum_defaults() {
    assert_eq!(IceCredentialType::default(), IceCredentialType::Password);
    assert_eq!(IceTransportPolicy::default(), IceTransportPolicy::All);
    assert_eq!(BundlePolicy::default(), BundlePolicy::Balanced);
    assert_eq!(RtcpMuxPolicy::default(), RtcpMuxPolicy::Require);
    assert_eq!(TransportMode::default(), TransportMode::WebRtc);
    let cert = CertificateConfig::default();
    assert!(cert.pem_chain.is_empty());
    assert_eq!(cert.private_key_pem, None);
    assert!(default_filter_private_host_candidates());
}

#[test]
fn remaining_defaults() {
    let config = RtcConfiguration::default();
    assert!(config.ice_servers.is_empty());
    assert!(config.certificates.is_empty());
    assert_eq!(config.nack_buffer_size, 200);
    assert_eq!(config.ssrc_start, 10000);
    assert_eq!(config.stun_timeout, Duration::from_secs(5));
    assert_eq!(config.nomination_timeout, Duration::from_secs(10));
    assert!(config.nomination_timeout > config.stun_timeout);
    assert_eq!(config.sctp_receive_window, 128 * 1024);
    assert_eq!(config.dtls_buffer_size, 2048);
    assert!(config.filter_private_host_candidates);
    assert_eq!(config.media_capabilities, None);
    assert_eq!(config.rtp_start_port, None);
    assert_eq!(config.rtp_end_port, None);
    assert!(!config.enable_latching);
    assert!(!config.enable_ice_lite);
    assert!(!config.disable_ipv6);
}

#[test]
fn builder_collects_servers_and_certificates_in_order() {
    let first = IceServer::new(strings(&["stun:a"]));
    let second = IceServer::new(strings(&["turn:b"]));
    let cert = CertificateConfig {
        pem_chain: strings(&["chain"]),
        private_key_pem: Some("key".to_string()),
    };
    let config = RtcConfigurationBuilder::new()
        .ice_server(first.clone())
        .ice_server(second.clone())
        .certificate(cert.clone())
        .build();
    assert_eq!(config.ice_servers, vec![first, second]);
    assert_eq!(config.certificates, vec![cert]);
    assert_eq!(config.stun_timeout, Duration::from_secs(5));
}

#[test]
fn builder_other_settings() {
    let config: RtcConfiguration = RtcConfigurationBuilder::default()
        .enable_latching(true)
        .enable_ice_lite(true)
        .filter_private_host_candidates(false)
        .ice_transport_policy(IceTransportPolicy::Relay)
        .bundle_policy(BundlePolicy::MaxBundle)
        .rtcp_mux_policy(RtcpMuxPolicy::Negotiate)
        .transport_mode(TransportMode::Rtp)
        .media_capabilities(MediaCapabilities::default())
        .external_ip("203.0.113.7".to_string())
        .bind_ip("0.0.0.0".to_string())
        .disable_ipv6(true)
        .ssrc_start(42)
        .rtp_port_range(20000, 20100)
        .dtls_buffer_size(4096)
        .into();
    assert!(config.enable_latching);
    assert!(config.enable_ice_lite);
    assert!(!config.filter_private_host_candidates);
    assert_eq!(config.ice_transport_policy, IceTransportPolicy::Relay);
    assert_eq!(config.bundle_policy, BundlePolicy::MaxBundle);
    assert_eq!(config.rtcp_mux_policy, RtcpMuxPolicy::Negotiate);
    assert_eq!(config.transport_mode, TransportMode::Rtp);
    assert_eq!(config.media_capabilities, Some(MediaCapabilities::default()));
    assert_eq!(config.external_ip.as_deref(), Some("203.0.113.7"));
    assert_eq!(config.bind_ip.as_deref(), Some("0.0.0.0"));
    assert!(config.disable_ipv6);
    assert_eq!(config.ssrc_start, 42);
    assert_eq!(config.rtp_start_port, Some(20000));
    assert_eq!(config.rtp_end_port, Some(20100));
    assert_eq!(config.dtls_buffer_size, 4096);
    // untouched settings keep their defaults
    assert_eq!(config.nack_buffer_size, 200);
    assert_eq!(config.ice_connection_timeout, Duration::from_secs(30));
}

#[test]
fn last_setting_wins() {
    let config = RtcConfigurationBuilder::new()
        .stun_timeout(Duration::from_secs(7))
        .stun_timeout(Duration::from_secs(9))
        .build();
    assert_eq!(config.stun_timeout, Duration::from_secs(9));
}
