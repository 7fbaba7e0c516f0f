use std::time::Duration;
use vstd::prelude::*;

verus! {

broadcast use vstd::string::group_string_axioms;

/// What a `String` option holds, as text.
pub open spec fn opt_text(o: Option<String>) -> Option<Seq<char>> {
    match o {
        Some(s) => Some(s@),
        None => None,
    }
}

/// Describes how credentials are conveyed for a given ICE server.
#[derive(Debug, Clone, PartialEq, Eq, Structural)]
pub enum IceCredentialType {
    Password,
    Oauth,
}

impl Default for IceCredentialType {
    fn default() -> (kind: Self)
        ensures
            kind == IceCredentialType::Password,
    {
        IceCredentialType::Password
    }
}

/// Mirrors the W3C `RTCIceServer` dictionary.
#[derive(Debug, Clone, PartialEq, Eq)]
pub struct IceServer {
    pub urls: Vec<String>,
    pub username: Option<String>,
    pub credential: Option<String>,
    pub credential_type: IceCredentialType,
}

impl IceServer {
    /// A server reached at `urls`, with no credential, of the password kind.
    pub fn new(urls: Vec<String>) -> (server: Self)
        ensures
            server.urls == urls,
            server.username is None,
            server.credential is None,
            server.credential_type == IceCredentialType::Password,
    {
        IceServer {
            urls,
            username: None,
            credential: None,
            credential_type: IceCredentialType::default(),
        }
    }

    /// The same server with `username` and `credential` set.
    pub fn with_credential(self, username: String, credential: String) -> (server: Self)
        ensures
            server == (IceServer { username: Some(username), credential: Some(credential), ..self }),
    {
        IceServer { username: Some(username), credential: Some(credential), ..self }
    }

    /// The same server with its credential kind set to `kind`.
    pub fn credential_type(self, kind: IceCredentialType) -> (server: Self)
        ensures
            server == (IceServer { credential_type: kind, ..self }),
    {
        IceServer { credential_type: kind, ..self }
    }
}

impl Default for IceServer {
    fn default() -> (server: Self)
        ensures
            server.urls@.len() == 0,
            server.username is None,
            server.credential is None,
            server.credential_type == IceCredentialType::Password,
    {
        Self::new(Vec::new())
    }
}

/// Which candidates ICE may use.
#[derive(Debug, Clone, PartialEq, Eq, Structural)]
pub enum IceTransportPolicy {
    All,
    Relay,
}

impl Default for IceTransportPolicy {
    fn default() -> (policy: Self)
        ensures
            policy == IceTransportPolicy::All,
    {
        IceTransportPolicy::All
    }
}

/// How media tracks are grouped onto transports.
#[derive(Debug, Clone, PartialEq, Eq, Structural)]
pub enum BundlePolicy {
    Balanced,
    MaxCompat,
    MaxBundle,
}

impl Default for BundlePolicy {
    fn default() -> (policy: Self)
        ensures
            policy == BundlePolicy::Balanced,
    {
        BundlePolicy::Balanced
    }
}

/// Whether RTCP must share the RTP transport.
#[derive(Debug, Clone, PartialEq, Eq, Structural)]
pub enum RtcpMuxPolicy {
    Require,
    Negotiate,
}

impl Default for RtcpMuxPolicy {
    fn default() -> (policy: Self)
        ensures
            policy == RtcpMuxPolicy::Require,
    {
        RtcpMuxPolicy::Require
    }
}

/// How media is carried: full WebRTC, plain SRTP or plain RTP.
#[derive(Debug, Clone, PartialEq, Eq, Structural)]
pub enum TransportMode {
    WebRtc,
    Srtp,
    Rtp,
}

impl Default for TransportMode {
    fn default() -> (mode: Self)
        ensures
            mode == TransportMode::WebRtc,
    {
        TransportMode::WebRtc
    }
}

/// Tracks user-supplied certificate material.
#[derive(Debug, Clone, PartialEq, Eq)]
pub struct CertificateConfig {
    pub pem_chain: Vec<String>,
    pub private_key_pem: Option<String>,
}

impl Default for CertificateConfig {
    fn default() -> (cert: Self)
        ensures
            cert.pem_chain@.len() == 0,
            cert.private_key_pem is None,
    {
        CertificateConfig { pem_chain: Vec::new(), private_key_pem: None }
    }
}

/// Configuration for audio/video codecs and parameters.
#[derive(Debug, Clone, PartialEq, Eq)]
pub struct AudioCapability {
    pub payload_type: u8,
    pub codec_name: String,
    pub clock_rate: u32,
    pub channels: u8,
    pub fmtp: Option<String>,
    pub rtcp_fbs: Vec<String>,
}

impl AudioCapability {
    /// This capability is the codec with the given payload type, name, clock
    /// rate, channel count and format parameters, with no RTCP feedback.
    pub open spec fn is_codec(
        self,
        payload_type: u8,
        codec_name: Seq<char>,
        clock_rate: u32,
        channels: u8,
        fmtp: Option<Seq<char>>,
    ) -> bool {
        &&& self.payload_type == payload_type
        &&& self.codec_name@ == codec_name
        &&& self.clock_rate == clock_rate
        &&& self.channels == channels
        &&& opt_text(self.fmtp) == fmtp
        &&& self.rtcp_fbs@.len() == 0
    }

    /// Opus at 48 kHz, stereo, payload type 111, with in-band FEC.
    pub open spec fn is_opus(self) -> bool {
        self.is_codec(111, "opus"@, 48000, 2, Some("minptime=10;useinbandfec=1"@))
    }

    /// G.711 mu-law, payload type 0.
    pub open spec fn is_pcmu(self) -> bool {
        self.is_codec(0, "PCMU"@, 8000, 1, None)
    }

    /// G.711 A-law, payload type 8.
    pub open spec fn is_pcma(self) -> bool {
        self.is_codec(8, "PCMA"@, 8000, 1, None)
    }

    /// G.722, payload type 9.
    pub open spec fn is_g722(self) -> bool {
        self.is_codec(9, "G722"@, 8000, 1, None)
    }

    /// G.729, payload type 18.
    pub open spec fn is_g729(self) -> bool {
        self.is_codec(18, "G729"@, 8000, 1, None)
    }

    /// DTMF events 0 to 16, payload type 101.
    pub open spec fn is_telephone_event(self) -> bool {
        self.is_codec(101, "telephone-event"@, 8000, 1, Some("0-16"@))
    }

    pub fn opus() -> (audio: Self)
        ensures
            audio.is_opus(),
    {
        Self::default()
    }

    pub fn pcmu() -> (audio: Self)
        ensures
            audio.is_pcmu(),
    {
        AudioCapability {
            payload_type: 0,
            codec_name: "PCMU".to_string(),
            clock_rate: 8000,
            channels: 1,
            fmtp: None,
            rtcp_fbs: Vec::new(),
        }
    }

    pub fn pcma() -> (audio: Self)
        ensures
            audio.is_pcma(),
    {
        AudioCapability {
            payload_type: 8,
            codec_name: "PCMA".to_string(),
            clock_rate: 8000,
            channels: 1,
            fmtp: None,
            rtcp_fbs: Vec::new(),
        }
    }

    pub fn g722() -> (audio: Self)
        ensures
            audio.is_g722(),
    {
        AudioCapability {
            payload_type: 9,
            codec_name: "G722".to_string(),
            clock_rate: 8000,
            channels: 1,
            fmtp: None,
            rtcp_fbs: Vec::new(),
        }
    }

    pub fn g729() -> (audio: Self)
        ensures
            audio.is_g729(),
    {
        AudioCapability {
            payload_type: 18,
            codec_name: "G729".to_string(),
            clock_rate: 8000,
            channels: 1,
            fmtp: None,
            rtcp_fbs: Vec::new(),
        }
    }

    pub fn telephone_event() -> (audio: Self)
        ensures
            audio.is_telephone_event(),
    {
        AudioCapability {
            payload_type: 101,
            codec_name: "telephone-event".to_string(),
            clock_rate: 8000,
            channels: 1,
            fmtp: Some("0-16".to_string()),
            rtcp_fbs: Vec::new(),
        }
    }
}

impl Default for AudioCapability {
    fn default() -> (audio: Self)
        ensures
            audio.is_opus(),
    {
        AudioCapability {
            payload_type: 111,
            codec_name: "opus".to_string(),
            clock_rate: 48000,
            channels: 2,
            fmtp: Some("minptime=10;useinbandfec=1".to_string()),
            rtcp_fbs: Vec::new(),
        }
    }
}

#[derive(Debug, Clone, PartialEq, Eq)]
pub struct VideoCapability {
    pub payload_type: u8,
    pub codec_name: String,
    pub clock_rate: u32,
    pub rtcp_fbs: Vec<String>,
}

impl VideoCapability {
    /// VP8 at 90 kHz, payload type 96, with NACK, PLI, FIR, REMB and
    /// transport-wide congestion control feedback, in that order.
    pub open spec fn is_vp8(self) -> bool {
        &&& self.payload_type == 96
        &&& self.codec_name@ == "VP8"@
        &&& self.clock_rate == 90000
        &&& self.rtcp_fbs.deep_view() == seq![
            "nack"@,
            "nack pli"@,
            "ccm fir"@,
            "goog-remb"@,
            "transport-cc"@,
        ]
    }
}

impl Default for VideoCapability {
    fn default() -> (video: Self)
        ensures
            video.is_vp8(),
    {
        let mut rtcp_fbs: Vec<String> = Vec::new();
        rtcp_fbs.push("nack".to_string());
        rtcp_fbs.push("nack pli".to_string());
        rtcp_fbs.push("ccm fir".to_string());
        rtcp_fbs.push("goog-remb".to_string());
        rtcp_fbs.push("transport-cc".to_string());
        let video = VideoCapability {
            payload_type: 96,
            codec_name: "VP8".to_string(),
            clock_rate: 90000,
            rtcp_fbs,
        };
        assert(video.rtcp_fbs.deep_view() =~= seq![
            "nack"@,
            "nack pli"@,
            "ccm fir"@,
            "goog-remb"@,
            "transport-cc"@,
        ]);
        video
    }
}

#[derive(Debug, Clone, PartialEq, Eq, Structural)]
pub struct ApplicationCapability {
    pub sctp_port: u16,
}

impl Default for ApplicationCapability {
    fn default() -> (app: Self)
        ensures
            app.sctp_port == 5000,
    {
        ApplicationCapability { sctp_port: 5000 }
    }
}

#[derive(Debug, Clone, PartialEq, Eq)]
pub struct MediaCapabilities {
    pub audio: Vec<AudioCapability>,
    pub video: Vec<VideoCapability>,
    pub application: Option<ApplicationCapability>,
}

impl MediaCapabilities {
    /// Opus then PCMU for audio, VP8 for video, and a data channel on SCTP
    /// port 5000.
    pub open spec fn is_default(self) -> bool {
        &&& self.audio@.len() == 2
        &&& self.audio@[0].is_opus()
        &&& self.audio@[1].is_pcmu()
        &&& self.video@.len() == 1
        &&& self.video@[0].is_vp8()
        &&& self.application == Some(ApplicationCapability { sctp_port: 5000 })
    }
}

impl Default for MediaCapabilities {
    fn default() -> (caps: Self)
        ensures
            caps.is_default(),
    {
        let mut audio: Vec<AudioCapability> = Vec::new();
        audio.push(AudioCapability::opus());
        audio.push(AudioCapability::pcmu());
        let mut video: Vec<VideoCapability> = Vec::new();
        video.push(VideoCapability::default());
        MediaCapabilities { audio, video, application: Some(ApplicationCapability::default()) }
    }
}

/// The span that `Duration::from_secs` makes of `secs` whole seconds. It
/// depends on `secs` alone.
pub uninterp spec fn duration_from_secs(secs: u64) -> Duration;

/// Calls `std::time::Duration::from_secs`, which builds the span of `secs`
/// whole seconds and never panics. The contract claims only that the result
/// is the one `duration_from_secs` names for `secs`.
#[verifier::external_body]
fn seconds(secs: u64) -> (d: Duration)
    ensures
        d == duration_from_secs(secs),
{
    Duration::from_secs(secs)
}

/// `Clone` of `std::time::Duration`, a `Copy` type: the clone is the same span.
pub assume_specification[ <Duration as Clone>::clone ](d: &Duration) -> (res: Duration)
    ensures
        res == *d,
;

/// Private host candidates are filtered unless the configuration says otherwise.
pub fn default_filter_private_host_candidates() -> (filter: bool)
    ensures
        filter,
{
    true
}

/// Primary configuration for a `PeerConnection`.
#[derive(Debug, Clone, PartialEq, Eq)]
pub struct RtcConfiguration {
    pub ice_servers: Vec<IceServer>,
    pub ice_transport_policy: IceTransportPolicy,
    pub bundle_policy: BundlePolicy,
    pub rtcp_mux_policy: RtcpMuxPolicy,
    pub certificates: Vec<CertificateConfig>,
    pub transport_mode: TransportMode,
    pub nack_buffer_size: usize,
    pub media_capabilities: Option<MediaCapabilities>,
    pub external_ip: Option<String>,
    pub bind_ip: Option<String>,
    pub disable_ipv6: bool,
    pub filter_private_host_candidates: bool,
    pub ssrc_start: u32,
    pub stun_timeout: Duration,
    /// Timeout for the ICE nomination binding check (USE-CANDIDATE).
    /// This should be larger than `stun_timeout` to allow more retransmissions
    /// and reduce the probability of nomination failures under packet loss.
    pub nomination_timeout: Duration,
    pub ice_connection_timeout: Duration,
    /// Initial SCTP retransmission timeout (RTO).
    pub sctp_rto_initial: Duration,
    /// Minimum SCTP retransmission timeout (RTO).
    pub sctp_rto_min: Duration,
    /// Maximum SCTP retransmission timeout (RTO).
    pub sctp_rto_max: Duration,
    /// Maximum association retransmissions before declaring the peer dead.
    pub sctp_max_association_retransmits: u32,
    /// Local SCTP receiver window in bytes.
    ///
    /// Larger values allow more in-flight data (higher throughput on high-BDP
    /// links), at the cost of memory.
    pub sctp_receive_window: usize,
    /// SCTP heartbeat interval.
    pub sctp_heartbeat_interval: Duration,
    /// Maximum consecutive heartbeat failures before declaring the peer dead.
    pub sctp_max_heartbeat_failures: u32,
    /// Enable verbose SCTP diagnostics at `info` level (target: `rustrtc::sctp_diag`).
    ///
    /// Intended for troubleshooting; may be noisy.
    pub sctp_diag_enabled: bool,
    /// Disable SACK signature gating and count missing reports even on duplicate SACKs.
    ///
    /// Intended for troubleshooting; disabling gating can make loss detection more
    /// aggressive.
    pub sctp_no_sack_sig_gating: bool,
    /// Initial SCTP congestion window (cwnd) in bytes.
    ///
    /// `0` uses the library default (currently IW10 ~= 10 * 1200 bytes).
    pub sctp_initial_cwnd: usize,
    /// Maximum cwnd increase per SACK while in slow start, in bytes.
    ///
    /// This caps exponential growth when the receive path coalesces ACKs.
    /// `0` means "use the effective initial cwnd".
    pub sctp_slow_start_increase_cap: usize,
    /// When non-zero, delay SACKs in the presence of gaps (out-of-order data) by
    /// `srtt / divisor` (clamped internally).
    ///
    /// `0` disables the gap-SACK delay (SACKs are sent immediately).
    pub sctp_gap_sack_delay_srtt_divisor: u32,
    /// Maximum burst size for SCTP in number of MTU-sized packets.
    ///
    /// `0` uses a heuristic (16 packets normal, 4 in recovery) unless
    /// `sctp_unlimited_burst_non_recovery` is enabled.
    pub sctp_max_burst: usize,
    /// If true and `sctp_max_burst == 0`, disable burst limiting outside of
    /// loss recovery. This avoids adding an extra RTT for payloads that already
    /// fit within `cwnd`.
    pub sctp_unlimited_burst_non_recovery: bool,
    /// Maximum congestion window size in bytes.
    pub sctp_max_cwnd: usize,
    pub dtls_buffer_size: usize,
    pub rtp_start_port: Option<u16>,
    pub rtp_end_port: Option<u16>,
    pub enable_latching: bool,
    pub enable_ice_lite: bool,
}

impl RtcConfiguration {
    /// The default configuration: no ICE servers or certificates, default
    /// policies, WebRTC transport, the timeouts of 5 s (STUN), 10 s
    /// (nomination), 30 s (ICE connection), the SCTP tuning below, and every
    /// optional setting unset.
    pub open spec fn is_default(self) -> bool {
        &&& self.ice_servers@.len() == 0
        &&& self.ice_transport_policy == IceTransportPolicy::All
        &&& self.bundle_policy == BundlePolicy::Balanced
        &&& self.rtcp_mux_policy == RtcpMuxPolicy::Require
        &&& self.certificates@.len() == 0
        &&& self.transport_mode == TransportMode::WebRtc
        &&& self.nack_buffer_size == 200
        &&& self.media_capabilities is None
        &&& self.external_ip is None
        &&& self.bind_ip is None
        &&& !self.disable_ipv6
        &&& self.filter_private_host_candidates
        &&& self.ssrc_start == 10000
        &&& self.stun_timeout == duration_from_secs(5)
        &&& self.nomination_timeout == duration_from_secs(10)
        &&& self.ice_connection_timeout == duration_from_secs(30)
        &&& self.sctp_rto_initial == duration_from_secs(3)
        &&& self.sctp_rto_min == duration_from_secs(1)
        &&& self.sctp_rto_max == duration_from_secs(60)
        &&& self.sctp_max_association_retransmits == 20
        &&& self.sctp_receive_window == 128 * 1024
        &&& self.sctp_heartbeat_interval == duration_from_secs(15)
        &&& self.sctp_max_heartbeat_failures == 4
        &&& !self.sctp_diag_enabled
        &&& !self.sctp_no_sack_sig_gating
        &&& self.sctp_initial_cwnd == 0
        &&& self.sctp_slow_start_increase_cap == 0
        &&& self.sctp_gap_sack_delay_srtt_divisor == 2
        &&& self.sctp_max_burst == 0
        &&& self.sctp_unlimited_burst_non_recovery
        &&& self.sctp_max_cwnd == 256 * 1024
        &&& self.dtls_buffer_size == 2048
        &&& self.rtp_start_port is None
        &&& self.rtp_end_port is None
        &&& !self.enable_latching
        &&& !self.enable_ice_lite
    }
}

impl Default for RtcConfiguration {
    fn default() -> (config: Self)
        ensures
            config.is_default(),
    {
        RtcConfiguration {
            ice_servers: Vec::new(),
            ice_transport_policy: IceTransportPolicy::default(),
            bundle_policy: BundlePolicy::default(),
            rtcp_mux_policy: RtcpMuxPolicy::default(),
            certificates: Vec::new(),
            transport_mode: TransportMode::default(),
            nack_buffer_size: 200,
            media_capabilities: None,
            external_ip: None,
            bind_ip: None,
            disable_ipv6: false,
            filter_private_host_candidates: default_filter_private_host_candidates(),
            ssrc_start: 10000,
            stun_timeout: seconds(5),
            nomination_timeout: seconds(10),
            ice_connection_timeout: seconds(30),
            sctp_rto_initial: seconds(3),
            sctp_rto_min: seconds(1),
            sctp_rto_max: seconds(60),
            sctp_max_association_retransmits: 20,
            sctp_receive_window: 128 * 1024,  // 128KB - reduced for lower memory footprint
            sctp_heartbeat_interval: seconds(15),
            sctp_max_heartbeat_failures: 4,
            sctp_diag_enabled: false,
            sctp_no_sack_sig_gating: false,
            sctp_initial_cwnd: 0,  // 0 = use internal default (currently IW10)
            sctp_slow_start_increase_cap: 0,  // 0 = use effective initial cwnd
            sctp_gap_sack_delay_srtt_divisor: 2,  // 2 = srtt/2 (clamped internally)
            sctp_max_burst: 0,  // 0 = use default heuristic
            sctp_unlimited_burst_non_recovery: true,
            sctp_max_cwnd: 256 * 1024,  // 256 KB
            dtls_buffer_size: 2048,
            rtp_start_port: None,
            rtp_end_port: None,
            enable_latching: false,
            enable_ice_lite: false,
        }
    }
}

/// One call of a builder setter, with its arguments.
pub enum BuilderStep {
    IceServer(IceServer),
    Certificate(CertificateConfig),
    RtpPortRange(u16, u16),
    EnableLatching(bool),
    EnableIceLite(bool),
    FilterPrivateHostCandidates(bool),
    IceTransportPolicy(IceTransportPolicy),
    BundlePolicy(BundlePolicy),
    RtcpMuxPolicy(RtcpMuxPolicy),
    TransportMode(TransportMode),
    MediaCapabilities(MediaCapabilities),
    ExternalIp(String),
    BindIp(String),
    DisableIpv6(bool),
    SsrcStart(u32),
    StunTimeout(Duration),
    NominationTimeout(Duration),
    DtlsBufferSize(usize),
    SctpRtoInitial(Duration),
    SctpRtoMin(Duration),
    SctpRtoMax(Duration),
    SctpMaxAssociationRetransmits(u32),
    SctpReceiveWindow(usize),
    SctpHeartbeatInterval(Duration),
    SctpMaxHeartbeatFailures(u32),
    SctpDiagEnabled(bool),
    SctpNoSackSigGating(bool),
    SctpInitialCwnd(usize),
    SctpSlowStartIncreaseCap(usize),
    SctpGapSackDelaySrttDivisor(u32),
    SctpMaxBurst(usize),
    SctpUnlimitedBurstNonRecovery(bool),
    SctpMaxCwnd(usize),
    IceConnectionTimeout(Duration),
}

/// The settings that `step` writes, written over `config`. Appending an ICE
/// server or a certificate writes none of them; `step_result` and the
/// `*_added` functions say what those steps do to the lists.
pub open spec fn apply_step(config: RtcConfiguration, step: BuilderStep) -> RtcConfiguration {
    match step {
        BuilderStep::IceServer(_) => config,
        BuilderStep::Certificate(_) => config,
        BuilderStep::RtpPortRange(start, end) => RtcConfiguration { rtp_start_port: Some(start), rtp_end_port: Some(end), ..config },
        BuilderStep::EnableLatching(enable) => RtcConfiguration { enable_latching: enable, ..config },
        BuilderStep::EnableIceLite(enable) => RtcConfiguration { enable_ice_lite: enable, ..config },
        BuilderStep::FilterPrivateHostCandidates(enable) => RtcConfiguration { filter_private_host_candidates: enable, ..config },
        BuilderStep::IceTransportPolicy(policy) => RtcConfiguration { ice_transport_policy: policy, ..config },
        BuilderStep::BundlePolicy(policy) => RtcConfiguration { bundle_policy: policy, ..config },
        BuilderStep::RtcpMuxPolicy(policy) => RtcConfiguration { rtcp_mux_policy: policy, ..config },
        BuilderStep::TransportMode(mode) => RtcConfiguration { transport_mode: mode, ..config },
        BuilderStep::MediaCapabilities(capabilities) => RtcConfiguration { media_capabilities: Some(capabilities), ..config },
        BuilderStep::ExternalIp(ip) => RtcConfiguration { external_ip: Some(ip), ..config },
        BuilderStep::BindIp(ip) => RtcConfiguration { bind_ip: Some(ip), ..config },
        BuilderStep::DisableIpv6(disable) => RtcConfiguration { disable_ipv6: disable, ..config },
        BuilderStep::SsrcStart(start) => RtcConfiguration { ssrc_start: start, ..config },
        BuilderStep::StunTimeout(timeout) => RtcConfiguration { stun_timeout: timeout, ..config },
        BuilderStep::NominationTimeout(timeout) => RtcConfiguration { nomination_timeout: timeout, ..config },
        BuilderStep::DtlsBufferSize(size) => RtcConfiguration { dtls_buffer_size: size, ..config },
        BuilderStep::SctpRtoInitial(duration) => RtcConfiguration { sctp_rto_initial: duration, ..config },
        BuilderStep::SctpRtoMin(duration) => RtcConfiguration { sctp_rto_min: duration, ..config },
        BuilderStep::SctpRtoMax(duration) => RtcConfiguration { sctp_rto_max: duration, ..config },
        BuilderStep::SctpMaxAssociationRetransmits(count) => RtcConfiguration { sctp_max_association_retransmits: count, ..config },
        BuilderStep::SctpReceiveWindow(size) => RtcConfiguration { sctp_receive_window: size, ..config },
        BuilderStep::SctpHeartbeatInterval(duration) => RtcConfiguration { sctp_heartbeat_interval: duration, ..config },
        BuilderStep::SctpMaxHeartbeatFailures(count) => RtcConfiguration { sctp_max_heartbeat_failures: count, ..config },
        BuilderStep::SctpDiagEnabled(enable) => RtcConfiguration { sctp_diag_enabled: enable, ..config },
        BuilderStep::SctpNoSackSigGating(enable) => RtcConfiguration { sctp_no_sack_sig_gating: enable, ..config },
        BuilderStep::SctpInitialCwnd(bytes) => RtcConfiguration { sctp_initial_cwnd: bytes, ..config },
        BuilderStep::SctpSlowStartIncreaseCap(bytes) => RtcConfiguration { sctp_slow_start_increase_cap: bytes, ..config },
        BuilderStep::SctpGapSackDelaySrttDivisor(divisor) => RtcConfiguration { sctp_gap_sack_delay_srtt_divisor: divisor, ..config },
        BuilderStep::SctpMaxBurst(packets) => RtcConfiguration { sctp_max_burst: packets, ..config },
        BuilderStep::SctpUnlimitedBurstNonRecovery(enable) => RtcConfiguration { sctp_unlimited_burst_non_recovery: enable, ..config },
        BuilderStep::SctpMaxCwnd(size) => RtcConfiguration { sctp_max_cwnd: size, ..config },
        BuilderStep::IceConnectionTimeout(timeout) => RtcConfiguration { ice_connection_timeout: timeout, ..config },
    }
}

/// `after` is what the setter call `step` makes of `before`.
pub open spec fn step_result(before: RtcConfiguration, step: BuilderStep, after: RtcConfiguration) -> bool {
    match step {
        BuilderStep::IceServer(server) => {
            &&& after.ice_servers@ == before.ice_servers@.push(server)
            &&& after == (RtcConfiguration { ice_servers: after.ice_servers, ..before })
        },
        BuilderStep::Certificate(cert) => {
            &&& after.certificates@ == before.certificates@.push(cert)
            &&& after == (RtcConfiguration { certificates: after.certificates, ..before })
        },
        _ => after == apply_step(before, step),
    }
}

/// The settings after the calls `steps`, made in order on `base`: each one
/// holds the value of the last call that writes it, or its value in `base`
/// where no call writes it. The ICE server and certificate lists are left as
/// in `base`.
pub open spec fn replay(steps: Seq<BuilderStep>, base: RtcConfiguration) -> RtcConfiguration
    decreases steps.len(),
{
    if steps.len() == 0 {
        base
    } else {
        apply_step(replay(steps.drop_last(), base), steps.last())
    }
}

/// The ICE servers that the calls `steps` append, in call order.
pub open spec fn servers_added(steps: Seq<BuilderStep>) -> Seq<IceServer>
    decreases steps.len(),
{
    if steps.len() == 0 {
        Seq::empty()
    } else {
        match steps.last() {
            BuilderStep::IceServer(server) => servers_added(steps.drop_last()).push(server),
            _ => servers_added(steps.drop_last()),
        }
    }
}

/// The certificates that the calls `steps` append, in call order.
pub open spec fn certificates_added(steps: Seq<BuilderStep>) -> Seq<CertificateConfig>
    decreases steps.len(),
{
    if steps.len() == 0 {
        Seq::empty()
    } else {
        match steps.last() {
            BuilderStep::Certificate(cert) => certificates_added(steps.drop_last()).push(cert),
            _ => certificates_added(steps.drop_last()),
        }
    }
}

/// `states` are the configurations that a builder holds before and after
/// each of the calls `steps`, in order.
pub open spec fn is_chain(steps: Seq<BuilderStep>, states: Seq<RtcConfiguration>) -> bool {
    &&& states.len() == steps.len() + 1
    &&& forall|i: int|
        0 <= i < steps.len() ==> #[trigger] step_result(states[i], steps[i], states[i + 1])
}

/// Writing the settings of `step` does not touch the ICE server and
/// certificate lists, whatever they hold.
#[verifier::rlimit(60)]
#[verifier::spinoff_prover]
proof fn lemma_apply_step_keeps_lists(
    config: RtcConfiguration,
    servers: Vec<IceServer>,
    certs: Vec<CertificateConfig>,
    step: BuilderStep,
)
    ensures
        apply_step(
            RtcConfiguration { ice_servers: servers, certificates: certs, ..config },
            step,
        ) == (RtcConfiguration {
            ice_servers: servers,
            certificates: certs,
            ..apply_step(config, step)
        }),
{
    match step {
        BuilderStep::IceServer(..) => {},
        BuilderStep::Certificate(..) => {},
        BuilderStep::RtpPortRange(..) => {},
        BuilderStep::EnableLatching(..) => {},
        BuilderStep::EnableIceLite(..) => {},
        BuilderStep::FilterPrivateHostCandidates(..) => {},
        BuilderStep::IceTransportPolicy(..) => {},
        BuilderStep::BundlePolicy(..) => {},
        BuilderStep::RtcpMuxPolicy(..) => {},
        BuilderStep::TransportMode(..) => {},
        BuilderStep::MediaCapabilities(..) => {},
        BuilderStep::ExternalIp(..) => {},
        BuilderStep::BindIp(..) => {},
        BuilderStep::DisableIpv6(..) => {},
        BuilderStep::SsrcStart(..) => {},
        BuilderStep::StunTimeout(..) => {},
        BuilderStep::NominationTimeout(..) => {},
        BuilderStep::DtlsBufferSize(..) => {},
        BuilderStep::SctpRtoInitial(..) => {},
        BuilderStep::SctpRtoMin(..) => {},
        BuilderStep::SctpRtoMax(..) => {},
        BuilderStep::SctpMaxAssociationRetransmits(..) => {},
        BuilderStep::SctpReceiveWindow(..) => {},
        BuilderStep::SctpHeartbeatInterval(..) => {},
        BuilderStep::SctpMaxHeartbeatFailures(..) => {},
        BuilderStep::SctpDiagEnabled(..) => {},
        BuilderStep::SctpNoSackSigGating(..) => {},
        BuilderStep::SctpInitialCwnd(..) => {},
        BuilderStep::SctpSlowStartIncreaseCap(..) => {},
        BuilderStep::SctpGapSackDelaySrttDivisor(..) => {},
        BuilderStep::SctpMaxBurst(..) => {},
        BuilderStep::SctpUnlimitedBurstNonRecovery(..) => {},
        BuilderStep::SctpMaxCwnd(..) => {},
        BuilderStep::IceConnectionTimeout(..) => {},
    }
}

/// One more setter call keeps the shape that `lemma_setter_chain` states.
proof fn lemma_setter_chain_step(
    prefix: Seq<BuilderStep>,
    step: BuilderStep,
    base: RtcConfiguration,
    before: RtcConfiguration,
    after: RtcConfiguration,
)
    requires
        before.ice_servers@ == base.ice_servers@ + servers_added(prefix),
        before.certificates@ == base.certificates@ + certificates_added(prefix),
        before == (RtcConfiguration {
            ice_servers: before.ice_servers,
            certificates: before.certificates,
            ..replay(prefix, base)
        }),
        step_result(before, step, after),
    ensures
        after.ice_servers@ == base.ice_servers@ + servers_added(prefix.push(step)),
        after.certificates@ == base.certificates@ + certificates_added(prefix.push(step)),
        after == (RtcConfiguration {
            ice_servers: after.ice_servers,
            certificates: after.certificates,
            ..replay(prefix.push(step), base)
        }),
{
    let steps = prefix.push(step);
    assert(steps.drop_last() =~= prefix);
    assert(steps.last() == step);
    let replayed = replay(prefix, base);
    lemma_apply_step_keeps_lists(replayed, before.ice_servers, before.certificates, step);
    match step {
        BuilderStep::IceServer(server) => {
            assert(after.ice_servers@ =~= base.ice_servers@ + servers_added(steps));
        },
        BuilderStep::Certificate(cert) => {
            assert(after.certificates@ =~= base.certificates@ + certificates_added(steps));
        },
        _ => {},
    }
}

/// After any chain of setter calls on a builder, each setting holds the value
/// of the last call that writes it, or the value it had before the chain; the
/// ICE servers and certificates that the calls append follow the earlier
/// ones, in call order; and the NACK buffer size, which no setter writes, is
/// unchanged.
pub proof fn lemma_setter_chain(steps: Seq<BuilderStep>, states: Seq<RtcConfiguration>)
    requires
        is_chain(steps, states),
    ensures
        states.last().ice_servers@ == states[0].ice_servers@ + servers_added(steps),
        states.last().certificates@ == states[0].certificates@ + certificates_added(steps),
        states.last() == (RtcConfiguration {
            ice_servers: states.last().ice_servers,
            certificates: states.last().certificates,
            ..replay(steps, states[0])
        }),
        states.last().nack_buffer_size == states[0].nack_buffer_size,
    decreases steps.len(),
{
    if steps.len() > 0 {
        let n = steps.len() - 1;
        let prefix = steps.drop_last();
        let before = states.drop_last();
        assert forall|i: int| 0 <= i < prefix.len() implies #[trigger] step_result(
            before[i],
            prefix[i],
            before[i + 1],
        ) by {
            assert(step_result(states[i], steps[i], states[i + 1]));
        }
        lemma_setter_chain(prefix, before);
        assert(step_result(states[n], steps[n], states[n + 1]));
        assert(prefix.push(steps[n]) =~= steps);
        lemma_setter_chain_step(prefix, steps[n], states[0], states[n], states[n + 1]);
        lemma_replay_keeps_nack_buffer(steps, states[0]);
    } else {
        assert(states[0].ice_servers@ =~= states[0].ice_servers@ + servers_added(steps));
        assert(states[0].certificates@ =~= states[0].certificates@ + certificates_added(steps));
    }
}

/// No setter writes the NACK buffer size.
proof fn lemma_replay_keeps_nack_buffer(steps: Seq<BuilderStep>, base: RtcConfiguration)
    ensures
        replay(steps, base).nack_buffer_size == base.nack_buffer_size,
    decreases steps.len(),
{
    if steps.len() > 0 {
        lemma_replay_keeps_nack_buffer(steps.drop_last(), base);
    }
}

/// A builder made by `new` and then given any chain of setter calls builds the
/// default configuration with each setting that a call writes holding the
/// value of the last such call, the ICE servers and certificates of the calls
/// in call order, and a NACK buffer size of 200.
pub proof fn lemma_setter_chain_from_new(steps: Seq<BuilderStep>, states: Seq<RtcConfiguration>)
    requires
        is_chain(steps, states),
        states[0].is_default(),
    ensures
        states.last().ice_servers@ == servers_added(steps),
        states.last().certificates@ == certificates_added(steps),
        states.last() == (RtcConfiguration {
            ice_servers: states.last().ice_servers,
            certificates: states.last().certificates,
            ..replay(steps, states[0])
        }),
        states.last().nack_buffer_size == 200,
{
    lemma_setter_chain(steps, states);
    assert(states[0].ice_servers@ + servers_added(steps) =~= servers_added(steps));
    assert(states[0].certificates@ + certificates_added(steps) =~= certificates_added(steps));
}

pub struct RtcConfigurationBuilder {
    inner: RtcConfiguration,
}

impl View for RtcConfigurationBuilder {
    type V = RtcConfiguration;

    /// The configuration built so far.
    closed spec fn view(&self) -> RtcConfiguration {
        self.inner
    }
}

impl Default for RtcConfigurationBuilder {
    fn default() -> (builder: Self)
        ensures
            builder@.is_default(),
    {
        Self::new()
    }
}

impl RtcConfigurationBuilder {
    /// A builder that starts from the default configuration.
    pub fn new() -> (builder: Self)
        ensures
            builder@.is_default(),
    {
        RtcConfigurationBuilder { inner: RtcConfiguration::default() }
    }

    /// Appends `server` to the ICE servers; every other setting stays as it was.
    pub fn ice_server(self, server: IceServer) -> (builder: Self)
        ensures
            step_result(self@, BuilderStep::IceServer(server), builder@),
            builder@.ice_servers@ == self@.ice_servers@.push(server),
            builder@ == (RtcConfiguration { ice_servers: builder@.ice_servers, ..self@ }),
    {
        let mut inner = self.inner;
        inner.ice_servers.push(server);
        RtcConfigurationBuilder { inner }
    }

    /// Appends `cert` to the certificates; every other setting stays as it was.
    pub fn certificate(self, cert: CertificateConfig) -> (builder: Self)
        ensures
            step_result(self@, BuilderStep::Certificate(cert), builder@),
            builder@.certificates@ == self@.certificates@.push(cert),
            builder@ == (RtcConfiguration { certificates: builder@.certificates, ..self@ }),
    {
        let mut inner = self.inner;
        inner.certificates.push(cert);
        RtcConfigurationBuilder { inner }
    }

    /// Sets the RTP port range to `start..=end`; every other setting stays as
    /// it was.
    pub fn rtp_port_range(self, start: u16, end: u16) -> (builder: Self)
        ensures
            step_result(self@, BuilderStep::RtpPortRange(start, end), builder@),
            builder@ == (RtcConfiguration {
                rtp_start_port: Some(start),
                rtp_end_port: Some(end),
                ..self@
            }),
    {
        RtcConfigurationBuilder {
            inner: RtcConfiguration {
                rtp_start_port: Some(start),
                rtp_end_port: Some(end),
                ..self.inner
            },
        }
    }

    /// Sets `enable_latching`; every other setting stays as it was.
    pub fn enable_latching(self, enable: bool) -> (builder: Self)
        ensures
            step_result(self@, BuilderStep::EnableLatching(enable), builder@),
            builder@ == (RtcConfiguration { enable_latching: enable, ..self@ }),
    {
        RtcConfigurationBuilder { inner: RtcConfiguration { enable_latching: enable, ..self.inner } }
    }

    /// Sets `enable_ice_lite`; every other setting stays as it was.
    pub fn enable_ice_lite(self, enable: bool) -> (builder: Self)
        ensures
            step_result(self@, BuilderStep::EnableIceLite(enable), builder@),
            builder@ == (RtcConfiguration { enable_ice_lite: enable, ..self@ }),
    {
        RtcConfigurationBuilder { inner: RtcConfiguration { enable_ice_lite: enable, ..self.inner } }
    }

    /// Sets `filter_private_host_candidates`; every other setting stays as it was.
    pub fn filter_private_host_candidates(self, enable: bool) -> (builder: Self)
        ensures
            step_result(self@, BuilderStep::FilterPrivateHostCandidates(enable), builder@),
            builder@ == (RtcConfiguration { filter_private_host_candidates: enable, ..self@ }),
    {
        RtcConfigurationBuilder { inner: RtcConfiguration { filter_private_host_candidates: enable, ..self.inner } }
    }

    /// Sets `ice_transport_policy`; every other setting stays as it was.
    pub fn ice_transport_policy(self, policy: IceTransportPolicy) -> (builder: Self)
        ensures
            step_result(self@, BuilderStep::IceTransportPolicy(policy), builder@),
            builder@ == (RtcConfiguration { ice_transport_policy: policy, ..self@ }),
    {
        RtcConfigurationBuilder { inner: RtcConfiguration { ice_transport_policy: policy, ..self.inner } }
    }

    /// Sets `bundle_policy`; every other setting stays as it was.
    pub fn bundle_policy(self, policy: BundlePolicy) -> (builder: Self)
        ensures
            step_result(self@, BuilderStep::BundlePolicy(policy), builder@),
            builder@ == (RtcConfiguration { bundle_policy: policy, ..self@ }),
    {
        RtcConfigurationBuilder { inner: RtcConfiguration { bundle_policy: policy, ..self.inner } }
    }

    /// Sets `rtcp_mux_policy`; every other setting stays as it was.
    pub fn rtcp_mux_policy(self, policy: RtcpMuxPolicy) -> (builder: Self)
        ensures
            step_result(self@, BuilderStep::RtcpMuxPolicy(policy), builder@),
            builder@ == (RtcConfiguration { rtcp_mux_policy: policy, ..self@ }),
    {
        RtcConfigurationBuilder { inner: RtcConfiguration { rtcp_mux_policy: policy, ..self.inner } }
    }

    /// Sets `transport_mode`; every other setting stays as it was.
    pub fn transport_mode(self, mode: TransportMode) -> (builder: Self)
        ensures
            step_result(self@, BuilderStep::TransportMode(mode), builder@),
            builder@ == (RtcConfiguration { transport_mode: mode, ..self@ }),
    {
        RtcConfigurationBuilder { inner: RtcConfiguration { transport_mode: mode, ..self.inner } }
    }

    /// Sets `media_capabilities`; every other setting stays as it was.
    pub fn media_capabilities(self, capabilities: MediaCapabilities) -> (builder: Self)
        ensures
            step_result(self@, BuilderStep::MediaCapabilities(capabilities), builder@),
            builder@ == (RtcConfiguration { media_capabilities: Some(capabilities), ..self@ }),
    {
        RtcConfigurationBuilder { inner: RtcConfiguration { media_capabilities: Some(capabilities), ..self.inner } }
    }

    /// Sets `external_ip`; every other setting stays as it was.
    pub fn external_ip(self, ip: String) -> (builder: Self)
        ensures
            step_result(self@, BuilderStep::ExternalIp(ip), builder@),
            builder@ == (RtcConfiguration { external_ip: Some(ip), ..self@ }),
    {
        RtcConfigurationBuilder { inner: RtcConfiguration { external_ip: Some(ip), ..self.inner } }
    }

    /// Sets `bind_ip`; every other setting stays as it was.
    pub fn bind_ip(self, ip: String) -> (builder: Self)
        ensures
            step_result(self@, BuilderStep::BindIp(ip), builder@),
            builder@ == (RtcConfiguration { bind_ip: Some(ip), ..self@ }),
    {
        RtcConfigurationBuilder { inner: RtcConfiguration { bind_ip: Some(ip), ..self.inner } }
    }

    /// Sets `disable_ipv6`; every other setting stays as it was.
    pub fn disable_ipv6(self, disable: bool) -> (builder: Self)
        ensures
            step_result(self@, BuilderStep::DisableIpv6(disable), builder@),
            builder@ == (RtcConfiguration { disable_ipv6: disable, ..self@ }),
    {
        RtcConfigurationBuilder { inner: RtcConfiguration { disable_ipv6: disable, ..self.inner } }
    }

    /// Sets `ssrc_start`; every other setting stays as it was.
    pub fn ssrc_start(self, start: u32) -> (builder: Self)
        ensures
            step_result(self@, BuilderStep::SsrcStart(start), builder@),
            builder@ == (RtcConfiguration { ssrc_start: start, ..self@ }),
    {
        RtcConfigurationBuilder { inner: RtcConfiguration { ssrc_start: start, ..self.inner } }
    }

    /// Sets `stun_timeout`; every other setting stays as it was.
    pub fn stun_timeout(self, timeout: Duration) -> (builder: Self)
        ensures
            step_result(self@, BuilderStep::StunTimeout(timeout), builder@),
            builder@ == (RtcConfiguration { stun_timeout: timeout, ..self@ }),
    {
        RtcConfigurationBuilder { inner: RtcConfiguration { stun_timeout: timeout, ..self.inner } }
    }

    /// Sets `nomination_timeout`; every other setting stays as it was.
    pub fn nomination_timeout(self, timeout: Duration) -> (builder: Self)
        ensures
            step_result(self@, BuilderStep::NominationTimeout(timeout), builder@),
            builder@ == (RtcConfiguration { nomination_timeout: timeout, ..self@ }),
    {
        RtcConfigurationBuilder { inner: RtcConfiguration { nomination_timeout: timeout, ..self.inner } }
    }

    /// Sets `dtls_buffer_size`; every other setting stays as it was.
    pub fn dtls_buffer_size(self, size: usize) -> (builder: Self)
        ensures
            step_result(self@, BuilderStep::DtlsBufferSize(size), builder@),
            builder@ == (RtcConfiguration { dtls_buffer_size: size, ..self@ }),
    {
        RtcConfigurationBuilder { inner: RtcConfiguration { dtls_buffer_size: size, ..self.inner } }
    }

    /// Sets `sctp_rto_initial`; every other setting stays as it was.
    pub fn sctp_rto_initial(self, duration: Duration) -> (builder: Self)
        ensures
            step_result(self@, BuilderStep::SctpRtoInitial(duration), builder@),
            builder@ == (RtcConfiguration { sctp_rto_initial: duration, ..self@ }),
    {
        RtcConfigurationBuilder { inner: RtcConfiguration { sctp_rto_initial: duration, ..self.inner } }
    }

    /// Sets `sctp_rto_min`; every other setting stays as it was.
    pub fn sctp_rto_min(self, duration: Duration) -> (builder: Self)
        ensures
            step_result(self@, BuilderStep::SctpRtoMin(duration), builder@),
            builder@ == (RtcConfiguration { sctp_rto_min: duration, ..self@ }),
    {
        RtcConfigurationBuilder { inner: RtcConfiguration { sctp_rto_min: duration, ..self.inner } }
    }

    /// Sets `sctp_rto_max`; every other setting stays as it was.
    pub fn sctp_rto_max(self, duration: Duration) -> (builder: Self)
        ensures
            step_result(self@, BuilderStep::SctpRtoMax(duration), builder@),
            builder@ == (RtcConfiguration { sctp_rto_max: duration, ..self@ }),
    {
        RtcConfigurationBuilder { inner: RtcConfiguration { sctp_rto_max: duration, ..self.inner } }
    }

    /// Sets `sctp_max_association_retransmits`; every other setting stays as it was.
    pub fn sctp_max_association_retransmits(self, count: u32) -> (builder: Self)
        ensures
            step_result(self@, BuilderStep::SctpMaxAssociationRetransmits(count), builder@),
            builder@ == (RtcConfiguration { sctp_max_association_retransmits: count, ..self@ }),
    {
        RtcConfigurationBuilder { inner: RtcConfiguration { sctp_max_association_retransmits: count, ..self.inner } }
    }

    /// Sets `sctp_receive_window`; every other setting stays as it was.
    pub fn sctp_receive_window(self, size: usize) -> (builder: Self)
        ensures
            step_result(self@, BuilderStep::SctpReceiveWindow(size), builder@),
            builder@ == (RtcConfiguration { sctp_receive_window: size, ..self@ }),
    {
        RtcConfigurationBuilder { inner: RtcConfiguration { sctp_receive_window: size, ..self.inner } }
    }

    /// Sets `sctp_heartbeat_interval`; every other setting stays as it was.
    pub fn sctp_heartbeat_interval(self, duration: Duration) -> (builder: Self)
        ensures
            step_result(self@, BuilderStep::SctpHeartbeatInterval(duration), builder@),
            builder@ == (RtcConfiguration { sctp_heartbeat_interval: duration, ..self@ }),
    {
        RtcConfigurationBuilder { inner: RtcConfiguration { sctp_heartbeat_interval: duration, ..self.inner } }
    }

    /// Sets `sctp_max_heartbeat_failures`; every other setting stays as it was.
    pub fn sctp_max_heartbeat_failures(self, count: u32) -> (builder: Self)
        ensures
            step_result(self@, BuilderStep::SctpMaxHeartbeatFailures(count), builder@),
            builder@ == (RtcConfiguration { sctp_max_heartbeat_failures: count, ..self@ }),
    {
        RtcConfigurationBuilder { inner: RtcConfiguration { sctp_max_heartbeat_failures: count, ..self.inner } }
    }

    /// Enable verbose SCTP diagnostics at `info` level (target: `rustrtc::sctp_diag`).
    pub fn sctp_diag_enabled(self, enable: bool) -> (builder: Self)
        ensures
            step_result(self@, BuilderStep::SctpDiagEnabled(enable), builder@),
            builder@ == (RtcConfiguration { sctp_diag_enabled: enable, ..self@ }),
    {
        RtcConfigurationBuilder { inner: RtcConfiguration { sctp_diag_enabled: enable, ..self.inner } }
    }

    /// Disable SACK signature gating and count missing reports even on duplicate SACKs.
    pub fn sctp_no_sack_sig_gating(self, enable: bool) -> (builder: Self)
        ensures
            step_result(self@, BuilderStep::SctpNoSackSigGating(enable), builder@),
            builder@ == (RtcConfiguration { sctp_no_sack_sig_gating: enable, ..self@ }),
    {
        RtcConfigurationBuilder { inner: RtcConfiguration { sctp_no_sack_sig_gating: enable, ..self.inner } }
    }

    /// Set the initial SCTP congestion window (cwnd) in bytes.
    /// `0` means "use the library default".
    pub fn sctp_initial_cwnd(self, bytes: usize) -> (builder: Self)
        ensures
            step_result(self@, BuilderStep::SctpInitialCwnd(bytes), builder@),
            builder@ == (RtcConfiguration { sctp_initial_cwnd: bytes, ..self@ }),
    {
        RtcConfigurationBuilder { inner: RtcConfiguration { sctp_initial_cwnd: bytes, ..self.inner } }
    }

    /// Set the maximum cwnd increase per SACK during slow start, in bytes.
    /// `0` means "use the effective initial cwnd".
    pub fn sctp_slow_start_increase_cap(self, bytes: usize) -> (builder: Self)
        ensures
            step_result(self@, BuilderStep::SctpSlowStartIncreaseCap(bytes), builder@),
            builder@ == (RtcConfiguration { sctp_slow_start_increase_cap: bytes, ..self@ }),
    {
        RtcConfigurationBuilder { inner: RtcConfiguration { sctp_slow_start_increase_cap: bytes, ..self.inner } }
    }

    /// Set the divisor for gap-SACK delay: `delay = srtt / divisor` (clamped internally).
    /// `0` disables the gap-SACK delay (SACKs are sent immediately).
    pub fn sctp_gap_sack_delay_srtt_divisor(self, divisor: u32) -> (builder: Self)
        ensures
            step_result(self@, BuilderStep::SctpGapSackDelaySrttDivisor(divisor), builder@),
            builder@ == (RtcConfiguration { sctp_gap_sack_delay_srtt_divisor: divisor, ..self@ }),
    {
        RtcConfigurationBuilder { inner: RtcConfiguration { sctp_gap_sack_delay_srtt_divisor: divisor, ..self.inner } }
    }

    /// Set the maximum burst size for SCTP in number of MTU-sized packets.
    /// 0 means use the default heuristic (16 packets normal, 4 in recovery),
    /// unless `sctp_unlimited_burst_non_recovery` is enabled.
    /// For rate-limited TURN relays, a value of 2-4 can reduce burst-induced
    /// packet loss.
    pub fn sctp_max_burst(self, packets: usize) -> (builder: Self)
        ensures
            step_result(self@, BuilderStep::SctpMaxBurst(packets), builder@),
            builder@ == (RtcConfiguration { sctp_max_burst: packets, ..self@ }),
    {
        RtcConfigurationBuilder { inner: RtcConfiguration { sctp_max_burst: packets, ..self.inner } }
    }

    /// If true and `sctp_max_burst == 0`, disable burst limiting outside of
    /// loss recovery.
    pub fn sctp_unlimited_burst_non_recovery(self, enable: bool) -> (builder: Self)
        ensures
            step_result(self@, BuilderStep::SctpUnlimitedBurstNonRecovery(enable), builder@),
            builder@ == (RtcConfiguration { sctp_unlimited_burst_non_recovery: enable, ..self@ }),
    {
        RtcConfigurationBuilder { inner: RtcConfiguration { sctp_unlimited_burst_non_recovery: enable, ..self.inner } }
    }

    /// Set the maximum congestion window size in bytes.
    /// Default is 256 KB. For high-latency TURN relays, consider 512KB-1MB.
    pub fn sctp_max_cwnd(self, size: usize) -> (builder: Self)
        ensures
            step_result(self@, BuilderStep::SctpMaxCwnd(size), builder@),
            builder@ == (RtcConfiguration { sctp_max_cwnd: size, ..self@ }),
    {
        RtcConfigurationBuilder { inner: RtcConfiguration { sctp_max_cwnd: size, ..self.inner } }
    }

    /// Sets `ice_connection_timeout`; every other setting stays as it was.
    pub fn ice_connection_timeout(self, timeout: Duration) -> (builder: Self)
        ensures
            step_result(self@, BuilderStep::IceConnectionTimeout(timeout), builder@),
            builder@ == (RtcConfiguration { ice_connection_timeout: timeout, ..self@ }),
    {
        RtcConfigurationBuilder { inner: RtcConfiguration { ice_connection_timeout: timeout, ..self.inner } }
    }

    /// The configuration built so far.
    pub fn build(self) -> (config: RtcConfiguration)
        ensures
            config == self@,
    {
        self.inner
    }
}

impl From<RtcConfigurationBuilder> for RtcConfiguration {
    fn from(builder: RtcConfigurationBuilder) -> (config: Self) {
        builder.build()
    }
}

impl vstd::std_specs::convert::FromSpecImpl<RtcConfigurationBuilder> for RtcConfiguration {
    open spec fn obeys_from_spec() -> bool {
        true
    }

    open spec fn from_spec(v: RtcConfigurationBuilder) -> RtcConfiguration {
        v@
    }
}

/// Converting a builder into a configuration gives exactly the configuration
/// that `build` returns for it.
pub proof fn lemma_from_builder_is_build(builder: RtcConfigurationBuilder)
    ensures
        <RtcConfiguration as vstd::std_specs::convert::FromSpec<RtcConfigurationBuilder>>::from_spec(builder) == builder@,
{
}

} // verus!
