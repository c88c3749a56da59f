use rustpbx::gateway::config::Config as GatewayConfig;
use rustpbx::gateway::signaling::{acknowledgement, handle_frame, FrameKind, GatewayAction};
use rustpbx::media::config::Config as MediaConfig;
use rustpbx::media::recorder::{AudioFormat, AudioRecorder};
use rustpbx::media::relay::{relay_packet, wants_remote_target, PeerAddr};
use rustpbx::media::service::{
    allocation_response, release_response, session_id_for, start_recording, PortAllocator, StartRecordingRequest,
};

fn v4(last: u8, port: u16) -> PeerAddr {
    PeerAddr::V4 { ip: u32::from_be_bytes([10, 0, 0, last]), port }
}

#[test]
fn media_config_defaults() {
    let c = MediaConfig::default();
    assert_eq!(c.server.grpc_bind_addr, "127.0.0.1:50051");
    assert_eq!(c.rtp.bind_ip, "0.0.0.0");
    assert_eq!(c.rtp.port_range_start, 10000);
    assert_eq!(c.rtp.port_range_end, 20000);
    assert_eq!(c.storage.recording_dir, "/var/lib/rustpbx/recordings");
}

#[test]
fn recorder_keeps_its_settings() {
    let r = AudioRecorder::new("sess-1".to_string(), AudioFormat::Wav, "/tmp/a.wav".to_string());
    assert_eq!(r.session_id, "sess-1");
    assert_eq!(r.format, AudioFormat::Wav);
    assert_eq!(r.output_path, "/tmp/a.wav");
}

#[test]
fn ports_advance_by_two_and_wrap_in_range() {
    let mut a = PortAllocator::new(10000, 10005);
    assert_eq!(a.allocate(), 10000);
    assert_eq!(a.allocate(), 10002);
    assert_eq!(a.allocate(), 10004);
    assert_eq!(a.allocate(), 10000);
    let mut b = PortAllocator::new(65530, 65535);
    assert_eq!(b.allocate(), 65530);
    assert_eq!(b.allocate(), 65532);
    assert_eq!(b.allocate(), 65534);
    assert_eq!(b.allocate(), 65530);
}

#[test]
fn relay_learns_target_and_never_echoes() {
    let a = v4(1, 4000);
    let b = v4(2, 4002);
    let d = relay_packet(None, a);
    assert_eq!(d.target, Some(a));
    assert_eq!(d.forward_to, None);
    let d = relay_packet(Some(a), b);
    assert_eq!(d.target, Some(a));
    assert_eq!(d.forward_to, Some(a));
    let d = relay_packet(Some(a), a);
    assert_eq!(d.forward_to, None);
}

#[test]
fn remote_target_needs_address_and_port() {
    assert!(wants_remote_target("10.0.0.1", 4000));
    assert!(!wants_remote_target("", 4000));
    assert!(!wants_remote_target("10.0.0.1", 0));
}

#[test]
fn service_answers() {
    assert_eq!(session_id_for("abc"), "sess-abc");
    let r = allocation_response("sess-abc".to_string(), &"0.0.0.0".to_string(), 10002);
    assert_eq!(r.local_port, 10002);
    assert_eq!(r.local_ip, "0.0.0.0");
    assert!(r.success);
    assert!(!release_response(false).success);
    let s = start_recording(&StartRecordingRequest {
        session_id: "sess-abc".to_string(),
        format: "wav".to_string(),
        file_path: "/rec/a.wav".to_string(),
    });
    assert!(s.success);
    assert_eq!(s.message, "Recording started at /rec/a.wav");
}

#[test]
fn gateway_config_defaults() {
    let c = GatewayConfig::default();
    assert_eq!(c.server.wss_bind_addr, "0.0.0.0:8089");
    assert_eq!(c.sip_engine.sip_udp_target, "127.0.0.1:5060");
}

#[test]
fn gateway_frames() {
    assert_eq!(handle_frame(FrameKind::Text), GatewayAction::Acknowledge);
    assert_eq!(handle_frame(FrameKind::Close), GatewayAction::Stop);
    assert_eq!(handle_frame(FrameKind::Binary), GatewayAction::Ignore);
    assert_eq!(handle_frame(FrameKind::Ping), GatewayAction::Ignore);
}

#[test]
fn gateway_acknowledgement_is_json() {
    let v: serde_json::Value = serde_json::from_str(&acknowledgement()).expect("json");
    assert_eq!(v["type"], "ack");
    assert_eq!(v["status"], "connected");
    assert_eq!(v["message"], "RustPBX WebRTC Gateway ready for SDP offer");
}
