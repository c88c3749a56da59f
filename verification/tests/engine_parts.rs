use rustpbx::engine::b2bua::{CallBridge, CallLeg, CallManager, CallState, DialogRole, InviteDialog};
use rustpbx::engine::config::Config;
use rustpbx::engine::logger::{
    format_auth_log_entry, format_sip_log_entry, format_system_log_entry, format_timestamp, log_auth_audit,
    log_sip_message, log_system_event,
};
use rustpbx::engine::rest::{hangup_call, list_calls, originate_call, system_info, OriginateRequest};
use rustpbx::engine::sbc::SbcPipeline;
use rustpbx::engine::store::{chrono_offset_secs, Extension};

fn bridge(id: &str) -> CallBridge {
    CallBridge::new(
        id.to_string(),
        CallLeg::new(InviteDialog { role: DialogRole::Uas }, "sip:100@pbx.local".to_string()),
        CallLeg::new(InviteDialog { role: DialogRole::Uac }, "sip:200@pbx.local".to_string()),
    )
}

#[test]
fn engine_config_defaults() {
    let c = Config::default();
    assert_eq!(c.sip.udp_bind_addr, "0.0.0.0:5060");
    assert_eq!(c.sip.domain, "pbx.local");
    assert!(c.sip.require_digest_auth);
    assert_eq!(c.api.http_bind_addr, "0.0.0.0:8085");
    assert_eq!(c.api.secret_key, "change-me-in-production");
    assert_eq!(c.database.db_path, "sqlite:data/rustpbx.db");
    assert_eq!(c.media_node.grpc_target_url, "http://127.0.0.1:50051");
}

#[test]
fn recording_and_auth_flags() {
    let mut e = Extension {
        id: 1,
        extension_number: "100".to_string(),
        password: "p".to_string(),
        display_name: "d".to_string(),
        email: None,
        record_calls: 1,
        is_active: 1,
        min_expires: 60,
        max_expires: 3600,
        auth_required: 1,
    };
    assert!(e.is_recording_enabled());
    assert!(e.is_auth_required());
    e.record_calls = 2;
    e.auth_required = 0;
    assert!(!e.is_recording_enabled());
    assert!(!e.is_auth_required());
}

#[test]
fn registration_expiry_timestamp() {
    assert_eq!(chrono_offset_secs(1_700_000_000, 3600), "1700003600");
    assert_eq!(chrono_offset_secs(0, 0), "0");
}

#[test]
fn call_legs_and_bridges() {
    let mut b = bridge("c1");
    assert_eq!(b.leg_a.role(), DialogRole::Uas);
    assert_eq!(b.leg_b.role(), DialogRole::Uac);
    assert_eq!(b.state, CallState::Initiating);
    assert_eq!(b.duration_secs(), 0);
    b.mark_answered();
    assert_eq!(b.state, CallState::Connected);
    assert!(b.answered_at.is_some());
    assert!(b.duration_secs() < 5);
}

#[test]
fn call_manager_insert_remove_count() {
    let mut m = CallManager::new();
    assert_eq!(m.active_call_count(), 0);
    m.insert_call(bridge("c1"));
    m.insert_call(bridge("c2"));
    m.insert_call(bridge("c1"));
    assert_eq!(m.active_call_count(), 2);
    assert_eq!(list_calls(&m), 2);
    let removed = m.remove_call("c1").expect("was active");
    assert_eq!(removed.call_id, "c1");
    assert!(m.remove_call("c1").is_none());
    assert_eq!(m.active_call_count(), 1);
}

#[test]
fn rest_answers() {
    let mut m = CallManager::default();
    m.insert_call(bridge("c9"));
    assert_eq!(hangup_call(&mut m, "c9"), 204);
    assert_eq!(hangup_call(&mut m, "c9"), 404);
    let r = originate_call(&OriginateRequest { from: "100".to_string(), to: "200".to_string() }, 12345);
    assert_eq!(r.call_id, "call-12345");
    assert_eq!(r.status, "initiating");
    let info = system_info(&m, "0.1.0");
    assert_eq!(info.active_calls, 0);
    assert_eq!(info.version, "0.1.0");
}

#[test]
fn log_record_formats() {
    assert_eq!(format_timestamp(1700000000, 7), "[1700000000.007]");
    assert_eq!(format_timestamp(5, 123), "[5.123]");
    assert_eq!(format_timestamp(5, 45), "[5.045]");
    assert_eq!(
        format_sip_log_entry("[1.000]", "<<<", "10.0.0.2:5060", "OPTIONS"),
        format!("[1.000] <<< 10.0.0.2:5060\nOPTIONS\n{}\n", "-".repeat(40))
    );
    assert_eq!(format_auth_log_entry("[1.000]", "ok"), "[1.000] [AUTH] ok\n");
    assert_eq!(format_system_log_entry("[1.000]", "up"), "[1.000] [SYSTEM] up\n");
}

#[test]
fn log_records_now() {
    let s = log_sip_message(">>>", "peer", "BYE");
    assert!(s.starts_with('['));
    assert!(s.ends_with(&format!("] >>> peer\nBYE\n{}\n", "-".repeat(40))));
    assert!(log_auth_audit("e").ends_with("] [AUTH] e\n"));
    assert!(log_system_event("e").ends_with("] [SYSTEM] e\n"));
}

#[test]
fn sbc_leaves_messages_alone() {
    let _p = SbcPipeline::default();
}
