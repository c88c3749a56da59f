use rustpbx::admin::config::Config as AdminConfig;
use rustpbx::admin::dialplan::{active_column, new_dialplan_rule_from, rule_exists, CreateDialplanRuleRequest, DialplanRule};
use rustpbx::admin::extensions::{
    build_extension_update, new_extension_from, CreateExtensionRequest, SqlValue, UpdateExtensionRequest,
};
use rustpbx::admin::static_files::{normalize_asset_path, static_handler, StaticReply};
use rustpbx::admin::system::dashboard_metrics;
use rustpbx::admin::trunks::{new_trunk_from, CreateTrunkRequest};

fn empty_update() -> UpdateExtensionRequest {
    UpdateExtensionRequest {
        password: None,
        display_name: None,
        email: None,
        record_calls: None,
        is_active: None,
        qualify_frequency: None,
        nat_mode: None,
        min_expires: None,
        max_expires: None,
        auth_required: None,
        max_concurrent_logins: None,
        allowed_transport: None,
    }
}

fn create(number: &str, password: Option<&str>) -> CreateExtensionRequest {
    CreateExtensionRequest {
        extension_number: number.to_string(),
        password: password.map(|p| p.to_string()),
        display_name: "Front desk".to_string(),
        email: None,
        record_calls: None,
        qualify_frequency: None,
        nat_mode: None,
        min_expires: None,
        max_expires: None,
        auth_required: None,
        max_concurrent_logins: None,
        allowed_transport: None,
    }
}

#[test]
fn admin_config_defaults() {
    let c = AdminConfig::default();
    assert_eq!(c.server.http_bind_addr, "0.0.0.0:8088");
    assert_eq!(c.database.db_path, "sqlite:data/rustpbx.db");
}

#[test]
fn new_extension_defaults() {
    let e = new_extension_from(create("101", None));
    assert_eq!(e.password, "101100");
    assert_eq!(e.record_calls, 0);
    assert_eq!(e.qualify_frequency, 60);
    assert_eq!(e.nat_mode, "auto");
    assert_eq!(e.min_expires, 60);
    assert_eq!(e.max_expires, 3600);
    assert_eq!(e.auth_required, 1);
    assert_eq!(e.max_concurrent_logins, 1);
    assert_eq!(e.allowed_transport, "udp,tcp,tls,ws");
    assert_eq!(e.display_name, "Front desk");
}

#[test]
fn new_extension_password_rules() {
    assert_eq!(new_extension_from(create("101", Some("  \t"))).password, "101100");
    assert_eq!(new_extension_from(create("101", Some(" s3cret "))).password, " s3cret ");
    let mut req = create("102", Some("pw"));
    req.record_calls = Some(true);
    req.auth_required = Some(false);
    req.nat_mode = Some("force_rport".to_string());
    let e = new_extension_from(req);
    assert_eq!(e.record_calls, 1);
    assert_eq!(e.auth_required, 0);
    assert_eq!(e.nat_mode, "force_rport");
}

#[test]
fn extension_update_statement() {
    assert!(build_extension_update(&empty_update(), 7).is_none());
    let mut u = empty_update();
    u.display_name = Some("Lobby".to_string());
    u.record_calls = Some(true);
    u.max_expires = Some(1800);
    let s = build_extension_update(&u, 7).expect("changes");
    assert_eq!(s.sql, "UPDATE extensions SET display_name = ?, record_calls = ?, max_expires = ? WHERE id = ?");
    assert_eq!(s.binds.len(), 4);
    assert!(matches!(&s.binds[0], SqlValue::Text(t) if t == "Lobby"));
    assert!(matches!(s.binds[1], SqlValue::Int(1)));
    assert!(matches!(s.binds[2], SqlValue::Int(1800)));
    assert!(matches!(s.binds[3], SqlValue::Int(7)));
    assert_eq!(s.sql.matches('?').count(), s.binds.len());
}

#[test]
fn extension_update_all_fields_in_order() {
    let u = UpdateExtensionRequest {
        password: Some("p".to_string()),
        display_name: Some("d".to_string()),
        email: Some("e@x".to_string()),
        record_calls: Some(false),
        is_active: Some(true),
        qualify_frequency: Some(30),
        nat_mode: Some("no".to_string()),
        min_expires: Some(10),
        max_expires: Some(20),
        auth_required: Some(true),
        max_concurrent_logins: Some(3),
        allowed_transport: Some("udp".to_string()),
    };
    let s = build_extension_update(&u, 1).unwrap();
    assert_eq!(
        s.sql,
        "UPDATE extensions SET display_name = ?, password = ?, email = ?, record_calls = ?, is_active = ?, qualify_frequency = ?, nat_mode = ?, min_expires = ?, max_expires = ?, auth_required = ?, max_concurrent_logins = ?, allowed_transport = ? WHERE id = ?"
    );
    assert_eq!(s.binds.len(), 13);
    assert!(matches!(s.binds[3], SqlValue::Int(0)));
}

#[test]
fn extension_update_placeholders_match_binds() {
    let mut u = empty_update();
    u.email = Some("what?".to_string());
    u.min_expires = Some(30);
    u.is_active = Some(false);
    let s = build_extension_update(&u, 9).unwrap();
    assert_eq!(s.sql.matches('?').count(), s.binds.len());
    assert_eq!(s.binds.len(), 4);
    assert!(matches!(s.binds[3], SqlValue::Int(9)));
}

#[test]
fn dialplan_and_trunk_defaults() {
    let r = new_dialplan_rule_from(CreateDialplanRuleRequest {
        rule_name: "local".to_string(),
        pattern: "^1\\d\\d$".to_string(),
        destination_type: "extension".to_string(),
        destination_target: "100".to_string(),
        priority: None,
    });
    assert_eq!(r.priority, 1);
    assert_eq!(active_column(Some(true)), Some(1));
    assert_eq!(active_column(Some(false)), Some(0));
    assert_eq!(active_column(None), None);
    let t = new_trunk_from(CreateTrunkRequest {
        trunk_name: "carrier".to_string(),
        sip_server: "sip.example.net".to_string(),
        port: None,
        auth_username: None,
        auth_password: None,
    });
    assert_eq!(t.port, 5060);
}

#[test]
fn dashboard_statuses() {
    let d = dashboard_metrics(3, true, false, false);
    assert_eq!(d.total_registered_subscribers, 3);
    assert_eq!(d.active_calls, 0);
    assert_eq!(d.database_status, "Healthy (SQLite WAL)");
    let st: Vec<&str> = d.services.iter().map(|s| s.status).collect();
    assert_eq!(st, vec!["running", "stopped", "running", "standby"]);
    assert_eq!(d.services[0].name, "sip-engine (Core B2BUA)");
    assert_eq!(d.services[3].port, "8089 WSS");
}

#[test]
fn asset_paths() {
    assert_eq!(normalize_asset_path("/"), "index.html");
    assert_eq!(normalize_asset_path("/index.html"), "index.html");
    assert_eq!(normalize_asset_path("//static/static/app.js"), "app.js");
    assert_eq!(normalize_asset_path("/extensions"), "extensions");
    assert_eq!(normalize_asset_path("/statics/x.css"), "statics/x.css");
}

#[test]
fn static_replies() {
    match static_handler("/static/style.css", Some(b"body{}".to_vec()), None) {
        StaticReply::Asset { content_type, body } => {
            assert_eq!(content_type, "text/css");
            assert_eq!(body, b"body{}".to_vec());
        }
        _ => panic!("asset not served"),
    }
    match static_handler("/", Some(b"<html>".to_vec()), None) {
        StaticReply::Asset { content_type, .. } => assert_eq!(content_type, "text/html"),
        _ => panic!("index not served"),
    }
    assert!(matches!(static_handler("/trunks", None, Some(b"<html>".to_vec())), StaticReply::SpaIndex { .. }));
    assert!(matches!(static_handler("/missing.png", None, Some(b"<html>".to_vec())), StaticReply::NotFound));
    assert!(matches!(static_handler("/trunks", None, None), StaticReply::NotFound));
}

#[test]
fn dialplan_duplicates_are_found() {
    let rule = |name: &str, pattern: &str| DialplanRule {
        id: 1,
        rule_name: name.to_string(),
        pattern: pattern.to_string(),
        destination_type: "extension".to_string(),
        destination_target: "100".to_string(),
        priority: 1,
        is_active: 1,
    };
    let rules = vec![rule("local", "^1..$"), rule("out", "^9.*")];
    assert!(rule_exists(&rules, "local", "^1..$"));
    assert!(!rule_exists(&rules, "local", "^9.*"));
    assert!(!rule_exists(&rules, "other", "^1..$"));
    assert!(!rule_exists(&Vec::new(), "local", "^1..$"));
}
