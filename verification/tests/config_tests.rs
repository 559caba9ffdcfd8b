use simadmin::config::{
    AppConfig, ApnConfig, ConfigManager, DdnsConfig, NotificationConfig, SecurityConfig,
    WebhookConfig, WorkMode,
};

#[test]
fn defaults_match_a_fresh_installation() {
    let c = AppConfig::default();
    assert!(c.roaming_allowed);
    assert!(!c.data_enabled);
    assert_eq!(c.work_mode, WorkMode::Sim);
    assert_eq!(c.esim.lpac_path, "/opt/simadmin/lpac/lpac");
    assert_eq!(c.apn.protocol, "dual");
    assert_eq!(c.apn.auth_method, "chap");
    assert_eq!(c.security.password_min_length, 8);
    assert_eq!(c.security.session_ttl_seconds, 604800);
    assert_eq!(c.security.idle_timeout_seconds, 3600);
    assert!(c.version_update_notifications.enabled);
    assert!(c.version_update_notifications.last_notified_version.is_none());
    assert_eq!(c.notifications.bark.server_url, "https://api.day.app");
    assert_eq!(c.notifications.pushplus.template, "txt");
    assert_eq!(c.notifications.wecom_app.to_user, "@all");
    assert_eq!(c.notifications.dingtalk_app.msg_key, "sampleText");
    assert!(c.notifications.telegram.disable_web_page_preview);
    assert_eq!(c.notifications.bark.title_template, "SimAdmin 短信通知");
    assert!(c.notifications.webhook.headers.is_empty());
    assert!(c.notifications.webhook.sms_template.contains("{{phone_number}}"));
    assert!(c.notifications.bark.common.sms_template.starts_with("📱 短信通知"));
}

#[test]
fn ddns_defaults() {
    let d = DdnsConfig::default();
    assert!(!d.enabled);
    assert_eq!(d.provider, "tencentcloud");
    assert_eq!(d.interval_seconds, 300);
    assert_eq!(d.ttl, 600);
    assert!(d.ipv4.enabled);
    assert_eq!(d.ipv4.get_type, "interface");
    assert_eq!(d.ipv4.urls.len(), 5);
    assert_eq!(d.ipv4.urls[0], "https://api.ipify.org");
    assert!(!d.ipv6.enabled);
    assert_eq!(d.ipv6.urls[1], "https://speed.neu6.edu.cn/getIP.php");
    assert!(d.ipv6.domains.is_empty());
}

#[test]
fn webhook_equality_compares_every_field() {
    let a = WebhookConfig::default();
    let mut b = WebhookConfig::default();
    assert!(a == b);
    b.headers.insert("X-Token".to_string(), "1".to_string());
    assert!(a != b);
    let mut c = WebhookConfig::default();
    c.url = "https://example.org/hook".to_string();
    assert!(a != c);
}

#[test]
fn manager_without_saved_configuration_uses_defaults() {
    let m = ConfigManager::new(None, "/data/config.json".to_string());
    assert!(m.get_roaming_allowed());
    assert!(!m.get_data_enabled());
    assert_eq!(m.config_path(), "/data/config.json");
    assert_eq!(m.get_work_mode(), WorkMode::Sim);
    assert_eq!(m.get_security().password_min_length, 8);
}

#[test]
fn legacy_webhook_moves_into_unset_channel() {
    let mut c = AppConfig::default();
    c.webhook.enabled = true;
    c.webhook.url = "https://legacy.example/hook".to_string();
    let m = ConfigManager::new(Some(c), "cfg.json".to_string());
    let n = m.get_notifications();
    assert!(n.webhook.enabled);
    assert_eq!(n.webhook.url, "https://legacy.example/hook");
    assert!(m.app_config().webhook == n.webhook);
}

#[test]
fn configured_channel_wins_over_legacy_webhook() {
    let mut c = AppConfig::default();
    c.webhook.url = "https://legacy.example/hook".to_string();
    c.notifications.webhook.url = "https://new.example/hook".to_string();
    let m = ConfigManager::new(Some(c), "cfg.json".to_string());
    assert_eq!(m.get_notifications().webhook.url, "https://new.example/hook");
    assert_eq!(m.app_config().webhook.url, "https://new.example/hook");
}

#[test]
fn migration_twice_changes_nothing_more() {
    let mut c = AppConfig::default();
    c.webhook.secret = "s".to_string();
    let first = ConfigManager::new(Some(c), "cfg.json".to_string());
    let again = ConfigManager::new(Some(first.app_config().clone()), "cfg.json".to_string());
    assert!(again.app_config().webhook == first.app_config().webhook);
    assert!(again.get_notifications().webhook == first.get_notifications().webhook);
    assert_eq!(again.get_notifications().webhook.secret, "s");
}

#[test]
fn settings_read_back_as_written() {
    let mut m = ConfigManager::new(None, "cfg.json".to_string());
    m.set_data_enabled(true);
    assert!(m.get_data_enabled());
    m.set_roaming_allowed(false);
    assert!(!m.get_roaming_allowed());
    m.set_work_mode(WorkMode::Esim);
    assert_eq!(m.get_work_mode(), WorkMode::Esim);
    let mut apn = ApnConfig::default();
    apn.apn = "cmnet".to_string();
    m.set_apn_config(apn);
    assert_eq!(m.get_apn_config().apn, "cmnet");
    let mut s = SecurityConfig::default();
    s.password_min_length = 12;
    m.set_security(s);
    assert_eq!(m.get_security().password_min_length, 12);
    let mut d = DdnsConfig::default();
    d.enabled = true;
    d.ipv4.domains.push("home.example.org".to_string());
    m.set_ddns_config(d);
    assert!(m.get_ddns_config().enabled);
    assert_eq!(m.get_device_network().ddns.ipv4.domains, vec!["home.example.org".to_string()]);
    m.set_last_notified_update_version("v1.2.3".to_string());
    assert_eq!(
        m.get_version_update_notifications().last_notified_version,
        Some("v1.2.3".to_string())
    );
    assert!(m.get_data_enabled());
    assert_eq!(m.get_esim_config().lpac_path, "/opt/simadmin/lpac/lpac");
}

#[test]
fn new_channel_settings_keep_legacy_section_in_step() {
    let mut m = ConfigManager::new(None, "cfg.json".to_string());
    let mut n = NotificationConfig::default();
    n.webhook.enabled = true;
    n.webhook.url = "https://hook.example".to_string();
    n.telegram.chat_id = "42".to_string();
    m.set_notifications(n);
    assert_eq!(m.get_notifications().telegram.chat_id, "42");
    assert_eq!(m.app_config().webhook.url, "https://hook.example");
    assert!(m.app_config().webhook == m.get_notifications().webhook);
}

#[test]
fn migrating_a_migrated_configuration_changes_nothing() {
    let mut c = AppConfig::default();
    c.webhook.url = "https://legacy.example/hook".to_string();
    simadmin::config::migrate_legacy_webhook_config(&mut c);
    let once = c.clone();
    simadmin::config::migrate_legacy_webhook_config(&mut c);
    assert!(c.webhook == once.webhook);
    assert!(c.notifications.webhook == once.notifications.webhook);
    assert_eq!(c.notifications.webhook.url, "https://legacy.example/hook");
}
