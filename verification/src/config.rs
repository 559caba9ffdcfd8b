//! Persistent application settings: the configuration tree, its defaults,
//! the migration of the legacy webhook section and the in-memory manager
//! that the console reads and updates.

use std::collections::HashMap;
use vstd::prelude::*;

verus! {

pub const SMS_TEMPLATE: &'static str = r#"{
  "msg_type": "text",
  "content": {
    "text": "📱 短信通知\n发送方: {{phone_number}}\n内容: {{content}}\n时间: {{timestamp}}\n本机号码: {{own_number}}"
  }
}"#;

pub const CALL_TEMPLATE: &'static str = r#"{
  "msg_type": "text",
  "content": {
    "text": "📞 来电通知\n号码: {{phone_number}}\n类型: {{direction}}\n时间: {{start_time}}\n时长: {{duration}}秒\n已接听: {{answered}}"
  }
}"#;

pub const DDNS_TEMPLATE: &'static str = r#"{
  "msg_type": "text",
  "content": {
    "text": "SimAdmin DDNS 通知\n域名: {{domains}}\nIP类型: {{ip_type}}\n新IP: {{new_ip}}\n旧IP: {{old_ip}}\n服务商: {{provider}}\n记录类型: {{record_type}}\n状态: {{status}}\n消息: {{message}}\n更新时间: {{timestamp}}"
  }
}"#;

pub const UPDATE_TEMPLATE: &'static str = r#"{
  "msg_type": "text",
  "content": {
    "text": "SimAdmin 发现新版本\n固件包: {{asset_name}}\n版本号: {{version}}\nCommit: {{commit}}\n构建时间: {{build_time}}\nOTA包 MD5: {{md5}}\n\n请前往 OTA 在线更新模块检测版本，一键下载并升级。"
  }
}"#;

pub const PLAIN_SMS_TEMPLATE: &'static str = "📱 短信通知\n发送方: {{phone_number}}\n内容: {{content}}\n时间: {{timestamp}}\n本机号码: {{own_number}}";

pub const PLAIN_CALL_TEMPLATE: &'static str = "📞 来电通知\n号码: {{phone_number}}\n类型: {{direction}}\n时间: {{start_time}}\n时长: {{duration}}秒\n已接听: {{answered}}";

pub const PLAIN_DDNS_TEMPLATE: &'static str = "SimAdmin DDNS 通知\n域名: {{domains}}\nIP类型: {{ip_type}}\n新IP: {{new_ip}}\n旧IP: {{old_ip}}\n服务商: {{provider}}\n记录类型: {{record_type}}\n状态: {{status}}\n消息: {{message}}\n更新时间: {{timestamp}}";

pub const PLAIN_UPDATE_TEMPLATE: &'static str = "SimAdmin 发现新版本\n固件包: {{asset_name}}\n版本号: {{version}}\nCommit: {{commit}}\n构建时间: {{build_time}}\nOTA包 MD5: {{md5}}\n\n请前往 OTA 在线更新模块检测版本，一键下载并升级。";
pub const SMS_TITLE_TEMPLATE: &'static str = "SimAdmin 短信通知";

pub const BARK_SERVER_URL: &'static str = "https://api.day.app";

pub const PUSHPLUS_TEMPLATE: &'static str = "txt";

pub const WECOM_TO_USER: &'static str = "@all";

pub const DINGTALK_MSG_KEY: &'static str = "sampleText";

pub const DDNS_PROVIDER: &'static str = "tencentcloud";

pub const DDNS_GET_TYPE: &'static str = "interface";

pub const APN_PROTOCOL: &'static str = "dual";

pub const APN_AUTH_METHOD: &'static str = "chap";

pub const LPAC_PATH: &'static str = "/opt/simadmin/lpac/lpac";

pub const DDNS_INTERVAL_SECONDS: u64 = 300;

pub const DDNS_TTL: u32 = 600;

pub const PASSWORD_MIN_LENGTH: u8 = 8;

pub const SESSION_TTL_SECONDS: i64 = 7 * 24 * 60 * 60;

pub const IDLE_TIMEOUT_SECONDS: i64 = 60 * 60;

/// Settings shared by every push channel: whether it is on, which events it forwards and the plain-text templates it renders.
#[derive(Debug)]
pub struct MessageChannelConfig {
    pub enabled: bool,
    pub forward_sms: bool,
    pub forward_calls: bool,
    pub forward_ddns: bool,
    pub forward_updates: bool,
    pub sms_template: String,
    pub call_template: String,
    pub ddns_template: String,
    pub update_template: String,
}

impl Clone for MessageChannelConfig {
    fn clone(&self) -> (res: Self)
        ensures
            res == *self,
    {
        MessageChannelConfig {
            enabled: self.enabled,
            forward_sms: self.forward_sms,
            forward_calls: self.forward_calls,
            forward_ddns: self.forward_ddns,
            forward_updates: self.forward_updates,
            sms_template: self.sms_template.clone(),
            call_template: self.call_template.clone(),
            ddns_template: self.ddns_template.clone(),
            update_template: self.update_template.clone(),
        }
    }
}

/// The Bark push channel.
#[derive(Debug)]
pub struct BarkConfig {
    pub common: MessageChannelConfig,
    pub server_url: String,
    pub device_key: String,
    pub title_template: String,
    pub group: String,
    pub sound: String,
    pub level: String,
    pub icon: String,
    pub click_url: String,
    pub copy: String,
    pub auto_copy: bool,
    pub save_history: bool,
}

impl Clone for BarkConfig {
    fn clone(&self) -> (res: Self)
        ensures
            res == *self,
    {
        BarkConfig {
            common: self.common.clone(),
            server_url: self.server_url.clone(),
            device_key: self.device_key.clone(),
            title_template: self.title_template.clone(),
            group: self.group.clone(),
            sound: self.sound.clone(),
            level: self.level.clone(),
            icon: self.icon.clone(),
            click_url: self.click_url.clone(),
            copy: self.copy.clone(),
            auto_copy: self.auto_copy,
            save_history: self.save_history,
        }
    }
}

/// The PushPlus push channel.
#[derive(Debug)]
pub struct PushPlusConfig {
    pub common: MessageChannelConfig,
    pub token: String,
    pub title_template: String,
    pub topic: String,
    pub template: String,
    pub channel: String,
    pub option: String,
    pub callback_url: String,
}

impl Clone for PushPlusConfig {
    fn clone(&self) -> (res: Self)
        ensures
            res == *self,
    {
        PushPlusConfig {
            common: self.common.clone(),
            token: self.token.clone(),
            title_template: self.title_template.clone(),
            topic: self.topic.clone(),
            template: self.template.clone(),
            channel: self.channel.clone(),
            option: self.option.clone(),
            callback_url: self.callback_url.clone(),
        }
    }
}

/// The WeCom application push channel.
#[derive(Debug)]
pub struct WecomAppConfig {
    pub common: MessageChannelConfig,
    pub corp_id: String,
    pub agent_id: String,
    pub secret: String,
    pub to_user: String,
    pub to_party: String,
    pub to_tag: String,
    pub safe: bool,
}

impl Clone for WecomAppConfig {
    fn clone(&self) -> (res: Self)
        ensures
            res == *self,
    {
        WecomAppConfig {
            common: self.common.clone(),
            corp_id: self.corp_id.clone(),
            agent_id: self.agent_id.clone(),
            secret: self.secret.clone(),
            to_user: self.to_user.clone(),
            to_party: self.to_party.clone(),
            to_tag: self.to_tag.clone(),
            safe: self.safe,
        }
    }
}

/// The WeCom group robot push channel.
#[derive(Debug)]
pub struct WecomRobotConfig {
    pub common: MessageChannelConfig,
    pub webhook_url: String,
    pub key: String,
}

impl Clone for WecomRobotConfig {
    fn clone(&self) -> (res: Self)
        ensures
            res == *self,
    {
        WecomRobotConfig {
            common: self.common.clone(),
            webhook_url: self.webhook_url.clone(),
            key: self.key.clone(),
        }
    }
}

/// The DingTalk group robot push channel.
#[derive(Debug)]
pub struct DingtalkRobotConfig {
    pub common: MessageChannelConfig,
    pub webhook_url: String,
    pub access_token: String,
    pub secret: String,
    pub at_mobiles: String,
    pub at_all: bool,
}

impl Clone for DingtalkRobotConfig {
    fn clone(&self) -> (res: Self)
        ensures
            res == *self,
    {
        DingtalkRobotConfig {
            common: self.common.clone(),
            webhook_url: self.webhook_url.clone(),
            access_token: self.access_token.clone(),
            secret: self.secret.clone(),
            at_mobiles: self.at_mobiles.clone(),
            at_all: self.at_all,
        }
    }
}

/// The DingTalk application push channel.
#[derive(Debug)]
pub struct DingtalkAppConfig {
    pub common: MessageChannelConfig,
    pub app_key: String,
    pub app_secret: String,
    pub robot_code: String,
    pub open_conversation_id: String,
    pub msg_key: String,
}

impl Clone for DingtalkAppConfig {
    fn clone(&self) -> (res: Self)
        ensures
            res == *self,
    {
        DingtalkAppConfig {
            common: self.common.clone(),
            app_key: self.app_key.clone(),
            app_secret: self.app_secret.clone(),
            robot_code: self.robot_code.clone(),
            open_conversation_id: self.open_conversation_id.clone(),
            msg_key: self.msg_key.clone(),
        }
    }
}

/// The Feishu group robot push channel.
#[derive(Debug)]
pub struct FeishuRobotConfig {
    pub common: MessageChannelConfig,
    pub webhook_url: String,
    pub token: String,
    pub secret: String,
}

impl Clone for FeishuRobotConfig {
    fn clone(&self) -> (res: Self)
        ensures
            res == *self,
    {
        FeishuRobotConfig {
            common: self.common.clone(),
            webhook_url: self.webhook_url.clone(),
            token: self.token.clone(),
            secret: self.secret.clone(),
        }
    }
}

/// The Telegram bot push channel.
#[derive(Debug)]
pub struct TelegramConfig {
    pub common: MessageChannelConfig,
    pub bot_token: String,
    pub chat_id: String,
    pub parse_mode: String,
    pub disable_web_page_preview: bool,
}

impl Clone for TelegramConfig {
    fn clone(&self) -> (res: Self)
        ensures
            res == *self,
    {
        TelegramConfig {
            common: self.common.clone(),
            bot_token: self.bot_token.clone(),
            chat_id: self.chat_id.clone(),
            parse_mode: self.parse_mode.clone(),
            disable_web_page_preview: self.disable_web_page_preview,
        }
    }
}

/// Notifications about new firmware releases.
#[derive(Debug)]
pub struct VersionUpdateNotificationConfig {
    pub enabled: bool,
    pub proxy_prefix: String,
    pub last_notified_version: Option<String>,
}

impl Clone for VersionUpdateNotificationConfig {
    fn clone(&self) -> (res: Self)
        ensures
            res == *self,
    {
        VersionUpdateNotificationConfig {
            enabled: self.enabled,
            proxy_prefix: self.proxy_prefix.clone(),
            last_notified_version: match &self.last_notified_version {
                Some(v) => Some(v.clone()),
                None => None,
            },
        }
    }
}

/// Password policy and session lifetimes of the web console.
#[derive(Debug)]
pub struct SecurityConfig {
    pub password_protection_enabled: bool,
    pub password_min_length: u8,
    pub password_require_letters: bool,
    pub password_require_digits: bool,
    pub password_require_symbols: bool,
    pub session_ttl_seconds: i64,
    pub idle_timeout_seconds: i64,
}

impl Clone for SecurityConfig {
    fn clone(&self) -> (res: Self)
        ensures
            res == *self,
    {
        SecurityConfig {
            password_protection_enabled: self.password_protection_enabled,
            password_min_length: self.password_min_length,
            password_require_letters: self.password_require_letters,
            password_require_digits: self.password_require_digits,
            password_require_symbols: self.password_require_symbols,
            session_ttl_seconds: self.session_ttl_seconds,
            idle_timeout_seconds: self.idle_timeout_seconds,
        }
    }
}

/// The access point used for the cellular data connection.
#[derive(Debug)]
pub struct ApnConfig {
    pub apn: String,
    pub protocol: String,
    pub username: String,
    pub password: String,
    pub auth_method: String,
}

impl Clone for ApnConfig {
    fn clone(&self) -> (res: Self)
        ensures
            res == *self,
    {
        ApnConfig {
            apn: self.apn.clone(),
            protocol: self.protocol.clone(),
            username: self.username.clone(),
            password: self.password.clone(),
            auth_method: self.auth_method.clone(),
        }
    }
}

/// Where the eUICC management tool is installed.
#[derive(Debug)]
pub struct EsimConfig {
    pub lpac_path: String,
}

impl Clone for EsimConfig {
    fn clone(&self) -> (res: Self)
        ensures
            res == *self,
    {
        EsimConfig {
            lpac_path: self.lpac_path.clone(),
        }
    }
}

/// `PartialEq::eq` of std's `HashMap`: two header maps are equal when they
/// hold the same names, each with the same value.
#[verifier::external_body]
fn headers_equal(a: &HashMap<String, String>, b: &HashMap<String, String>) -> (res: bool)
    ensures
        res == (a.deep_view() == b.deep_view()),
{
    a == b
}

fn clone_headers(h: &HashMap<String, String>) -> (res: HashMap<String, String>)
    ensures
        res.deep_view() == h.deep_view(),
{
    let r = h.clone();
    proof {
        reveal(vstd::std_specs::hash::hash_map_deep_view_impl);
        assert(r.deep_view() =~= h.deep_view());
    }
    r
}

fn empty_headers() -> (res: HashMap<String, String>)
    ensures
        res.deep_view() == Map::<Seq<char>, Seq<char>>::empty(),
{
    let r = HashMap::new();
    proof {
        reveal(vstd::std_specs::hash::hash_map_deep_view_impl);
        assert(r.deep_view() =~= Map::<Seq<char>, Seq<char>>::empty());
    }
    r
}

fn clone_strings(v: &Vec<String>) -> (res: Vec<String>)
    ensures
        res@ == v@,
{
    let mut out: Vec<String> = Vec::new();
    let mut i: usize = 0;
    while i < v.len()
        invariant
            i <= v.len(),
            out@ == v@.take(i as int),
        decreases v.len() - i,
    {
        out.push(v[i].clone());
        assert(v@.take(i + 1) == v@.take(i as int).push(v@[i as int]));
        i = i + 1;
    }
    assert(v@.take(v.len() as int) == v@);
    out
}

/// The generic JSON webhook channel.
#[derive(Debug)]
pub struct WebhookConfig {
    pub enabled: bool,
    pub url: String,
    pub forward_sms: bool,
    pub forward_calls: bool,
    pub forward_ddns: bool,
    pub forward_updates: bool,
    pub headers: HashMap<String, String>,
    /// Optional signing key.
    pub secret: String,
    /// Payload template for a received SMS.
    pub sms_template: String,
    /// Payload template for a call.
    pub call_template: String,
    /// Payload template for a DDNS update.
    pub ddns_template: String,
    /// Payload template for a firmware release.
    pub update_template: String,
}

/// What a webhook configuration holds: its texts as character sequences
/// and its headers as a map from name to value.
pub struct WebhookModel {
    pub enabled: bool,
    pub url: Seq<char>,
    pub forward_sms: bool,
    pub forward_calls: bool,
    pub forward_ddns: bool,
    pub forward_updates: bool,
    pub headers: Map<Seq<char>, Seq<char>>,
    pub secret: Seq<char>,
    pub sms_template: Seq<char>,
    pub call_template: Seq<char>,
    pub ddns_template: Seq<char>,
    pub update_template: Seq<char>,
}

impl View for WebhookConfig {
    type V = WebhookModel;

    open spec fn view(&self) -> WebhookModel {
        WebhookModel {
            enabled: self.enabled,
            url: self.url@,
            forward_sms: self.forward_sms,
            forward_calls: self.forward_calls,
            forward_ddns: self.forward_ddns,
            forward_updates: self.forward_updates,
            headers: self.headers.deep_view(),
            secret: self.secret@,
            sms_template: self.sms_template@,
            call_template: self.call_template@,
            ddns_template: self.ddns_template@,
            update_template: self.update_template@,
        }
    }
}

impl Clone for WebhookConfig {
    fn clone(&self) -> (res: Self)
        ensures
            res@ == self@,
    {
        WebhookConfig {
            enabled: self.enabled,
            url: self.url.clone(),
            forward_sms: self.forward_sms,
            forward_calls: self.forward_calls,
            forward_ddns: self.forward_ddns,
            forward_updates: self.forward_updates,
            headers: clone_headers(&self.headers),
            secret: self.secret.clone(),
            sms_template: self.sms_template.clone(),
            call_template: self.call_template.clone(),
            ddns_template: self.ddns_template.clone(),
            update_template: self.update_template.clone(),
        }
    }
}

impl PartialEq for WebhookConfig {
    fn eq(&self, other: &Self) -> (res: bool) {
        self.enabled == other.enabled && self.url == other.url && self.forward_sms
            == other.forward_sms && self.forward_calls == other.forward_calls
            && self.forward_ddns == other.forward_ddns && self.forward_updates
            == other.forward_updates && headers_equal(&self.headers, &other.headers)
            && self.secret == other.secret && self.sms_template == other.sms_template
            && self.call_template == other.call_template && self.ddns_template
            == other.ddns_template && self.update_template == other.update_template
    }
}

impl vstd::std_specs::cmp::PartialEqSpecImpl for WebhookConfig {
    open spec fn obeys_eq_spec() -> bool {
        true
    }

    open spec fn eq_spec(&self, other: &WebhookConfig) -> bool {
        self@ == other@
    }
}

/// The webhook configuration that a fresh installation has.
pub open spec fn default_webhook_model() -> WebhookModel {
    WebhookModel {
        enabled: false,
        url: Seq::empty(),
        forward_sms: true,
        forward_calls: true,
        forward_ddns: true,
        forward_updates: true,
        headers: Map::empty(),
        secret: Seq::empty(),
        sms_template: SMS_TEMPLATE@,
        call_template: CALL_TEMPLATE@,
        ddns_template: DDNS_TEMPLATE@,
        update_template: UPDATE_TEMPLATE@,
    }
}

impl Default for WebhookConfig {
    fn default() -> (res: Self)
        ensures
            res@ == default_webhook_model(),
    {
        WebhookConfig {
            enabled: false,
            url: String::new(),
            forward_sms: true,
            forward_calls: true,
            forward_ddns: true,
            forward_updates: true,
            headers: empty_headers(),
            secret: String::new(),
            sms_template: default_sms_template(),
            call_template: default_call_template(),
            ddns_template: default_ddns_template(),
            update_template: default_update_template(),
        }
    }
}

pub fn default_true() -> (res: bool)
    ensures
        res,
{
    true
}

/// The default JSON payload for a received SMS.
pub fn default_sms_template() -> (res: String)
    ensures
        res@ == SMS_TEMPLATE@,
{
    SMS_TEMPLATE.to_string()
}

/// The default JSON payload for a call.
pub fn default_call_template() -> (res: String)
    ensures
        res@ == CALL_TEMPLATE@,
{
    CALL_TEMPLATE.to_string()
}

pub fn default_ddns_template() -> (res: String)
    ensures
        res@ == DDNS_TEMPLATE@,
{
    DDNS_TEMPLATE.to_string()
}

pub fn default_update_template() -> (res: String)
    ensures
        res@ == UPDATE_TEMPLATE@,
{
    UPDATE_TEMPLATE.to_string()
}

pub fn default_plain_sms_template() -> (res: String)
    ensures
        res@ == PLAIN_SMS_TEMPLATE@,
{
    PLAIN_SMS_TEMPLATE.to_string()
}

pub fn default_plain_call_template() -> (res: String)
    ensures
        res@ == PLAIN_CALL_TEMPLATE@,
{
    PLAIN_CALL_TEMPLATE.to_string()
}

pub fn default_plain_ddns_template() -> (res: String)
    ensures
        res@ == PLAIN_DDNS_TEMPLATE@,
{
    PLAIN_DDNS_TEMPLATE.to_string()
}

pub fn default_plain_update_template() -> (res: String)
    ensures
        res@ == PLAIN_UPDATE_TEMPLATE@,
{
    PLAIN_UPDATE_TEMPLATE.to_string()
}

pub fn default_sms_title_template() -> (res: String)
    ensures
        res@ == SMS_TITLE_TEMPLATE@,
{
    SMS_TITLE_TEMPLATE.to_string()
}

pub fn default_bark_server_url() -> (res: String)
    ensures
        res@ == BARK_SERVER_URL@,
{
    BARK_SERVER_URL.to_string()
}

pub fn default_pushplus_template() -> (res: String)
    ensures
        res@ == PUSHPLUS_TEMPLATE@,
{
    PUSHPLUS_TEMPLATE.to_string()
}

pub fn default_wecom_to_user() -> (res: String)
    ensures
        res@ == WECOM_TO_USER@,
{
    WECOM_TO_USER.to_string()
}

pub fn default_dingtalk_msg_key() -> (res: String)
    ensures
        res@ == DINGTALK_MSG_KEY@,
{
    DINGTALK_MSG_KEY.to_string()
}

/// Whether a channel's common settings are those of a fresh installation.
pub open spec fn is_default_common(c: MessageChannelConfig) -> bool {
    &&& !c.enabled
    &&& c.forward_sms
    &&& c.forward_calls
    &&& c.forward_ddns
    &&& c.forward_updates
    &&& c.sms_template@ == PLAIN_SMS_TEMPLATE@
    &&& c.call_template@ == PLAIN_CALL_TEMPLATE@
    &&& c.ddns_template@ == PLAIN_DDNS_TEMPLATE@
    &&& c.update_template@ == PLAIN_UPDATE_TEMPLATE@
}

impl Default for MessageChannelConfig {
    fn default() -> (res: Self)
        ensures
            !res.enabled,
            res.forward_sms,
            res.forward_calls,
            res.forward_ddns,
            res.forward_updates,
            res.sms_template@ == PLAIN_SMS_TEMPLATE@,
            res.call_template@ == PLAIN_CALL_TEMPLATE@,
            res.ddns_template@ == PLAIN_DDNS_TEMPLATE@,
            res.update_template@ == PLAIN_UPDATE_TEMPLATE@,
            is_default_common(res),
    {
        MessageChannelConfig {
            enabled: false,
            forward_sms: true,
            forward_calls: true,
            forward_ddns: true,
            forward_updates: true,
            sms_template: default_plain_sms_template(),
            call_template: default_plain_call_template(),
            ddns_template: default_plain_ddns_template(),
            update_template: default_plain_update_template(),
        }
    }
}

pub open spec fn is_default_bark(c: BarkConfig) -> bool {
    &&& is_default_common(c.common)
    &&& c.server_url@ == BARK_SERVER_URL@
    &&& c.device_key@ == Seq::<char>::empty()
    &&& c.title_template@ == SMS_TITLE_TEMPLATE@
    &&& c.group@ == Seq::<char>::empty()
    &&& c.sound@ == Seq::<char>::empty()
    &&& c.level@ == Seq::<char>::empty()
    &&& c.icon@ == Seq::<char>::empty()
    &&& c.click_url@ == Seq::<char>::empty()
    &&& c.copy@ == Seq::<char>::empty()
    &&& !c.auto_copy
    &&& c.save_history
}

impl Default for BarkConfig {
    fn default() -> (res: Self)
        ensures
            is_default_bark(res),
    {
        BarkConfig {
            common: MessageChannelConfig::default(),
            server_url: default_bark_server_url(),
            device_key: String::new(),
            title_template: default_sms_title_template(),
            group: String::new(),
            sound: String::new(),
            level: String::new(),
            icon: String::new(),
            click_url: String::new(),
            copy: String::new(),
            auto_copy: false,
            save_history: true,
        }
    }
}

pub open spec fn is_default_pushplus(c: PushPlusConfig) -> bool {
    &&& is_default_common(c.common)
    &&& c.token@ == Seq::<char>::empty()
    &&& c.title_template@ == SMS_TITLE_TEMPLATE@
    &&& c.topic@ == Seq::<char>::empty()
    &&& c.template@ == PUSHPLUS_TEMPLATE@
    &&& c.channel@ == Seq::<char>::empty()
    &&& c.option@ == Seq::<char>::empty()
    &&& c.callback_url@ == Seq::<char>::empty()
}

impl Default for PushPlusConfig {
    fn default() -> (res: Self)
        ensures
            is_default_pushplus(res),
    {
        PushPlusConfig {
            common: MessageChannelConfig::default(),
            token: String::new(),
            title_template: default_sms_title_template(),
            topic: String::new(),
            template: default_pushplus_template(),
            channel: String::new(),
            option: String::new(),
            callback_url: String::new(),
        }
    }
}

pub open spec fn is_default_wecom_app(c: WecomAppConfig) -> bool {
    &&& is_default_common(c.common)
    &&& c.corp_id@ == Seq::<char>::empty()
    &&& c.agent_id@ == Seq::<char>::empty()
    &&& c.secret@ == Seq::<char>::empty()
    &&& c.to_user@ == WECOM_TO_USER@
    &&& c.to_party@ == Seq::<char>::empty()
    &&& c.to_tag@ == Seq::<char>::empty()
    &&& !c.safe
}

impl Default for WecomAppConfig {
    fn default() -> (res: Self)
        ensures
            is_default_wecom_app(res),
    {
        WecomAppConfig {
            common: MessageChannelConfig::default(),
            corp_id: String::new(),
            agent_id: String::new(),
            secret: String::new(),
            to_user: default_wecom_to_user(),
            to_party: String::new(),
            to_tag: String::new(),
            safe: false,
        }
    }
}

pub open spec fn is_default_wecom_robot(c: WecomRobotConfig) -> bool {
    &&& is_default_common(c.common)
    &&& c.webhook_url@ == Seq::<char>::empty()
    &&& c.key@ == Seq::<char>::empty()
}

impl Default for WecomRobotConfig {
    fn default() -> (res: Self)
        ensures
            is_default_wecom_robot(res),
    {
        WecomRobotConfig {
            common: MessageChannelConfig::default(),
            webhook_url: String::new(),
            key: String::new(),
        }
    }
}

pub open spec fn is_default_dingtalk_robot(c: DingtalkRobotConfig) -> bool {
    &&& is_default_common(c.common)
    &&& c.webhook_url@ == Seq::<char>::empty()
    &&& c.access_token@ == Seq::<char>::empty()
    &&& c.secret@ == Seq::<char>::empty()
    &&& c.at_mobiles@ == Seq::<char>::empty()
    &&& !c.at_all
}

impl Default for DingtalkRobotConfig {
    fn default() -> (res: Self)
        ensures
            is_default_dingtalk_robot(res),
    {
        DingtalkRobotConfig {
            common: MessageChannelConfig::default(),
            webhook_url: String::new(),
            access_token: String::new(),
            secret: String::new(),
            at_mobiles: String::new(),
            at_all: false,
        }
    }
}

pub open spec fn is_default_dingtalk_app(c: DingtalkAppConfig) -> bool {
    &&& is_default_common(c.common)
    &&& c.app_key@ == Seq::<char>::empty()
    &&& c.app_secret@ == Seq::<char>::empty()
    &&& c.robot_code@ == Seq::<char>::empty()
    &&& c.open_conversation_id@ == Seq::<char>::empty()
    &&& c.msg_key@ == DINGTALK_MSG_KEY@
}

impl Default for DingtalkAppConfig {
    fn default() -> (res: Self)
        ensures
            is_default_dingtalk_app(res),
    {
        DingtalkAppConfig {
            common: MessageChannelConfig::default(),
            app_key: String::new(),
            app_secret: String::new(),
            robot_code: String::new(),
            open_conversation_id: String::new(),
            msg_key: default_dingtalk_msg_key(),
        }
    }
}

pub open spec fn is_default_feishu_robot(c: FeishuRobotConfig) -> bool {
    &&& is_default_common(c.common)
    &&& c.webhook_url@ == Seq::<char>::empty()
    &&& c.token@ == Seq::<char>::empty()
    &&& c.secret@ == Seq::<char>::empty()
}

impl Default for FeishuRobotConfig {
    fn default() -> (res: Self)
        ensures
            is_default_feishu_robot(res),
    {
        FeishuRobotConfig {
            common: MessageChannelConfig::default(),
            webhook_url: String::new(),
            token: String::new(),
            secret: String::new(),
        }
    }
}

pub open spec fn is_default_telegram(c: TelegramConfig) -> bool {
    &&& is_default_common(c.common)
    &&& c.bot_token@ == Seq::<char>::empty()
    &&& c.chat_id@ == Seq::<char>::empty()
    &&& c.parse_mode@ == Seq::<char>::empty()
    &&& c.disable_web_page_preview
}

impl Default for TelegramConfig {
    fn default() -> (res: Self)
        ensures
            is_default_telegram(res),
    {
        TelegramConfig {
            common: MessageChannelConfig::default(),
            bot_token: String::new(),
            chat_id: String::new(),
            parse_mode: String::new(),
            disable_web_page_preview: true,
        }
    }
}

pub open spec fn is_default_version_update(c: VersionUpdateNotificationConfig) -> bool {
    &&& c.enabled
    &&& c.proxy_prefix@ == Seq::<char>::empty()
    &&& c.last_notified_version is None
}

impl Default for VersionUpdateNotificationConfig {
    fn default() -> (res: Self)
        ensures
            is_default_version_update(res),
    {
        VersionUpdateNotificationConfig {
            enabled: true,
            proxy_prefix: String::new(),
            last_notified_version: None,
        }
    }
}

pub open spec fn default_security() -> SecurityConfig {
    SecurityConfig {
        password_protection_enabled: true,
        password_min_length: PASSWORD_MIN_LENGTH,
        password_require_letters: true,
        password_require_digits: true,
        password_require_symbols: true,
        session_ttl_seconds: SESSION_TTL_SECONDS,
        idle_timeout_seconds: IDLE_TIMEOUT_SECONDS,
    }
}

impl Default for SecurityConfig {
    fn default() -> (res: Self)
        ensures
            res == default_security(),
    {
        SecurityConfig {
            password_protection_enabled: true,
            password_min_length: default_password_min_length(),
            password_require_letters: true,
            password_require_digits: true,
            password_require_symbols: true,
            session_ttl_seconds: default_session_ttl_seconds(),
            idle_timeout_seconds: default_idle_timeout_seconds(),
        }
    }
}

pub open spec fn is_default_apn(c: ApnConfig) -> bool {
    &&& c.apn@ == Seq::<char>::empty()
    &&& c.protocol@ == APN_PROTOCOL@
    &&& c.username@ == Seq::<char>::empty()
    &&& c.password@ == Seq::<char>::empty()
    &&& c.auth_method@ == APN_AUTH_METHOD@
}

impl Default for ApnConfig {
    fn default() -> (res: Self)
        ensures
            is_default_apn(res),
    {
        ApnConfig {
            apn: String::new(),
            protocol: default_apn_protocol(),
            username: String::new(),
            password: String::new(),
            auth_method: default_apn_auth_method(),
        }
    }
}

impl Default for EsimConfig {
    fn default() -> (res: Self)
        ensures
            res.lpac_path@ == LPAC_PATH@,
    {
        EsimConfig { lpac_path: default_lpac_path() }
    }
}

pub fn default_ddns_provider() -> (res: String)
    ensures
        res@ == DDNS_PROVIDER@,
{
    DDNS_PROVIDER.to_string()
}

pub fn default_ddns_interval_seconds() -> (res: u64)
    ensures
        res == DDNS_INTERVAL_SECONDS,
{
    DDNS_INTERVAL_SECONDS
}

pub fn default_ddns_ttl() -> (res: u32)
    ensures
        res == DDNS_TTL,
{
    DDNS_TTL
}

pub fn default_ddns_get_type() -> (res: String)
    ensures
        res@ == DDNS_GET_TYPE@,
{
    DDNS_GET_TYPE.to_string()
}

pub fn default_roaming_allowed() -> (res: bool)
    ensures
        res,
{
    true
}

pub fn default_data_enabled() -> (res: bool)
    ensures
        !res,
{
    false
}

pub fn default_password_min_length() -> (res: u8)
    ensures
        res == PASSWORD_MIN_LENGTH,
{
    PASSWORD_MIN_LENGTH
}

pub fn default_session_ttl_seconds() -> (res: i64)
    ensures
        res == SESSION_TTL_SECONDS,
{
    SESSION_TTL_SECONDS
}

pub fn default_idle_timeout_seconds() -> (res: i64)
    ensures
        res == IDLE_TIMEOUT_SECONDS,
{
    IDLE_TIMEOUT_SECONDS
}

pub fn default_apn_protocol() -> (res: String)
    ensures
        res@ == APN_PROTOCOL@,
{
    APN_PROTOCOL.to_string()
}

pub fn default_apn_auth_method() -> (res: String)
    ensures
        res@ == APN_AUTH_METHOD@,
{
    APN_AUTH_METHOD.to_string()
}

pub fn default_lpac_path() -> (res: String)
    ensures
        res@ == LPAC_PATH@,
{
    LPAC_PATH.to_string()
}

/// How one address family of the dynamic DNS updater finds the public
/// address and which domains it keeps pointed at it.
#[derive(Debug)]
pub struct DdnsIpConfig {
    pub enabled: bool,
    pub get_type: String,
    pub interface_name: String,
    pub urls: Vec<String>,
    pub domains: Vec<String>,
}

/// What an address family setting holds.
pub struct DdnsIpModel {
    pub enabled: bool,
    pub get_type: Seq<char>,
    pub interface_name: Seq<char>,
    pub urls: Seq<Seq<char>>,
    pub domains: Seq<Seq<char>>,
}

impl View for DdnsIpConfig {
    type V = DdnsIpModel;

    open spec fn view(&self) -> DdnsIpModel {
        DdnsIpModel {
            enabled: self.enabled,
            get_type: self.get_type@,
            interface_name: self.interface_name@,
            urls: self.urls.deep_view(),
            domains: self.domains.deep_view(),
        }
    }
}

impl Clone for DdnsIpConfig {
    fn clone(&self) -> (res: Self)
        ensures
            res@ == self@,
    {
        let urls = clone_strings(&self.urls);
        let domains = clone_strings(&self.domains);
        let res = DdnsIpConfig {
            enabled: self.enabled,
            get_type: self.get_type.clone(),
            interface_name: self.interface_name.clone(),
            urls,
            domains,
        };
        assert(res.urls.deep_view() =~= self.urls.deep_view());
        assert(res.domains.deep_view() =~= self.domains.deep_view());
        res
    }
}

/// Services that echo the caller's IPv4 address.
pub open spec fn ddns_ipv4_urls() -> Seq<Seq<char>> {
    seq![
        "https://api.ipify.org"@,
        "https://ip.3322.net"@,
        "https://4.ident.me"@,
        "https://ddns.oray.com/checkip"@,
        "https://4.ipw.cn"@,
    ]
}

/// Services that echo the caller's IPv6 address.
pub open spec fn ddns_ipv6_urls() -> Seq<Seq<char>> {
    seq![
        "https://api6.ipify.org"@,
        "https://speed.neu6.edu.cn/getIP.php"@,
        "https://v6.ident.me"@,
        "https://myip6.ipip.net"@,
        "https://6.ipw.cn"@,
    ]
}

pub fn default_ddns_ipv4_urls() -> (res: Vec<String>)
    ensures
        res.deep_view() == ddns_ipv4_urls(),
{
    let res = vec![
        "https://api.ipify.org".to_string(),
        "https://ip.3322.net".to_string(),
        "https://4.ident.me".to_string(),
        "https://ddns.oray.com/checkip".to_string(),
        "https://4.ipw.cn".to_string(),
    ];
    assert(res.deep_view() =~= ddns_ipv4_urls());
    res
}

pub fn default_ddns_ipv6_urls() -> (res: Vec<String>)
    ensures
        res.deep_view() == ddns_ipv6_urls(),
{
    let res = vec![
        "https://api6.ipify.org".to_string(),
        "https://speed.neu6.edu.cn/getIP.php".to_string(),
        "https://v6.ident.me".to_string(),
        "https://myip6.ipip.net".to_string(),
        "https://6.ipw.cn".to_string(),
    ];
    assert(res.deep_view() =~= ddns_ipv6_urls());
    res
}

/// An address family that is off and has no lookup services.
pub open spec fn default_ddns_ip_model() -> DdnsIpModel {
    DdnsIpModel {
        enabled: false,
        get_type: DDNS_GET_TYPE@,
        interface_name: Seq::empty(),
        urls: Seq::empty(),
        domains: Seq::empty(),
    }
}

/// The IPv4 settings of a fresh installation.
pub open spec fn default_ddns_ipv4_model() -> DdnsIpModel {
    DdnsIpModel { enabled: true, urls: ddns_ipv4_urls(), ..default_ddns_ip_model() }
}

/// The IPv6 settings of a fresh installation.
pub open spec fn default_ddns_ipv6_model() -> DdnsIpModel {
    DdnsIpModel { urls: ddns_ipv6_urls(), ..default_ddns_ip_model() }
}

fn empty_strings() -> (res: Vec<String>)
    ensures
        res.deep_view() == Seq::<Seq<char>>::empty(),
{
    let res: Vec<String> = Vec::new();
    assert(res.deep_view() =~= Seq::<Seq<char>>::empty());
    res
}

impl Default for DdnsIpConfig {
    fn default() -> (res: Self)
        ensures
            res@ == default_ddns_ip_model(),
    {
        DdnsIpConfig {
            enabled: false,
            get_type: default_ddns_get_type(),
            interface_name: String::new(),
            urls: empty_strings(),
            domains: empty_strings(),
        }
    }
}

pub fn default_ddns_ipv6_config() -> (res: DdnsIpConfig)
    ensures
        res@ == default_ddns_ipv6_model(),
{
    DdnsIpConfig {
        enabled: false,
        get_type: default_ddns_get_type(),
        interface_name: String::new(),
        urls: default_ddns_ipv6_urls(),
        domains: empty_strings(),
    }
}

/// The dynamic DNS updater.
#[derive(Debug)]
pub struct DdnsConfig {
    pub enabled: bool,
    pub provider: String,
    pub access_id: String,
    pub access_secret: String,
    pub interval_seconds: u64,
    pub ttl: u32,
    pub ipv4: DdnsIpConfig,
    pub ipv6: DdnsIpConfig,
}

/// What the dynamic DNS settings hold.
pub struct DdnsModel {
    pub enabled: bool,
    pub provider: Seq<char>,
    pub access_id: Seq<char>,
    pub access_secret: Seq<char>,
    pub interval_seconds: u64,
    pub ttl: u32,
    pub ipv4: DdnsIpModel,
    pub ipv6: DdnsIpModel,
}

impl View for DdnsConfig {
    type V = DdnsModel;

    open spec fn view(&self) -> DdnsModel {
        DdnsModel {
            enabled: self.enabled,
            provider: self.provider@,
            access_id: self.access_id@,
            access_secret: self.access_secret@,
            interval_seconds: self.interval_seconds,
            ttl: self.ttl,
            ipv4: self.ipv4@,
            ipv6: self.ipv6@,
        }
    }
}

impl Clone for DdnsConfig {
    fn clone(&self) -> (res: Self)
        ensures
            res@ == self@,
    {
        DdnsConfig {
            enabled: self.enabled,
            provider: self.provider.clone(),
            access_id: self.access_id.clone(),
            access_secret: self.access_secret.clone(),
            interval_seconds: self.interval_seconds,
            ttl: self.ttl,
            ipv4: self.ipv4.clone(),
            ipv6: self.ipv6.clone(),
        }
    }
}

/// The dynamic DNS settings of a fresh installation.
pub open spec fn default_ddns_model() -> DdnsModel {
    DdnsModel {
        enabled: false,
        provider: DDNS_PROVIDER@,
        access_id: Seq::empty(),
        access_secret: Seq::empty(),
        interval_seconds: DDNS_INTERVAL_SECONDS,
        ttl: DDNS_TTL,
        ipv4: default_ddns_ipv4_model(),
        ipv6: default_ddns_ipv6_model(),
    }
}

impl Default for DdnsConfig {
    fn default() -> (res: Self)
        ensures
            res@ == default_ddns_model(),
    {
        DdnsConfig {
            enabled: false,
            provider: default_ddns_provider(),
            access_id: String::new(),
            access_secret: String::new(),
            interval_seconds: default_ddns_interval_seconds(),
            ttl: default_ddns_ttl(),
            ipv4: DdnsIpConfig {
                enabled: true,
                get_type: default_ddns_get_type(),
                interface_name: String::new(),
                urls: default_ddns_ipv4_urls(),
                domains: empty_strings(),
            },
            ipv6: default_ddns_ipv6_config(),
        }
    }
}

/// Settings of the device's own network services.
#[derive(Debug)]
pub struct DeviceNetworkConfig {
    pub ddns: DdnsConfig,
}

/// What the device network settings hold.
pub struct DeviceNetworkModel {
    pub ddns: DdnsModel,
}

impl View for DeviceNetworkConfig {
    type V = DeviceNetworkModel;

    open spec fn view(&self) -> DeviceNetworkModel {
        DeviceNetworkModel { ddns: self.ddns@ }
    }
}

impl Clone for DeviceNetworkConfig {
    fn clone(&self) -> (res: Self)
        ensures
            res@ == self@,
    {
        DeviceNetworkConfig { ddns: self.ddns.clone() }
    }
}

impl Default for DeviceNetworkConfig {
    fn default() -> (res: Self)
        ensures
            res@ == (DeviceNetworkModel { ddns: default_ddns_model() }),
    {
        DeviceNetworkConfig { ddns: DdnsConfig::default() }
    }
}

/// Every push channel's settings.
#[derive(Debug)]
pub struct NotificationConfig {
    pub webhook: WebhookConfig,
    pub bark: BarkConfig,
    pub pushplus: PushPlusConfig,
    pub wecom_app: WecomAppConfig,
    pub wecom_robot: WecomRobotConfig,
    pub dingtalk_robot: DingtalkRobotConfig,
    pub dingtalk_app: DingtalkAppConfig,
    pub feishu_robot: FeishuRobotConfig,
    pub telegram: TelegramConfig,
}

/// What the channel settings hold; the webhook by its model, the others as they are.
pub struct NotificationModel {
    pub webhook: WebhookModel,
    pub bark: BarkConfig,
    pub pushplus: PushPlusConfig,
    pub wecom_app: WecomAppConfig,
    pub wecom_robot: WecomRobotConfig,
    pub dingtalk_robot: DingtalkRobotConfig,
    pub dingtalk_app: DingtalkAppConfig,
    pub feishu_robot: FeishuRobotConfig,
    pub telegram: TelegramConfig,
}

impl View for NotificationConfig {
    type V = NotificationModel;

    open spec fn view(&self) -> NotificationModel {
        NotificationModel {
            webhook: self.webhook@,
            bark: self.bark,
            pushplus: self.pushplus,
            wecom_app: self.wecom_app,
            wecom_robot: self.wecom_robot,
            dingtalk_robot: self.dingtalk_robot,
            dingtalk_app: self.dingtalk_app,
            feishu_robot: self.feishu_robot,
            telegram: self.telegram,
        }
    }
}

impl Clone for NotificationConfig {
    fn clone(&self) -> (res: Self)
        ensures
            res@ == self@,
    {
        NotificationConfig {
            webhook: self.webhook.clone(),
            bark: self.bark.clone(),
            pushplus: self.pushplus.clone(),
            wecom_app: self.wecom_app.clone(),
            wecom_robot: self.wecom_robot.clone(),
            dingtalk_robot: self.dingtalk_robot.clone(),
            dingtalk_app: self.dingtalk_app.clone(),
            feishu_robot: self.feishu_robot.clone(),
            telegram: self.telegram.clone(),
        }
    }
}

/// Whether every channel has the settings of a fresh installation.
pub open spec fn is_default_notifications(n: NotificationModel) -> bool {
    &&& n.webhook == default_webhook_model()
    &&& is_default_bark(n.bark)
    &&& is_default_pushplus(n.pushplus)
    &&& is_default_wecom_app(n.wecom_app)
    &&& is_default_wecom_robot(n.wecom_robot)
    &&& is_default_dingtalk_robot(n.dingtalk_robot)
    &&& is_default_dingtalk_app(n.dingtalk_app)
    &&& is_default_feishu_robot(n.feishu_robot)
    &&& is_default_telegram(n.telegram)
}

impl Default for NotificationConfig {
    fn default() -> (res: Self)
        ensures
            is_default_notifications(res@),
    {
        NotificationConfig {
            webhook: WebhookConfig::default(),
            bark: BarkConfig::default(),
            pushplus: PushPlusConfig::default(),
            wecom_app: WecomAppConfig::default(),
            wecom_robot: WecomRobotConfig::default(),
            dingtalk_robot: DingtalkRobotConfig::default(),
            dingtalk_app: DingtalkAppConfig::default(),
            feishu_robot: FeishuRobotConfig::default(),
            telegram: TelegramConfig::default(),
        }
    }
}

/// A push channel, as the console names it.
#[derive(Debug, Clone, Copy, PartialEq, Eq, Structural)]
pub enum NotificationChannel {
    Webhook,
    Bark,
    PushPlus,
    WecomApp,
    WecomRobot,
    DingtalkRobot,
    DingtalkApp,
    FeishuRobot,
    Telegram,
}

/// Whether the modem runs a physical SIM or an eUICC profile.
#[derive(Debug, Clone, Copy, PartialEq, Eq, Structural)]
pub enum WorkMode {
    Sim,
    Esim,
}

impl Default for WorkMode {
    fn default() -> (res: Self)
        ensures
            res == WorkMode::Sim,
    {
        WorkMode::Sim
    }
}

/// The whole persisted configuration.
#[derive(Debug)]
pub struct AppConfig {
    /// The webhook section as older releases stored it; kept equal to
    /// `notifications.webhook`.
    pub webhook: WebhookConfig,
    pub notifications: NotificationConfig,
    pub device_network: DeviceNetworkConfig,
    pub version_update_notifications: VersionUpdateNotificationConfig,
    pub security: SecurityConfig,
    /// Whether cellular data may roam.
    pub roaming_allowed: bool,
    pub data_enabled: bool,
    pub apn: ApnConfig,
    pub work_mode: WorkMode,
    pub esim: EsimConfig,
}

/// What the whole configuration holds.
pub struct AppModel {
    pub webhook: WebhookModel,
    pub notifications: NotificationModel,
    pub device_network: DeviceNetworkModel,
    pub version_update_notifications: VersionUpdateNotificationConfig,
    pub security: SecurityConfig,
    pub roaming_allowed: bool,
    pub data_enabled: bool,
    pub apn: ApnConfig,
    pub work_mode: WorkMode,
    pub esim: EsimConfig,
}

impl View for AppConfig {
    type V = AppModel;

    open spec fn view(&self) -> AppModel {
        AppModel {
            webhook: self.webhook@,
            notifications: self.notifications@,
            device_network: self.device_network@,
            version_update_notifications: self.version_update_notifications,
            security: self.security,
            roaming_allowed: self.roaming_allowed,
            data_enabled: self.data_enabled,
            apn: self.apn,
            work_mode: self.work_mode,
            esim: self.esim,
        }
    }
}

impl Clone for AppConfig {
    fn clone(&self) -> (res: Self)
        ensures
            res@ == self@,
    {
        AppConfig {
            webhook: self.webhook.clone(),
            notifications: self.notifications.clone(),
            device_network: self.device_network.clone(),
            version_update_notifications: self.version_update_notifications.clone(),
            security: self.security.clone(),
            roaming_allowed: self.roaming_allowed,
            data_enabled: self.data_enabled,
            apn: self.apn.clone(),
            work_mode: self.work_mode,
            esim: self.esim.clone(),
        }
    }
}

/// Whether a configuration is that of a fresh installation.
pub open spec fn is_default_app(c: AppModel) -> bool {
    &&& c.webhook == default_webhook_model()
    &&& is_default_notifications(c.notifications)
    &&& c.device_network == (DeviceNetworkModel { ddns: default_ddns_model() })
    &&& is_default_version_update(c.version_update_notifications)
    &&& c.security == default_security()
    &&& c.roaming_allowed
    &&& !c.data_enabled
    &&& is_default_apn(c.apn)
    &&& c.work_mode == WorkMode::Sim
    &&& c.esim.lpac_path@ == LPAC_PATH@
}

impl Default for AppConfig {
    fn default() -> (res: Self)
        ensures
            is_default_app(res@),
    {
        AppConfig {
            webhook: WebhookConfig::default(),
            notifications: NotificationConfig::default(),
            device_network: DeviceNetworkConfig::default(),
            version_update_notifications: VersionUpdateNotificationConfig::default(),
            security: SecurityConfig::default(),
            roaming_allowed: default_roaming_allowed(),
            data_enabled: default_data_enabled(),
            apn: ApnConfig::default(),
            work_mode: WorkMode::default(),
            esim: EsimConfig::default(),
        }
    }
}

/// The webhook section that a configuration ends up with: the legacy
/// top-level section is taken over when the channel section was never
/// set and the legacy one was.
pub open spec fn migrated_webhook(c: AppModel) -> WebhookModel {
    if c.notifications.webhook == default_webhook_model() && c.webhook
        != default_webhook_model() {
        c.webhook
    } else {
        c.notifications.webhook
    }
}

/// A configuration after the legacy webhook section is folded into the
/// channel settings and mirrored back.
pub open spec fn migrated(c: AppModel) -> AppModel {
    let w = migrated_webhook(c);
    AppModel {
        webhook: w,
        notifications: NotificationModel { webhook: w, ..c.notifications },
        ..c
    }
}

/// Folds the legacy top-level webhook section into the channel settings
/// where the channel was never set, then mirrors the channel back into the
/// legacy section.
pub fn migrate_legacy_webhook_config(config: &mut AppConfig)
    ensures
        final(config)@ == migrated(old(config)@),
{
    if config.notifications.webhook == WebhookConfig::default() && config.webhook
        != WebhookConfig::default() {
        config.notifications.webhook = config.webhook.clone();
    }
    config.webhook = config.notifications.webhook.clone();
}

/// A configuration with the security policy replaced.
pub open spec fn with_security(m: AppModel, security: SecurityConfig) -> AppModel {
    AppModel { security, ..m }
}

pub open spec fn with_data_enabled(m: AppModel, enabled: bool) -> AppModel {
    AppModel { data_enabled: enabled, ..m }
}

pub open spec fn with_apn(m: AppModel, apn: ApnConfig) -> AppModel {
    AppModel { apn, ..m }
}

pub open spec fn with_work_mode(m: AppModel, mode: WorkMode) -> AppModel {
    AppModel { work_mode: mode, ..m }
}

pub open spec fn with_roaming_allowed(m: AppModel, allowed: bool) -> AppModel {
    AppModel { roaming_allowed: allowed, ..m }
}

pub open spec fn with_ddns(m: AppModel, ddns: DdnsModel) -> AppModel {
    AppModel { device_network: DeviceNetworkModel { ddns, ..m.device_network }, ..m }
}

/// The version field of a release notification setting, set.
pub open spec fn with_last_notified_version(
    v: VersionUpdateNotificationConfig,
    version: String,
) -> VersionUpdateNotificationConfig {
    VersionUpdateNotificationConfig { last_notified_version: Some(version), ..v }
}

pub open spec fn with_last_notified(m: AppModel, version: String) -> AppModel {
    AppModel {
        version_update_notifications: with_last_notified_version(
            m.version_update_notifications,
            version,
        ),
        ..m
    }
}

/// A configuration with new channel settings; the legacy webhook section
/// follows the channel's.
pub open spec fn with_notifications(m: AppModel, n: NotificationModel) -> AppModel {
    AppModel { webhook: n.webhook, notifications: n, ..m }
}

/// Holds the configuration in memory. Every state it is in has its legacy
/// webhook section equal to the webhook channel's settings.
pub struct ConfigManager {
    config: AppConfig,
    config_path: String,
}

impl View for ConfigManager {
    type V = AppModel;

    closed spec fn view(&self) -> AppModel {
        self.config@
    }
}

impl ConfigManager {
    #[verifier::type_invariant]
    spec fn webhook_mirrored(self) -> bool {
        self.config@.webhook == self.config@.notifications.webhook
    }

    /// The file the configuration is kept in.
    pub closed spec fn path(&self) -> Seq<char> {
        self.config_path@
    }

    /// A manager for the configuration read from `config_path`, or for the
    /// defaults where none could be read, after the legacy webhook section
    /// is migrated.
    pub fn new(loaded: Option<AppConfig>, config_path: String) -> (res: Self)
        ensures
            res.path() == config_path@,
            loaded matches Some(c) ==> res@ == migrated(c@),
            loaded is None ==> is_default_app(res@),
    {
        let mut config = match loaded {
            Some(c) => c,
            None => AppConfig::default(),
        };
        migrate_legacy_webhook_config(&mut config);
        ConfigManager { config, config_path }
    }

    /// The configuration, as it is to be saved.
    pub fn app_config(&self) -> (res: &AppConfig)
        ensures
            res@ == self@,
            res@.webhook == res@.notifications.webhook,
    {
        proof {
            use_type_invariant(self);
        }
        &self.config
    }

    pub fn config_path(&self) -> (res: &String)
        ensures
            res@ == self.path(),
    {
        &self.config_path
    }

    pub fn get_notifications(&self) -> (res: NotificationConfig)
        ensures
            res@ == self@.notifications,
    {
        self.config.notifications.clone()
    }

    pub fn get_roaming_allowed(&self) -> (res: bool)
        ensures
            res == self@.roaming_allowed,
    {
        self.config.roaming_allowed
    }

    pub fn get_data_enabled(&self) -> (res: bool)
        ensures
            res == self@.data_enabled,
    {
        self.config.data_enabled
    }

    pub fn get_apn_config(&self) -> (res: ApnConfig)
        ensures
            res == self@.apn,
    {
        self.config.apn.clone()
    }

    pub fn get_work_mode(&self) -> (res: WorkMode)
        ensures
            res == self@.work_mode,
    {
        self.config.work_mode
    }

    pub fn get_esim_config(&self) -> (res: EsimConfig)
        ensures
            res == self@.esim,
    {
        self.config.esim.clone()
    }

    pub fn get_device_network(&self) -> (res: DeviceNetworkConfig)
        ensures
            res@ == self@.device_network,
    {
        self.config.device_network.clone()
    }

    pub fn get_ddns_config(&self) -> (res: DdnsConfig)
        ensures
            res@ == self@.device_network.ddns,
    {
        self.config.device_network.ddns.clone()
    }

    pub fn get_version_update_notifications(&self) -> (res: VersionUpdateNotificationConfig)
        ensures
            res == self@.version_update_notifications,
    {
        self.config.version_update_notifications.clone()
    }

    pub fn get_security(&self) -> (res: SecurityConfig)
        ensures
            res == self@.security,
    {
        self.config.security.clone()
    }

    pub fn set_security(&mut self, security: SecurityConfig)
        ensures
            final(self)@ == with_security(old(self)@, security),
            final(self).path() == old(self).path(),
    {
        proof {
            use_type_invariant(&*self);
        }
        self.config.security = security;
    }

    pub fn set_data_enabled(&mut self, enabled: bool)
        ensures
            final(self)@ == with_data_enabled(old(self)@, enabled),
            final(self).path() == old(self).path(),
    {
        proof {
            use_type_invariant(&*self);
        }
        self.config.data_enabled = enabled;
    }

    pub fn set_apn_config(&mut self, apn: ApnConfig)
        ensures
            final(self)@ == with_apn(old(self)@, apn),
            final(self).path() == old(self).path(),
    {
        proof {
            use_type_invariant(&*self);
        }
        self.config.apn = apn;
    }

    pub fn set_work_mode(&mut self, mode: WorkMode)
        ensures
            final(self)@ == with_work_mode(old(self)@, mode),
            final(self).path() == old(self).path(),
    {
        proof {
            use_type_invariant(&*self);
        }
        self.config.work_mode = mode;
    }

    pub fn set_roaming_allowed(&mut self, allowed: bool)
        ensures
            final(self)@ == with_roaming_allowed(old(self)@, allowed),
            final(self).path() == old(self).path(),
    {
        proof {
            use_type_invariant(&*self);
        }
        self.config.roaming_allowed = allowed;
    }

    pub fn set_ddns_config(&mut self, ddns: DdnsConfig)
        ensures
            final(self)@ == with_ddns(old(self)@, ddns@),
            final(self).path() == old(self).path(),
    {
        proof {
            use_type_invariant(&*self);
        }
        self.config.device_network.ddns = ddns;
    }

    pub fn set_last_notified_update_version(&mut self, version: String)
        ensures
            final(self)@ == with_last_notified(old(self)@, version),
            final(self).path() == old(self).path(),
    {
        proof {
            use_type_invariant(&*self);
        }
        self.config.version_update_notifications.last_notified_version = Some(version);
    }

    /// Replaces the channel settings; the legacy webhook section is kept
    /// equal to the new webhook channel.
    pub fn set_notifications(&mut self, notifications: NotificationConfig)
        ensures
            final(self)@ == with_notifications(old(self)@, notifications@),
            final(self).path() == old(self).path(),
    {
        proof {
            use_type_invariant(&*self);
        }
        let mut config = AppConfig::default();
        std::mem::swap(&mut self.config, &mut config);
        config.webhook = notifications.webhook.clone();
        config.notifications = notifications;
        self.config = config;
    }
}

/// After migration the legacy webhook section equals the webhook channel.
pub proof fn lemma_migration_mirrors_webhook(c: AppModel)
    ensures
        migrated(c).webhook == migrated(c).notifications.webhook,
{
}

/// Migrating twice gives what migrating once gave.
pub proof fn lemma_migration_idempotent(c: AppModel)
    ensures
        migrated(migrated(c)) == migrated(c),
{
    let m = migrated(c);
    assert(migrated_webhook(m) == m.notifications.webhook);
    assert(migrated(m) =~= m);
}

/// A configured webhook channel survives migration; a legacy section
/// survives where the channel was never configured.
pub proof fn lemma_migration_keeps_configured_webhook(c: AppModel)
    ensures
        c.notifications.webhook != default_webhook_model() ==> migrated(c).notifications.webhook
            == c.notifications.webhook,
        c.notifications.webhook == default_webhook_model() ==> migrated(c).notifications.webhook
            == c.webhook,
{
}

/// Migration changes nothing but the two webhook sections.
pub proof fn lemma_migration_touches_only_webhook(c: AppModel)
    ensures
        migrated(c) == (AppModel {
            webhook: migrated(c).webhook,
            notifications: NotificationModel {
                webhook: migrated(c).notifications.webhook,
                ..c.notifications
            },
            ..c
        }),
{
}

/// A channel with the settings of a fresh installation is off, forwards
/// every kind of event, and renders the plain-text templates.
pub proof fn lemma_fresh_channel_settings(c: MessageChannelConfig)
    requires
        is_default_common(c),
    ensures
        !c.enabled,
        c.forward_sms,
        c.forward_calls,
        c.forward_ddns,
        c.forward_updates,
        c.sms_template@ == PLAIN_SMS_TEMPLATE@,
        c.call_template@ == PLAIN_CALL_TEMPLATE@,
        c.ddns_template@ == PLAIN_DDNS_TEMPLATE@,
        c.update_template@ == PLAIN_UPDATE_TEMPLATE@,
{
}

/// In a fresh configuration every push channel is off and forwards every
/// kind of event (received SMS, calls, DDNS changes and new versions) once
/// it is turned on.
pub proof fn lemma_fresh_channels_forward_everything(c: AppModel)
    requires
        is_default_app(c),
    ensures
        ({
            let n = c.notifications;
            &&& !n.webhook.enabled && n.webhook.forward_sms && n.webhook.forward_calls
                && n.webhook.forward_ddns && n.webhook.forward_updates
            &&& !n.bark.common.enabled && n.bark.common.forward_sms && n.bark.common.forward_calls
                && n.bark.common.forward_ddns && n.bark.common.forward_updates
            &&& !n.pushplus.common.enabled && n.pushplus.common.forward_sms
                && n.pushplus.common.forward_calls && n.pushplus.common.forward_ddns
                && n.pushplus.common.forward_updates
            &&& !n.wecom_app.common.enabled && n.wecom_app.common.forward_sms
                && n.wecom_app.common.forward_calls && n.wecom_app.common.forward_ddns
                && n.wecom_app.common.forward_updates
            &&& !n.wecom_robot.common.enabled && n.wecom_robot.common.forward_sms
                && n.wecom_robot.common.forward_calls && n.wecom_robot.common.forward_ddns
                && n.wecom_robot.common.forward_updates
            &&& !n.dingtalk_robot.common.enabled && n.dingtalk_robot.common.forward_sms
                && n.dingtalk_robot.common.forward_calls && n.dingtalk_robot.common.forward_ddns
                && n.dingtalk_robot.common.forward_updates
            &&& !n.dingtalk_app.common.enabled && n.dingtalk_app.common.forward_sms
                && n.dingtalk_app.common.forward_calls && n.dingtalk_app.common.forward_ddns
                && n.dingtalk_app.common.forward_updates
            &&& !n.feishu_robot.common.enabled && n.feishu_robot.common.forward_sms
                && n.feishu_robot.common.forward_calls && n.feishu_robot.common.forward_ddns
                && n.feishu_robot.common.forward_updates
            &&& !n.telegram.common.enabled && n.telegram.common.forward_sms
                && n.telegram.common.forward_calls && n.telegram.common.forward_ddns
                && n.telegram.common.forward_updates
        }),
{
}

/// A fresh configuration allows roaming with mobile data off, runs a
/// physical SIM, checks for new versions, protects the console with a
/// password of at least 8 characters mixing letters, digits and symbols,
/// keeps a session a week and an idle one an hour, leaves DDNS off with a
/// 300-second interval and a 600-second TTL, and sets each channel's own
/// switches as a fresh installation has them.
pub proof fn lemma_fresh_configuration_values(c: AppModel)
    requires
        is_default_app(c),
    ensures
        c.roaming_allowed,
        !c.data_enabled,
        c.work_mode == WorkMode::Sim,
        c.version_update_notifications.enabled,
        c.version_update_notifications.last_notified_version is None,
        c.security.password_protection_enabled,
        c.security.password_min_length == 8,
        c.security.password_require_letters,
        c.security.password_require_digits,
        c.security.password_require_symbols,
        c.security.session_ttl_seconds == 604800,
        c.security.idle_timeout_seconds == 3600,
        !c.device_network.ddns.enabled,
        c.device_network.ddns.interval_seconds == 300,
        c.device_network.ddns.ttl == 600,
        c.notifications.bark.save_history,
        !c.notifications.bark.auto_copy,
        !c.notifications.wecom_app.safe,
        !c.notifications.dingtalk_robot.at_all,
        c.notifications.telegram.disable_web_page_preview,
        !c.webhook.enabled,
        c.webhook == c.notifications.webhook,
{
}

/// The defaults need no migration.
pub proof fn lemma_defaults_are_migrated(c: AppModel)
    requires
        is_default_app(c),
    ensures
        migrated(c) == c,
{
    assert(migrated(c) =~= c);
}

/// Replacing the channel settings keeps the legacy webhook section equal
/// to the webhook channel, and what is read back is what was written.
pub proof fn lemma_set_notifications_mirrors(m: AppModel, n: NotificationModel)
    ensures
        with_notifications(m, n).webhook == with_notifications(m, n).notifications.webhook,
        with_notifications(m, n).notifications == n,
{
}

/// Each setting reads back as it was written, and writing one setting
/// leaves the others as they were.
pub proof fn lemma_settings_read_back(
    m: AppModel,
    security: SecurityConfig,
    enabled: bool,
    apn: ApnConfig,
    mode: WorkMode,
    allowed: bool,
    ddns: DdnsModel,
    version: String,
)
    ensures
        with_security(m, security).security == security,
        with_security(m, security) == (AppModel { security: security, ..m }),
        with_data_enabled(m, enabled).data_enabled == enabled,
        with_data_enabled(m, enabled) == (AppModel { data_enabled: enabled, ..m }),
        with_apn(m, apn).apn == apn,
        with_apn(m, apn) == (AppModel { apn: apn, ..m }),
        with_work_mode(m, mode).work_mode == mode,
        with_work_mode(m, mode) == (AppModel { work_mode: mode, ..m }),
        with_roaming_allowed(m, allowed).roaming_allowed == allowed,
        with_roaming_allowed(m, allowed) == (AppModel { roaming_allowed: allowed, ..m }),
        with_ddns(m, ddns).device_network.ddns == ddns,
        with_ddns(m, ddns).notifications == m.notifications,
        with_ddns(m, ddns).webhook == m.webhook,
        with_ddns(m, ddns).security == m.security,
        with_last_notified(m, version).version_update_notifications.last_notified_version
            == Some(version),
        with_last_notified(m, version).version_update_notifications.enabled
            == m.version_update_notifications.enabled,
        with_last_notified(m, version).notifications == m.notifications,
{
}

/// Every setter keeps the legacy webhook section equal to the webhook
/// channel when it was so before.
pub proof fn lemma_setters_keep_mirror(
    m: AppModel,
    security: SecurityConfig,
    enabled: bool,
    apn: ApnConfig,
    mode: WorkMode,
    allowed: bool,
    ddns: DdnsModel,
    version: String,
)
    requires
        m.webhook == m.notifications.webhook,
    ensures
        with_security(m, security).webhook == with_security(m, security).notifications.webhook,
        with_data_enabled(m, enabled).webhook == with_data_enabled(
            m,
            enabled,
        ).notifications.webhook,
        with_apn(m, apn).webhook == with_apn(m, apn).notifications.webhook,
        with_work_mode(m, mode).webhook == with_work_mode(m, mode).notifications.webhook,
        with_roaming_allowed(m, allowed).webhook == with_roaming_allowed(
            m,
            allowed,
        ).notifications.webhook,
        with_ddns(m, ddns).webhook == with_ddns(m, ddns).notifications.webhook,
        with_last_notified(m, version).webhook == with_last_notified(
            m,
            version,
        ).notifications.webhook,
{
}

} // verus!
