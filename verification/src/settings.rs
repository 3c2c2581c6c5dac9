//! Site settings: the data model of each settings group, the serde default
//! values, the account-binding policy, SMS provider checks and the payment
//! channel catalogue with its merge / public-view rules.
use vstd::prelude::*;
use crate::text::{
    chars_eq_ignore_case, chars_of, ends_with, eq_ignore_case, str_eq, to_owned_string, trim,
    trim_bounds, trim_str, trim_string,
};
use crate::text::{chars_ends_with, chars_lt, replace_all, replace_str, seq_lt};

verus! {

// ───────────────────────── serde default values ─────────────────────────

/// Default login page style.
pub fn default_login_style() -> (r: String)
    ensures
        r@ == "split"@,
{
    to_owned_string("split")
}

/// Default admin path.
pub fn default_admin_path() -> (r: String)
    ensures
        r@ == "admin1688"@,
{
    to_owned_string("admin1688")
}

/// Default copyright line.
pub fn default_copyright() -> (r: String)
    ensures
        r@ == "© 2026 Tokensbyte. All rights reserved."@,
{
    to_owned_string("© 2026 Tokensbyte. All rights reserved.")
}

/// Theme toggle is on by default.
pub fn default_true_theme() -> (r: bool)
    ensures
        r,
{
    true
}

/// Default theme mode.
pub fn default_theme_mode() -> (r: String)
    ensures
        r@ == "dark"@,
{
    to_owned_string("dark")
}

/// Multilingual is on by default.
pub fn default_enable_multilingual() -> (r: bool)
    ensures
        r,
{
    true
}

/// Default supported languages: `["zh", "en"]`.
pub fn default_supported_languages() -> (r: Vec<String>)
    ensures
        r.deep_view() == seq!["zh"@, "en"@],
{
    let mut v: Vec<String> = Vec::new();
    v.push(to_owned_string("zh"));
    v.push(to_owned_string("en"));
    assert(v.deep_view() =~= seq!["zh"@, "en"@]);
    v
}

/// Default site language.
pub fn default_language() -> (r: String)
    ensures
        r@ == "zh"@,
{
    to_owned_string("zh")
}

/// The time zone used when the host does not report one.
pub open spec fn fallback_site_timezone() -> Seq<char> {
    "Asia/Shanghai"@
}

/// The host's IANA time zone (`iana_time_zone::get_timezone`), `None` when
/// the host does not report one.  Nothing is said of the name returned: it
/// depends on the machine.
#[verifier::external_body]
fn host_timezone() -> (r: Option<String>) {
    iana_time_zone::get_timezone().ok()
}

/// The site time zone given what the host reported: the host's zone, else
/// `Asia/Shanghai`.
pub fn timezone_or_fallback(host: Option<String>) -> (r: String)
    ensures
        r@ == (match host {
            Some(tz) => tz@,
            None => fallback_site_timezone(),
        }),
{
    match host {
        Some(tz) => tz,
        None => to_owned_string("Asia/Shanghai"),
    }
}

/// Default site time zone: the host's zone, else `Asia/Shanghai`
/// (see [`timezone_or_fallback`]; which zone the host reports is not known
/// here).
pub fn default_site_timezone() -> (r: String) {
    timezone_or_fallback(host_timezone())
}

/// Time zone suffix is shown by default.
pub fn default_show_timezone() -> (r: bool)
    ensures
        r,
{
    true
}

/// Default agreement mode.
pub fn default_agreement_mode() -> (r: String)
    ensures
        r@ == "link"@,
{
    to_owned_string("link")
}

/// `true`, the default of many switches.
pub fn default_true() -> (r: bool)
    ensures
        r,
{
    true
}

/// Default binding enforcement.
pub fn default_bind_enforcement() -> (r: String)
    ensures
        r@ == "all"@,
{
    to_owned_string("all")
}

/// Default registrations per IP per day.
pub fn default_ip_daily_limit() -> (r: i32)
    ensures
        r == 6,
{
    6
}

/// Default e-mail domain whitelist.
pub fn default_email_whitelist() -> (r: Vec<String>)
    ensures
        r.deep_view() == seq!["qq.com"@, "163.com"@, "outlook.com"@, "aliyun.com"@, "foxmail.com"@],
{
    let mut v: Vec<String> = Vec::new();
    v.push(to_owned_string("qq.com"));
    v.push(to_owned_string("163.com"));
    v.push(to_owned_string("outlook.com"));
    v.push(to_owned_string("aliyun.com"));
    v.push(to_owned_string("foxmail.com"));
    assert(v.deep_view() =~= seq!["qq.com"@, "163.com"@, "outlook.com"@, "aliyun.com"@, "foxmail.com"@]);
    v
}

/// Default SMS provider.
pub fn default_sms_provider() -> (r: String)
    ensures
        r@ == "tencent"@,
{
    to_owned_string("tencent")
}

/// Default verification-code template variable.
pub fn default_sms_code_param() -> (r: String)
    ensures
        r@ == "code"@,
{
    to_owned_string("code")
}

/// Default registration gift mode.
pub fn default_gift_mode() -> (r: String)
    ensures
        r@ == "fixed"@,
{
    to_owned_string("fixed")
}

/// Default Alipay signature type.
pub fn default_sign_type() -> (r: String)
    ensures
        r@ == "RSA2"@,
{
    to_owned_string("RSA2")
}

/// Default BonusPay API address.
pub fn default_bonuspay_api_url() -> (r: String)
    ensures
        r@ == "https://api.bonuspay.network"@,
{
    to_owned_string("https://api.bonuspay.network")
}

/// Default HyperBC API address.
pub fn default_hyperbc_api_url() -> (r: String)
    ensures
        r@ == "https://api.hyperbc.com"@,
{
    to_owned_string("https://api.hyperbc.com")
}

/// Default Allinpay gateway address.
pub fn default_allinpay_api_url() -> (r: String)
    ensures
        r@ == "https://vsp.allinpay.com/apiweb"@,
{
    to_owned_string("https://vsp.allinpay.com/apiweb")
}

/// Default Allinpay protocol version.
pub fn default_allinpay_version() -> (r: String)
    ensures
        r@ == "11"@,
{
    to_owned_string("11")
}

/// Default Allinpay signature type.
pub fn default_allinpay_sign_type() -> (r: String)
    ensures
        r@ == "RSA"@,
{
    to_owned_string("RSA")
}

/// Default usage-log detail retention (days).
pub fn default_log_retention_days() -> (r: i32)
    ensures
        r == 30,
{
    30
}

/// Default usage-log row retention (days; 0 = never archive).
pub fn default_log_row_retention_days() -> (r: i32)
    ensures
        r == 0,
{
    0
}

/// Default menu item audience.
pub fn default_all_levels() -> (r: String)
    ensures
        r@ == "all"@,
{
    to_owned_string("all")
}

/// Notification switches default to on.
pub fn default_true_notif() -> (r: bool)
    ensures
        r,
{
    true
}

/// Default subject of the low-balance e-mail.
pub fn default_low_balance_email_subject() -> (r: String)
    ensures
        r@ == "【{{site_name}}】账户余额不足提醒"@,
{
    to_owned_string("【{{site_name}}】账户余额不足提醒")
}

// ───────────────────────── settings groups ─────────────────────────

/// Basic site information.
pub struct SiteSettings {
    pub name: String,
    pub title: String,
    pub keywords: String,
    pub description: String,
    pub favicon: String,
    pub logo: String,
    pub login_title: String,
    pub login_title_url: String,
    pub login_subtitle: String,
    pub enable_multilingual: bool,
    pub supported_languages: Vec<String>,
    pub default_language: String,
    pub default_timezone: String,
    pub show_timezone: bool,
    pub enable_theme_toggle: bool,
    pub default_theme: String,
    pub copyright: String,
    pub admin_path: String,
    pub login_style: String,
    pub login_quote: String,
    pub ip_blacklist_enabled: bool,
    pub ip_blacklist: Vec<String>,
}

impl Default for SiteSettings {
    fn default() -> (r: Self)
        ensures
            r.name@ == Seq::<char>::empty(),
            r.title@ == Seq::<char>::empty(),
            r.keywords@ == Seq::<char>::empty(),
            r.description@ == Seq::<char>::empty(),
            r.favicon@ == Seq::<char>::empty(),
            r.logo@ == Seq::<char>::empty(),
            r.login_title@ == Seq::<char>::empty(),
            r.login_title_url@ == Seq::<char>::empty(),
            r.login_subtitle@ == Seq::<char>::empty(),
            !r.enable_multilingual,
            r.supported_languages@.len() == 0,
            r.default_language@ == Seq::<char>::empty(),
            r.default_timezone@ == Seq::<char>::empty(),
            !r.show_timezone,
            !r.enable_theme_toggle,
            r.default_theme@ == Seq::<char>::empty(),
            r.copyright@ == Seq::<char>::empty(),
            r.admin_path@ == Seq::<char>::empty(),
            r.login_style@ == Seq::<char>::empty(),
            r.login_quote@ == Seq::<char>::empty(),
            !r.ip_blacklist_enabled,
            r.ip_blacklist@.len() == 0,
    {
        SiteSettings {
            name: String::new(),
            title: String::new(),
            keywords: String::new(),
            description: String::new(),
            favicon: String::new(),
            logo: String::new(),
            login_title: String::new(),
            login_title_url: String::new(),
            login_subtitle: String::new(),
            enable_multilingual: false,
            supported_languages: Vec::new(),
            default_language: String::new(),
            default_timezone: String::new(),
            show_timezone: false,
            enable_theme_toggle: false,
            default_theme: String::new(),
            copyright: String::new(),
            admin_path: String::new(),
            login_style: String::new(),
            login_quote: String::new(),
            ip_blacklist_enabled: false,
            ip_blacklist: Vec::new(),
        }
    }
}

/// Terms of service / privacy agreement settings.
pub struct AgreementSettings {
    pub tos_mode: String,
    pub tos_mode_en: String,
    pub tos_content: String,
    pub tos_content_en: String,
    pub tos_link: String,
    pub tos_link_en: String,
    pub privacy_mode: String,
    pub privacy_mode_en: String,
    pub privacy_content: String,
    pub privacy_content_en: String,
    pub privacy_link: String,
    pub privacy_link_en: String,
    pub tos_enabled: bool,
    pub privacy_enabled: bool,
}

impl Default for AgreementSettings {
    fn default() -> (r: Self)
        ensures
            r.tos_mode@ == Seq::<char>::empty(),
            r.tos_mode_en@ == Seq::<char>::empty(),
            r.tos_content@ == Seq::<char>::empty(),
            r.tos_content_en@ == Seq::<char>::empty(),
            r.tos_link@ == Seq::<char>::empty(),
            r.tos_link_en@ == Seq::<char>::empty(),
            r.privacy_mode@ == Seq::<char>::empty(),
            r.privacy_mode_en@ == Seq::<char>::empty(),
            r.privacy_content@ == Seq::<char>::empty(),
            r.privacy_content_en@ == Seq::<char>::empty(),
            r.privacy_link@ == Seq::<char>::empty(),
            r.privacy_link_en@ == Seq::<char>::empty(),
            !r.tos_enabled,
            !r.privacy_enabled,
    {
        AgreementSettings {
            tos_mode: String::new(),
            tos_mode_en: String::new(),
            tos_content: String::new(),
            tos_content_en: String::new(),
            tos_link: String::new(),
            tos_link_en: String::new(),
            privacy_mode: String::new(),
            privacy_mode_en: String::new(),
            privacy_content: String::new(),
            privacy_content_en: String::new(),
            privacy_link: String::new(),
            privacy_link_en: String::new(),
            tos_enabled: false,
            privacy_enabled: false,
        }
    }
}

/// Which login methods the user side offers.
pub struct LoginSettings {
    pub enable_username_login: bool,
    pub enable_mobile_login: bool,
    pub enable_email_login: bool,
    pub enable_wechat_login: bool,
    pub enable_google_login: bool,
}

impl Default for LoginSettings {
    fn default() -> (r: Self)
        ensures
            !r.enable_username_login,
            !r.enable_mobile_login,
            !r.enable_email_login,
            !r.enable_wechat_login,
            !r.enable_google_login,
    {
        LoginSettings {
            enable_username_login: false,
            enable_mobile_login: false,
            enable_email_login: false,
            enable_wechat_login: false,
            enable_google_login: false,
        }
    }
}

/// Registration methods and account-binding policy.
pub struct RegistrationSettings {
    pub enable_username_registration: bool,
    pub enable_email_registration: bool,
    pub enable_mobile_registration: bool,
    pub enable_password_recovery: bool,
    pub ip_rate_limit_enabled: bool,
    pub ip_daily_limit: i32,
    pub email_validation_strict: bool,
    pub email_whitelist_enabled: bool,
    pub email_whitelist: Vec<String>,
    pub require_bind_mobile: bool,
    pub require_bind_email: bool,
    pub bind_enforcement: String,
    pub enable_user_kyc: bool,
}

impl Default for RegistrationSettings {
    fn default() -> (r: Self)
        ensures
            !r.enable_username_registration,
            !r.enable_email_registration,
            !r.enable_mobile_registration,
            !r.enable_password_recovery,
            !r.ip_rate_limit_enabled,
            r.ip_daily_limit == 0,
            !r.email_validation_strict,
            !r.email_whitelist_enabled,
            r.email_whitelist@.len() == 0,
            !r.require_bind_mobile,
            !r.require_bind_email,
            r.bind_enforcement@ == Seq::<char>::empty(),
            !r.enable_user_kyc,
    {
        RegistrationSettings {
            enable_username_registration: false,
            enable_email_registration: false,
            enable_mobile_registration: false,
            enable_password_recovery: false,
            ip_rate_limit_enabled: false,
            ip_daily_limit: 0,
            email_validation_strict: false,
            email_whitelist_enabled: false,
            email_whitelist: Vec::new(),
            require_bind_mobile: false,
            require_bind_email: false,
            bind_enforcement: String::new(),
            enable_user_kyc: false,
        }
    }
}

/// SMTP mail notification settings.
pub struct SMTPSettings {
    pub host: String,
    pub port: u16,
    pub username: String,
    pub password: String,
    pub from_address: String,
    pub from_name: String,
}

impl Default for SMTPSettings {
    fn default() -> (r: Self)
        ensures
            r.host@ == Seq::<char>::empty(),
            r.port == 0,
            r.username@ == Seq::<char>::empty(),
            r.password@ == Seq::<char>::empty(),
            r.from_address@ == Seq::<char>::empty(),
            r.from_name@ == Seq::<char>::empty(),
    {
        SMTPSettings {
            host: String::new(),
            port: 0,
            username: String::new(),
            password: String::new(),
            from_address: String::new(),
            from_name: String::new(),
        }
    }
}

/// Database connection settings.
pub struct DatabaseSettings {
    pub db_type: String,
    pub host: String,
    pub port: u16,
    pub database: String,
    pub username: String,
    pub password: String,
    pub ssl_mode: bool,
}

impl Default for DatabaseSettings {
    fn default() -> (r: Self)
        ensures
            r.db_type@ == Seq::<char>::empty(),
            r.host@ == Seq::<char>::empty(),
            r.port == 0,
            r.database@ == Seq::<char>::empty(),
            r.username@ == Seq::<char>::empty(),
            r.password@ == Seq::<char>::empty(),
            !r.ssl_mode,
    {
        DatabaseSettings {
            db_type: String::new(),
            host: String::new(),
            port: 0,
            database: String::new(),
            username: String::new(),
            password: String::new(),
            ssl_mode: false,
        }
    }
}

/// WeChat Pay settings.
pub struct PaymentWechatSettings {
    pub enabled: bool,
    pub mchid: String,
    pub appid: String,
    pub api_v3_key: String,
    pub cert_serial_no: String,
    pub private_key: String,
}

impl Default for PaymentWechatSettings {
    fn default() -> (r: Self)
        ensures
            !r.enabled,
            r.mchid@ == Seq::<char>::empty(),
            r.appid@ == Seq::<char>::empty(),
            r.api_v3_key@ == Seq::<char>::empty(),
            r.cert_serial_no@ == Seq::<char>::empty(),
            r.private_key@ == Seq::<char>::empty(),
    {
        PaymentWechatSettings {
            enabled: false,
            mchid: String::new(),
            appid: String::new(),
            api_v3_key: String::new(),
            cert_serial_no: String::new(),
            private_key: String::new(),
        }
    }
}

/// Alipay settings.
pub struct PaymentAlipaySettings {
    pub enabled: bool,
    pub app_id: String,
    pub private_key: String,
    pub alipay_public_key: String,
    pub sign_type: String,
}

impl Default for PaymentAlipaySettings {
    fn default() -> (r: Self)
        ensures
            !r.enabled,
            r.app_id@ == Seq::<char>::empty(),
            r.private_key@ == Seq::<char>::empty(),
            r.alipay_public_key@ == Seq::<char>::empty(),
            r.sign_type@ == Seq::<char>::empty(),
    {
        PaymentAlipaySettings {
            enabled: false,
            app_id: String::new(),
            private_key: String::new(),
            alipay_public_key: String::new(),
            sign_type: String::new(),
        }
    }
}

/// Stripe settings.
pub struct PaymentStripeSettings {
    pub enabled: bool,
    pub secret_key: String,
    pub publishable_key: String,
    pub webhook_secret: String,
}

impl Default for PaymentStripeSettings {
    fn default() -> (r: Self)
        ensures
            !r.enabled,
            r.secret_key@ == Seq::<char>::empty(),
            r.publishable_key@ == Seq::<char>::empty(),
            r.webhook_secret@ == Seq::<char>::empty(),
    {
        PaymentStripeSettings {
            enabled: false,
            secret_key: String::new(),
            publishable_key: String::new(),
            webhook_secret: String::new(),
        }
    }
}

/// Allinpay settings.
pub struct PaymentAllinpaySettings {
    pub enabled: bool,
    pub cusid: String,
    pub appid: String,
    pub merchant_private_key: String,
    pub allinpay_public_key: String,
    pub sign_type: String,
    pub api_url: String,
    pub version: String,
}

impl Default for PaymentAllinpaySettings {
    fn default() -> (r: Self)
        ensures
            !r.enabled,
            r.cusid@ == Seq::<char>::empty(),
            r.appid@ == Seq::<char>::empty(),
            r.merchant_private_key@ == Seq::<char>::empty(),
            r.allinpay_public_key@ == Seq::<char>::empty(),
            r.sign_type@ == Seq::<char>::empty(),
            r.api_url@ == Seq::<char>::empty(),
            r.version@ == Seq::<char>::empty(),
    {
        PaymentAllinpaySettings {
            enabled: false,
            cusid: String::new(),
            appid: String::new(),
            merchant_private_key: String::new(),
            allinpay_public_key: String::new(),
            sign_type: String::new(),
            api_url: String::new(),
            version: String::new(),
        }
    }
}

/// Google OAuth 2.0 settings.
pub struct GoogleOAuthSettings {
    pub client_id: String,
    pub client_secret: String,
}

impl Default for GoogleOAuthSettings {
    fn default() -> (r: Self)
        ensures
            r.client_id@ == Seq::<char>::empty(),
            r.client_secret@ == Seq::<char>::empty(),
    {
        GoogleOAuthSettings {
            client_id: String::new(),
            client_secret: String::new(),
        }
    }
}

/// WeChat open-platform login settings.
pub struct WechatOAuthSettings {
    pub app_id: String,
    pub app_secret: String,
}

impl Default for WechatOAuthSettings {
    fn default() -> (r: Self)
        ensures
            r.app_id@ == Seq::<char>::empty(),
            r.app_secret@ == Seq::<char>::empty(),
    {
        WechatOAuthSettings {
            app_id: String::new(),
            app_secret: String::new(),
        }
    }
}

/// User-side menu configuration.
pub struct MenuConfigSettings {
    pub items: Vec<MenuItemConfig>,
}

impl Default for MenuConfigSettings {
    fn default() -> (r: Self)
        ensures
            r.items@.len() == 0,
    {
        MenuConfigSettings {
            items: Vec::new(),
        }
    }
}

/// Public payment switches (no secrets).
pub struct PublicPaymentStatus {
    pub wechat_enabled: bool,
    pub alipay_enabled: bool,
    pub stripe_enabled: bool,
    pub bonuspay_enabled: bool,
    pub hyperbc_enabled: bool,
    pub allinpay_enabled: bool,
}

impl Default for PublicPaymentStatus {
    fn default() -> (r: Self)
        ensures
            !r.wechat_enabled,
            !r.alipay_enabled,
            !r.stripe_enabled,
            !r.bonuspay_enabled,
            !r.hyperbc_enabled,
            !r.allinpay_enabled,
    {
        PublicPaymentStatus {
            wechat_enabled: false,
            alipay_enabled: false,
            stripe_enabled: false,
            bonuspay_enabled: false,
            hyperbc_enabled: false,
            allinpay_enabled: false,
        }
    }
}

/// Whether each payment gateway is currently enabled.
pub struct PaymentGatewayEnableFlags {
    pub wechat: bool,
    pub alipay: bool,
    pub stripe: bool,
    pub bonuspay: bool,
    pub hyperbc: bool,
    pub allinpay: bool,
}

impl Default for PaymentGatewayEnableFlags {
    fn default() -> (r: Self)
        ensures
            !r.wechat,
            !r.alipay,
            !r.stripe,
            !r.bonuspay,
            !r.hyperbc,
            !r.allinpay,
    {
        PaymentGatewayEnableFlags {
            wechat: false,
            alipay: false,
            stripe: false,
            bonuspay: false,
            hyperbc: false,
            allinpay: false,
        }
    }
}


/// One user-side menu entry.
pub struct MenuItemConfig {
    pub key: String,
    pub label_zh: String,
    pub label_en: String,
    pub icon: String,
    pub enabled: bool,
    pub sort_order: i32,
    pub allowed_levels: String,
}

/// SMS provider settings (`tencent` | `volcengine`).
pub struct SmsSettings {
    pub provider: String,
    pub secret_id: String,
    pub secret_key: String,
    pub sdk_app_id: String,
    pub sign_name: String,
    pub template_id: String,
    pub balance_template_id: String,
    pub code_param: String,
}

impl Default for SmsSettings {
    fn default() -> (r: Self)
        ensures
            r.provider@ == "tencent"@,
            r.secret_id@ == Seq::<char>::empty(),
            r.secret_key@ == Seq::<char>::empty(),
            r.sdk_app_id@ == Seq::<char>::empty(),
            r.sign_name@ == Seq::<char>::empty(),
            r.template_id@ == Seq::<char>::empty(),
            r.balance_template_id@ == Seq::<char>::empty(),
            r.code_param@ == "code"@,
    {
        SmsSettings {
            provider: default_sms_provider(),
            secret_id: String::new(),
            secret_key: String::new(),
            sdk_app_id: String::new(),
            sign_name: String::new(),
            template_id: String::new(),
            balance_template_id: String::new(),
            code_param: default_sms_code_param(),
        }
    }
}

/// Object storage and log retention settings.
pub struct StorageSettings {
    pub tos_access_key: String,
    pub tos_secret_key: String,
    pub tos_endpoint: String,
    pub tos_region: String,
    pub tos_bucket: String,
    pub tos_path_prefix: String,
    pub tos_custom_domain: String,
    pub log_retention_days: i32,
    pub log_row_retention_days: i32,
}

impl Default for StorageSettings {
    fn default() -> (r: Self)
        ensures
            r.tos_access_key@ == Seq::<char>::empty(),
            r.tos_secret_key@ == Seq::<char>::empty(),
            r.tos_endpoint@ == Seq::<char>::empty(),
            r.tos_region@ == Seq::<char>::empty(),
            r.tos_bucket@ == Seq::<char>::empty(),
            r.tos_path_prefix@ == Seq::<char>::empty(),
            r.tos_custom_domain@ == Seq::<char>::empty(),
            r.log_retention_days == 30,
            r.log_row_retention_days == 0,
    {
        StorageSettings {
            tos_access_key: String::new(),
            tos_secret_key: String::new(),
            tos_endpoint: String::new(),
            tos_region: String::new(),
            tos_bucket: String::new(),
            tos_path_prefix: String::new(),
            tos_custom_domain: String::new(),
            log_retention_days: default_log_retention_days(),
            log_row_retention_days: default_log_row_retention_days(),
        }
    }
}

/// Registration settings exposed without authentication.
pub struct PublicRegistrationSettings {
    pub enable_username_registration: bool,
    pub enable_email_registration: bool,
    pub enable_mobile_registration: bool,
    pub enable_password_recovery: bool,
    pub require_bind_mobile: bool,
    pub require_bind_email: bool,
    pub bind_enforcement: String,
    pub enable_user_kyc: bool,
}

/// Marketing switches exposed without authentication.
pub struct PublicMarketingSettings {
    pub enable_registration_gift: bool,
    pub enable_redemption: bool,
}


// ───────────────────────── account binding policy ─────────────────────────

/// A bound mobile number: present and not blank.
pub open spec fn valid_mobile(mobile: Option<&str>) -> bool {
    match mobile {
        Some(m) => trim(m@).len() > 0,
        None => false,
    }
}

/// A bound e-mail: not blank and not a `@tokensbyte.local` placeholder address.
pub open spec fn valid_email(email: Seq<char>) -> bool {
    trim(email).len() > 0 && !ends_with(trim(email), "@tokensbyte.local"@)
}

impl RegistrationSettings {
    /// Some binding channel is required.
    pub open spec fn policy_active(&self) -> bool {
        self.require_bind_mobile || self.require_bind_email
    }

    /// Whether a user with `email` / `mobile` meets the binding policy.
    pub open spec fn bind_satisfied(&self, email: Seq<char>, mobile: Option<&str>) -> bool {
        if !self.policy_active() {
            true
        } else if self.require_bind_mobile && self.require_bind_email {
            if self.bind_enforcement@ == "any"@ {
                valid_mobile(mobile) || valid_email(email)
            } else {
                valid_mobile(mobile) && valid_email(email)
            }
        } else if self.require_bind_mobile {
            valid_mobile(mobile)
        } else {
            valid_email(email)
        }
    }

    /// Token creation is hard-blocked: the policy is active, enforced (not
    /// `prompt_only`) and unmet.
    pub open spec fn blocks_token_create(&self, email: Seq<char>, mobile: Option<&str>) -> bool {
        self.policy_active() && self.bind_enforcement@ != "prompt_only"@ && !self.bind_satisfied(
            email,
            mobile,
        )
    }

    /// The message shown when token creation is blocked.
    pub open spec fn block_message(&self) -> Seq<char> {
        if self.require_bind_mobile && self.require_bind_email {
            if self.bind_enforcement@ == "any"@ {
                "创建 API 令牌前请先绑定手机号或邮箱"@
            } else {
                "创建 API 令牌前请先绑定手机号和邮箱"@
            }
        } else if self.require_bind_mobile {
            "创建 API 令牌前请先绑定手机号"@
        } else if self.require_bind_email {
            "创建 API 令牌前请先绑定邮箱"@
        } else {
            "创建 API 令牌前请先完成账号绑定"@
        }
    }

    /// Whether any binding channel is required.
    pub fn bind_policy_active(&self) -> (r: bool)
        ensures
            r == self.policy_active(),
    {
        self.require_bind_mobile || self.require_bind_email
    }

    /// A mobile number counts as bound when present and not blank.
    pub fn has_valid_mobile(mobile: Option<&str>) -> (r: bool)
        ensures
            r == valid_mobile(mobile),
    {
        match mobile {
            Some(m) => trim_str(m).unicode_len() > 0,
            None => false,
        }
    }

    /// An e-mail counts as bound when not blank and not a placeholder address.
    pub fn has_valid_email(email: &str) -> (r: bool)
        ensures
            r == valid_email(email@),
    {
        let t = chars_of(trim_str(email));
        let suffix = chars_of("@tokensbyte.local");
        t.len() > 0 && !chars_ends_with(t.as_slice(), suffix.as_slice())
    }

    /// Whether the user's bindings satisfy the policy (whatever the enforcement).
    pub fn is_bind_satisfied(&self, email: &str, mobile: Option<&str>) -> (r: bool)
        ensures
            r == self.bind_satisfied(email@, mobile),
    {
        if !self.bind_policy_active() {
            return true;
        }
        let has_mobile = Self::has_valid_mobile(mobile);
        let has_email = Self::has_valid_email(email);
        if self.require_bind_mobile && self.require_bind_email {
            if str_eq(self.bind_enforcement.as_str(), "any") {
                has_mobile || has_email
            } else {
                has_mobile && has_email
            }
        } else if self.require_bind_mobile {
            has_mobile
        } else if self.require_bind_email {
            has_email
        } else {
            true
        }
    }

    /// Whether creating an API token must be refused.
    pub fn should_block_token_create(&self, email: &str, mobile: Option<&str>) -> (r: bool)
        ensures
            r == self.blocks_token_create(email@, mobile),
    {
        self.bind_policy_active() && !str_eq(self.bind_enforcement.as_str(), "prompt_only")
            && !self.is_bind_satisfied(email, mobile)
    }

    /// The message returned when token creation is refused.
    pub fn token_bind_block_message(&self) -> (r: String)
        ensures
            r@ == self.block_message(),
    {
        if self.require_bind_mobile && self.require_bind_email {
            if str_eq(self.bind_enforcement.as_str(), "any") {
                to_owned_string("创建 API 令牌前请先绑定手机号或邮箱")
            } else {
                to_owned_string("创建 API 令牌前请先绑定手机号和邮箱")
            }
        } else if self.require_bind_mobile {
            to_owned_string("创建 API 令牌前请先绑定手机号")
        } else if self.require_bind_email {
            to_owned_string("创建 API 令牌前请先绑定邮箱")
        } else {
            to_owned_string("创建 API 令牌前请先完成账号绑定")
        }
    }
}

/// What each binding policy asks of a user:
/// - with only the e-mail required, the policy is met exactly when the
///   e-mail is valid, whatever the mobile number, so a valid e-mail never
///   blocks token creation;
/// - with only the mobile required, exactly when the mobile is valid,
///   whatever the e-mail;
/// - with both required, both must be valid under `all` enforcement and
///   either suffices under `any`.
pub proof fn law_bind_policy_channels(
    r: RegistrationSettings,
    email: Seq<char>,
    mobile: Option<&str>,
    other_email: Seq<char>,
    other_mobile: Option<&str>,
)
    ensures
        !r.require_bind_mobile && r.require_bind_email ==> r.bind_satisfied(email, mobile)
            == valid_email(email) && r.bind_satisfied(email, mobile) == r.bind_satisfied(
            email,
            other_mobile,
        ),
        !r.require_bind_mobile && r.require_bind_email && valid_email(email)
            ==> !r.blocks_token_create(email, mobile),
        r.require_bind_mobile && !r.require_bind_email ==> r.bind_satisfied(email, mobile)
            == valid_mobile(mobile) && r.bind_satisfied(email, mobile) == r.bind_satisfied(
            other_email,
            mobile,
        ),
        r.require_bind_mobile && !r.require_bind_email && valid_mobile(mobile)
            ==> !r.blocks_token_create(email, mobile),
        r.require_bind_mobile && r.require_bind_email && r.bind_enforcement@ == "all"@
            ==> r.bind_satisfied(email, mobile) == (valid_mobile(mobile) && valid_email(email)),
        r.require_bind_mobile && r.require_bind_email && r.bind_enforcement@ == "any"@
            ==> r.bind_satisfied(email, mobile) == (valid_mobile(mobile) || valid_email(email)),
{
    reveal_strlit("all");
    reveal_strlit("any");
    assert("all"@[1] != "any"@[1]);
}

/// A hard block is always an unmet policy: whenever token creation is
/// refused, the user's bindings do not satisfy the policy, and with no
/// binding channel required nothing is ever refused.
pub proof fn law_block_implies_unsatisfied(
    r: RegistrationSettings,
    email: Seq<char>,
    mobile: Option<&str>,
)
    ensures
        r.blocks_token_create(email, mobile) ==> !r.bind_satisfied(email, mobile),
        !r.policy_active() ==> r.bind_satisfied(email, mobile) && !r.blocks_token_create(
            email,
            mobile,
        ),
        r.bind_enforcement@ == "prompt_only"@ ==> !r.blocks_token_create(email, mobile),
{
}

// ───────────────────────── SMS provider ─────────────────────────

impl SmsSettings {
    /// The provider is Volcengine (case-insensitive, surrounding blanks ignored).
    pub fn is_volcengine(&self) -> (r: bool)
        ensures
            r == eq_ignore_case(trim(self.provider@), "volcengine"@),
    {
        let t = chars_of(trim_str(self.provider.as_str()));
        let v = chars_of("volcengine");
        chars_eq_ignore_case(t.as_slice(), v.as_slice())
    }

    /// Both the secret id and the secret key are set (not blank).
    pub fn credentials_configured(&self) -> (r: bool)
        ensures
            r == (trim(self.secret_id@).len() > 0 && trim(self.secret_key@).len() > 0),
    {
        trim_str(self.secret_id.as_str()).unicode_len() > 0 && trim_str(
            self.secret_key.as_str(),
        ).unicode_len() > 0
    }

    /// The low-balance template id is set (not blank).
    pub fn balance_template_configured(&self) -> (r: bool)
        ensures
            r == (trim(self.balance_template_id@).len() > 0),
    {
        trim_str(self.balance_template_id.as_str()).unicode_len() > 0
    }

    /// The low-balance template id with surrounding blanks removed.
    pub fn balance_template_id_effective(&self) -> (r: &str)
        ensures
            r@ == trim(self.balance_template_id@),
    {
        trim_str(self.balance_template_id.as_str())
    }

    /// The verification-code variable name: the configured one trimmed, or
    /// `code` when blank.
    pub fn code_param_effective(&self) -> (r: &str)
        ensures
            r@ == (if trim(self.code_param@).len() == 0 {
                "code"@
            } else {
                trim(self.code_param@)
            }),
    {
        let p = trim_str(self.code_param.as_str());
        if p.unicode_len() == 0 {
            "code"
        } else {
            p
        }
    }
}

// ───────────────────────── public views of settings ─────────────────────────

impl PublicRegistrationSettings {
    /// The public part of `r`: the method switches and the binding policy,
    /// with an empty enforcement shown as `all`.
    pub fn from_registration(r: &RegistrationSettings) -> (p: Self)
        ensures
            p.enable_username_registration == r.enable_username_registration,
            p.enable_email_registration == r.enable_email_registration,
            p.enable_mobile_registration == r.enable_mobile_registration,
            p.enable_password_recovery == r.enable_password_recovery,
            p.require_bind_mobile == r.require_bind_mobile,
            p.require_bind_email == r.require_bind_email,
            p.bind_enforcement@ == (if r.bind_enforcement@.len() == 0 {
                "all"@
            } else {
                r.bind_enforcement@
            }),
            p.enable_user_kyc == r.enable_user_kyc,
    {
        PublicRegistrationSettings {
            enable_username_registration: r.enable_username_registration,
            enable_email_registration: r.enable_email_registration,
            enable_mobile_registration: r.enable_mobile_registration,
            enable_password_recovery: r.enable_password_recovery,
            require_bind_mobile: r.require_bind_mobile,
            require_bind_email: r.require_bind_email,
            bind_enforcement: if r.bind_enforcement.as_str().unicode_len() == 0 {
                default_bind_enforcement()
            } else {
                r.bind_enforcement.clone()
            },
            enable_user_kyc: r.enable_user_kyc,
        }
    }
}

// ───────────────────────── payment channel catalogue ─────────────────────────

/// Display and ordering of one payment channel on the user side.
///
/// Ordinary channels use the payment method as `id` (`alipay`, `wechat`, …);
/// the aggregated Allinpay channel uses `allinpay` and its two sub-switches.
pub struct PaymentChannelUiItem {
    pub id: String,
    pub sort_order: i32,
    pub enabled: bool,
    pub display_name: Option<String>,
    pub subtitle: Option<String>,
    pub logo_url: Option<String>,
    pub allinpay_wechat_enabled: bool,
    pub allinpay_alipay_enabled: bool,
}

/// The mathematical value of a [`PaymentChannelUiItem`].
pub struct ChannelItemModel {
    pub id: Seq<char>,
    pub sort_order: i32,
    pub enabled: bool,
    pub display_name: Option<Seq<char>>,
    pub subtitle: Option<Seq<char>>,
    pub logo_url: Option<Seq<char>>,
    pub wechat: bool,
    pub alipay: bool,
}

impl View for PaymentChannelUiItem {
    type V = ChannelItemModel;

    open spec fn view(&self) -> ChannelItemModel {
        ChannelItemModel {
            id: self.id@,
            sort_order: self.sort_order,
            enabled: self.enabled,
            display_name: self.display_name.deep_view(),
            subtitle: self.subtitle.deep_view(),
            logo_url: self.logo_url.deep_view(),
            wechat: self.allinpay_wechat_enabled,
            alipay: self.allinpay_alipay_enabled,
        }
    }
}

impl Default for PaymentChannelUiItem {
    fn default() -> (r: Self)
        ensures
            r@ == (ChannelItemModel {
                id: Seq::empty(),
                sort_order: 0,
                enabled: false,
                display_name: None,
                subtitle: None,
                logo_url: None,
                wechat: false,
                alipay: false,
            }),
    {
        PaymentChannelUiItem {
            id: String::new(),
            sort_order: 0,
            enabled: false,
            display_name: None,
            subtitle: None,
            logo_url: None,
            allinpay_wechat_enabled: false,
            allinpay_alipay_enabled: false,
        }
    }
}

/// The saved per-channel display configuration.
pub struct PaymentChannelsUiSettings {
    pub channels: Vec<PaymentChannelUiItem>,
}

/// The models of a list of channel items.
pub open spec fn items_model(v: Seq<PaymentChannelUiItem>) -> Seq<ChannelItemModel> {
    v.map_values(|c: PaymentChannelUiItem| c@)
}

impl View for PaymentChannelsUiSettings {
    type V = Seq<ChannelItemModel>;

    open spec fn view(&self) -> Seq<ChannelItemModel> {
        items_model(self.channels@)
    }
}

impl Default for PaymentChannelsUiSettings {
    fn default() -> (r: Self)
        ensures
            r@ == Seq::<ChannelItemModel>::empty(),
    {
        let r = PaymentChannelsUiSettings { channels: Vec::new() };
        assert(r@ =~= Seq::<ChannelItemModel>::empty());
        r
    }
}

/// A channel as exposed without authentication (no secrets).
pub struct PublicPaymentChannel {
    pub id: String,
    pub sort_order: i32,
    pub enabled: bool,
    pub display_name: Option<String>,
    pub subtitle: Option<String>,
    pub logo_url: Option<String>,
    pub allinpay_methods: Vec<String>,
}

/// The mathematical value of a [`PublicPaymentChannel`].
pub struct PublicChannelModel {
    pub id: Seq<char>,
    pub sort_order: i32,
    pub enabled: bool,
    pub display_name: Option<Seq<char>>,
    pub subtitle: Option<Seq<char>>,
    pub logo_url: Option<Seq<char>>,
    pub allinpay_methods: Seq<Seq<char>>,
}

impl View for PublicPaymentChannel {
    type V = PublicChannelModel;

    open spec fn view(&self) -> PublicChannelModel {
        PublicChannelModel {
            id: self.id@,
            sort_order: self.sort_order,
            enabled: self.enabled,
            display_name: self.display_name.deep_view(),
            subtitle: self.subtitle.deep_view(),
            logo_url: self.logo_url.deep_view(),
            allinpay_methods: self.allinpay_methods.deep_view(),
        }
    }
}

impl Default for PublicPaymentChannel {
    fn default() -> (r: Self)
        ensures
            r@ == (PublicChannelModel {
                id: Seq::empty(),
                sort_order: 0,
                enabled: false,
                display_name: None,
                subtitle: None,
                logo_url: None,
                allinpay_methods: Seq::empty(),
            }),
    {
        let r = PublicPaymentChannel {
            id: String::new(),
            sort_order: 0,
            enabled: false,
            display_name: None,
            subtitle: None,
            logo_url: None,
            allinpay_methods: Vec::new(),
        };
        assert(r.allinpay_methods.deep_view() =~= Seq::<Seq<char>>::empty());
        r
    }
}

/// The built-in channel ids, highest default rank first.
pub open spec fn catalog_ids() -> Seq<Seq<char>> {
    seq!["alipay"@, "wechat"@, "allinpay"@, "stripe"@, "bonuspay"@, "hyperbc"@]
}

/// The default rank of each built-in channel (larger comes first).
pub open spec fn catalog_sorts() -> Seq<i32> {
    seq![70i32, 60i32, 50i32, 30i32, 20i32, 10i32]
}

/// The built-in channel ids with their default rank.
pub fn payment_channel_catalog() -> (r: Vec<(&'static str, i32)>)
    ensures
        r@.len() == 6,
        forall|k: int| 0 <= k < 6 ==> (#[trigger] r@[k]).0@ == catalog_ids()[k] && r@[k].1 == catalog_sorts()[k],
{
    let mut v: Vec<(&'static str, i32)> = Vec::new();
    v.push(("alipay", 70));
    v.push(("wechat", 60));
    v.push(("allinpay", 50));
    v.push(("stripe", 30));
    v.push(("bonuspay", 20));
    v.push(("hyperbc", 10));
    v
}

/// `Option<String>` trimmed, with a blank value dropped.
pub open spec fn trim_opt_model(o: Option<Seq<char>>) -> Option<Seq<char>> {
    match o {
        Some(v) => if trim(v).len() > 0 {
            Some(trim(v))
        } else {
            None
        },
        None => None,
    }
}

/// An optional text trimmed, blank dropped.
pub fn trim_opt(s: &Option<String>) -> (r: Option<String>)
    ensures
        r.deep_view() == trim_opt_model(s.deep_view()),
{
    match s {
        Some(v) => {
            let t = trim_string(v.as_str());
            if t.as_str().unicode_len() > 0 {
                Some(t)
            } else {
                None
            }
        },
        None => None,
    }
}

/// The Allinpay sub-methods that an item switches on, in fixed order.
pub open spec fn methods_model(c: ChannelItemModel) -> Seq<Seq<char>> {
    let w: Seq<Seq<char>> = if c.wechat {
        seq!["allinpay_wechat"@]
    } else {
        Seq::empty()
    };
    if c.alipay {
        w.push("allinpay_alipay"@)
    } else {
        w
    }
}

impl PaymentChannelUiItem {
    /// Display name, trimmed; blank → `None`.
    pub fn normalized_display(&self) -> (r: Option<String>)
        ensures
            r.deep_view() == trim_opt_model(self@.display_name),
    {
        trim_opt(&self.display_name)
    }

    /// Subtitle, trimmed; blank → `None`.
    pub fn normalized_subtitle(&self) -> (r: Option<String>)
        ensures
            r.deep_view() == trim_opt_model(self@.subtitle),
    {
        trim_opt(&self.subtitle)
    }

    /// Logo address, trimmed; blank → `None`.
    pub fn normalized_logo_url(&self) -> (r: Option<String>)
        ensures
            r.deep_view() == trim_opt_model(self@.logo_url),
    {
        trim_opt(&self.logo_url)
    }

    /// The Allinpay payment methods this item enables.
    pub fn allinpay_methods(&self) -> (r: Vec<String>)
        ensures
            r.deep_view() == methods_model(self@),
    {
        let mut methods: Vec<String> = Vec::new();
        if self.allinpay_wechat_enabled {
            methods.push(to_owned_string("allinpay_wechat"));
        }
        if self.allinpay_alipay_enabled {
            methods.push(to_owned_string("allinpay_alipay"));
        }
        assert(methods.deep_view() =~= methods_model(self@));
        methods
    }

    /// A copy with the same model.
    pub fn duplicate(&self) -> (r: Self)
        ensures
            r@ == self@,
    {
        PaymentChannelUiItem {
            id: self.id.clone(),
            sort_order: self.sort_order,
            enabled: self.enabled,
            display_name: self.display_name.clone(),
            subtitle: self.subtitle.clone(),
            logo_url: self.logo_url.clone(),
            allinpay_wechat_enabled: self.allinpay_wechat_enabled,
            allinpay_alipay_enabled: self.allinpay_alipay_enabled,
        }
    }
}

impl PaymentGatewayEnableFlags {
    /// Whether the gateway behind channel `id` is enabled; unknown ids → false.
    pub open spec fn enabled_for(&self, id: Seq<char>) -> bool {
        if id == "wechat"@ {
            self.wechat
        } else if id == "alipay"@ {
            self.alipay
        } else if id == "stripe"@ {
            self.stripe
        } else if id == "bonuspay"@ {
            self.bonuspay
        } else if id == "hyperbc"@ {
            self.hyperbc
        } else if id == "allinpay"@ {
            self.allinpay
        } else {
            false
        }
    }

    /// The default `enabled` of a channel missing from the saved configuration.
    pub fn default_enabled_for(&self, channel_id: &str) -> (r: bool)
        ensures
            r == self.enabled_for(channel_id@),
    {
        if str_eq(channel_id, "wechat") {
            self.wechat
        } else if str_eq(channel_id, "alipay") {
            self.alipay
        } else if str_eq(channel_id, "stripe") {
            self.stripe
        } else if str_eq(channel_id, "bonuspay") {
            self.bonuspay
        } else if str_eq(channel_id, "hyperbc") {
            self.hyperbc
        } else if str_eq(channel_id, "allinpay") {
            self.allinpay
        } else {
            false
        }
    }

    /// Whether the gateway behind a channel is ready to take payments.
    pub fn gateway_ready_for(&self, channel_id: &str) -> (r: bool)
        ensures
            r == self.enabled_for(channel_id@),
    {
        self.default_enabled_for(channel_id)
    }
}

/// The last item of `chs` whose id is exactly `id` (a map keyed by id keeps
/// the last of duplicate ids).
pub open spec fn lookup_last(chs: Seq<ChannelItemModel>, id: Seq<char>) -> Option<ChannelItemModel>
    decreases chs.len(),
{
    if chs.len() == 0 {
        None
    } else if chs.last().id == id {
        Some(chs.last())
    } else {
        lookup_last(chs.drop_last(), id)
    }
}

/// The first item of `chs` whose id is exactly `id`.
pub open spec fn lookup_first(chs: Seq<ChannelItemModel>, id: Seq<char>) -> Option<ChannelItemModel>
    decreases chs.len(),
{
    if chs.len() == 0 {
        None
    } else if chs[0].id == id {
        Some(chs[0])
    } else {
        lookup_first(chs.drop_first(), id)
    }
}

/// `a`, else `b`.
pub open spec fn or_else<T>(a: Option<T>, b: Option<T>) -> Option<T> {
    if a is Some {
        a
    } else {
        b
    }
}

/// The aggregated `allinpay` item built from the legacy split items
/// `allinpay_wechat` (`lw`) and `allinpay_alipay` (`la`).
pub open spec fn legacy_allinpay(
    lw: Option<ChannelItemModel>,
    la: Option<ChannelItemModel>,
    gateway_on: bool,
) -> ChannelItemModel {
    ChannelItemModel {
        id: "allinpay"@,
        sort_order: match (lw, la) {
            (Some(w), Some(a)) => if w.sort_order >= a.sort_order {
                w.sort_order
            } else {
                a.sort_order
            },
            (Some(w), None) => w.sort_order,
            (None, Some(a)) => a.sort_order,
            (None, None) => 50i32,
        },
        enabled: (lw matches Some(w) && w.enabled) || (la matches Some(a) && a.enabled),
        display_name: or_else(
            match lw {
                Some(w) => trim_opt_model(w.display_name),
                None => None,
            },
            match la {
                Some(a) => trim_opt_model(a.display_name),
                None => None,
            },
        ),
        subtitle: or_else(
            match lw {
                Some(w) => trim_opt_model(w.subtitle),
                None => None,
            },
            match la {
                Some(a) => trim_opt_model(a.subtitle),
                None => None,
            },
        ),
        logo_url: or_else(
            match lw {
                Some(w) => trim_opt_model(w.logo_url),
                None => None,
            },
            match la {
                Some(a) => trim_opt_model(a.logo_url),
                None => None,
            },
        ),
        wechat: match lw {
            Some(w) => w.enabled,
            None => gateway_on,
        },
        alipay: match la {
            Some(a) => a.enabled,
            None => gateway_on,
        },
    }
}

/// The saved `allinpay` item, else the one folded from the legacy split items.
pub open spec fn saved_allinpay(chs: Seq<ChannelItemModel>, gw: PaymentGatewayEnableFlags) -> Option<
    ChannelItemModel,
> {
    match lookup_last(chs, "allinpay"@) {
        Some(it) => Some(it),
        None => {
            let lw = lookup_last(chs, "allinpay_wechat"@);
            let la = lookup_last(chs, "allinpay_alipay"@);
            if lw is Some || la is Some {
                Some(legacy_allinpay(lw, la, gw.allinpay))
            } else {
                None
            }
        },
    }
}

/// A saved item placed at catalogue slot `id`: an empty id takes the slot's
/// id; an enabled `allinpay` with both sub-switches off gets both on.
pub open spec fn fix_saved(it: ChannelItemModel, id: Seq<char>) -> ChannelItemModel {
    let it1 = if it.id.len() == 0 {
        ChannelItemModel { id: id, ..it }
    } else {
        it
    };
    if id == "allinpay"@ && !it1.wechat && !it1.alipay && it1.enabled {
        ChannelItemModel { wechat: true, alipay: true, ..it1 }
    } else {
        it1
    }
}

/// The item a catalogue slot holds when nothing was saved for it.
pub open spec fn default_item(id: Seq<char>, sort: i32, enabled: bool) -> ChannelItemModel {
    ChannelItemModel {
        id: id,
        sort_order: sort,
        enabled: enabled,
        display_name: None,
        subtitle: None,
        logo_url: None,
        wechat: true,
        alipay: true,
    }
}

/// Catalogue slot `k` of the merged configuration.
pub open spec fn merged_slot(chs: Seq<ChannelItemModel>, gw: PaymentGatewayEnableFlags, k: int) -> ChannelItemModel {
    let id = catalog_ids()[k];
    let found = if id == "allinpay"@ {
        saved_allinpay(chs, gw)
    } else {
        lookup_last(chs, id)
    };
    match found {
        Some(it) => fix_saved(it, id),
        None => default_item(id, catalog_sorts()[k], gw.enabled_for(id)),
    }
}

/// The merged configuration: one item per catalogue channel, in catalogue order.
pub open spec fn merged_model(chs: Seq<ChannelItemModel>, gw: PaymentGatewayEnableFlags) -> Seq<ChannelItemModel> {
    Seq::new(6, |k: int| merged_slot(chs, gw, k))
}

/// Index of the last item with id `id`.
fn find_last_id(chs: &Vec<PaymentChannelUiItem>, id: &str) -> (r: Option<usize>)
    ensures
        match r {
            Some(i) => i < chs@.len() && lookup_last(items_model(chs@), id@) == Some(chs@[i as int]@),
            None => lookup_last(items_model(chs@), id@) is None,
        },
{
    let mut j: usize = chs.len();
    assert(chs@.subrange(0, j as int) =~= chs@);
    while j > 0
        invariant
            j <= chs@.len(),
            lookup_last(items_model(chs@), id@) == lookup_last(items_model(chs@.subrange(0, j as int)), id@),
        decreases j,
    {
        let ghost pre = items_model(chs@.subrange(0, j as int));
        assert(pre.last() == chs@[j - 1]@);
        assert(pre.drop_last() =~= items_model(chs@.subrange(0, j - 1)));
        if str_eq(chs[j - 1].id.as_str(), id) {
            return Some(j - 1);
        }
        j = j - 1;
    }
    assert(items_model(chs@.subrange(0, 0)) =~= Seq::<ChannelItemModel>::empty());
    None
}

/// Index of the first item with id `id`.
fn find_first_id(chs: &Vec<PaymentChannelUiItem>, id: &str) -> (r: Option<usize>)
    ensures
        match r {
            Some(i) => i < chs@.len() && lookup_first(items_model(chs@), id@) == Some(chs@[i as int]@),
            None => lookup_first(items_model(chs@), id@) is None,
        },
{
    let mut j: usize = 0;
    assert(chs@.subrange(0, chs@.len() as int) =~= chs@);
    while j < chs.len()
        invariant
            j <= chs@.len(),
            lookup_first(items_model(chs@), id@) == lookup_first(items_model(chs@.subrange(j as int, chs@.len() as int)), id@),
        decreases chs.len() - j,
    {
        let ghost post = items_model(chs@.subrange(j as int, chs@.len() as int));
        assert(post[0] == chs@[j as int]@);
        assert(post.drop_first() =~= items_model(chs@.subrange(j + 1, chs@.len() as int)));
        if str_eq(chs[j].id.as_str(), id) {
            return Some(j);
        }
        j = j + 1;
    }
    assert(items_model(chs@.subrange(j as int, chs@.len() as int)) =~= Seq::<ChannelItemModel>::empty());
    None
}

/// The larger of two ranks.
fn max_i32(a: i32, b: i32) -> (r: i32)
    ensures
        r == (if a >= b { a } else { b }),
{
    if a >= b {
        a
    } else {
        b
    }
}

/// An optional text trimmed from the first source that has one.
fn first_trimmed(a: Option<&Option<String>>, b: Option<&Option<String>>) -> (r: Option<String>)
    ensures
        r.deep_view() == or_else(
            match a {
                Some(x) => trim_opt_model(x.deep_view()),
                None => None,
            },
            match b {
                Some(x) => trim_opt_model(x.deep_view()),
                None => None,
            },
        ),
{
    let ta = match a {
        Some(x) => trim_opt(x),
        None => None,
    };
    if ta.is_some() {
        ta
    } else {
        match b {
            Some(x) => trim_opt(x),
            None => None,
        }
    }
}

/// The aggregated Allinpay item folded from legacy split items.
fn fold_legacy_allinpay(
    lw: Option<&PaymentChannelUiItem>,
    la: Option<&PaymentChannelUiItem>,
    gateway_on: bool,
) -> (r: PaymentChannelUiItem)
    ensures
        r@ == legacy_allinpay(
            match lw {
                Some(w) => Some(w@),
                None => None,
            },
            match la {
                Some(a) => Some(a@),
                None => None,
            },
            gateway_on,
        ),
{
    let sort_order = match (lw, la) {
        (Some(w), Some(a)) => max_i32(w.sort_order, a.sort_order),
        (Some(w), None) => w.sort_order,
        (None, Some(a)) => a.sort_order,
        (None, None) => 50,
    };
    let enabled = (match lw {
        Some(w) => w.enabled,
        None => false,
    }) || (match la {
        Some(a) => a.enabled,
        None => false,
    });
    let display = first_trimmed(
        match lw {
            Some(w) => Some(&w.display_name),
            None => None,
        },
        match la {
            Some(a) => Some(&a.display_name),
            None => None,
        },
    );
    let subtitle = first_trimmed(
        match lw {
            Some(w) => Some(&w.subtitle),
            None => None,
        },
        match la {
            Some(a) => Some(&a.subtitle),
            None => None,
        },
    );
    let logo = first_trimmed(
        match lw {
            Some(w) => Some(&w.logo_url),
            None => None,
        },
        match la {
            Some(a) => Some(&a.logo_url),
            None => None,
        },
    );
    PaymentChannelUiItem {
        id: to_owned_string("allinpay"),
        sort_order,
        enabled,
        display_name: display,
        subtitle,
        logo_url: logo,
        allinpay_wechat_enabled: match lw {
            Some(w) => w.enabled,
            None => gateway_on,
        },
        allinpay_alipay_enabled: match la {
            Some(a) => a.enabled,
            None => gateway_on,
        },
    }
}

/// The saved (or legacy-folded) item for the `allinpay` slot.
fn allinpay_from_saved(chs: &Vec<PaymentChannelUiItem>, gw: &PaymentGatewayEnableFlags) -> (r: Option<PaymentChannelUiItem>)
    ensures
        match r {
            Some(it) => saved_allinpay(items_model(chs@), *gw) == Some(it@),
            None => saved_allinpay(items_model(chs@), *gw) is None,
        },
{
    match find_last_id(chs, "allinpay") {
        Some(i) => Some(chs[i].duplicate()),
        None => {
            let iw = find_last_id(chs, "allinpay_wechat");
            let ia = find_last_id(chs, "allinpay_alipay");
            if iw.is_none() && ia.is_none() {
                return None;
            }
            let lw = match iw {
                Some(i) => Some(&chs[i]),
                None => None,
            };
            let la = match ia {
                Some(i) => Some(&chs[i]),
                None => None,
            };
            Some(fold_legacy_allinpay(lw, la, gw.allinpay))
        },
    }
}

/// Places a saved item at catalogue slot `id` (see [`fix_saved`]).
fn fix_saved_item(it: PaymentChannelUiItem, id: &str) -> (r: PaymentChannelUiItem)
    ensures
        r@ == fix_saved(it@, id@),
{
    let mut item = it;
    if item.id.as_str().unicode_len() == 0 {
        item.id = to_owned_string(id);
    }
    if str_eq(id, "allinpay") && !item.allinpay_wechat_enabled && !item.allinpay_alipay_enabled
        && item.enabled {
        item.allinpay_wechat_enabled = true;
        item.allinpay_alipay_enabled = true;
    }
    item
}

/// Merges the saved channel display configuration with the built-in
/// catalogue: one item per catalogue channel in catalogue order; a saved item
/// (the last one of its id) wins; legacy split Allinpay items are folded into
/// one `allinpay` item; missing channels default to their gateway's state.
pub fn merge_payment_channels_ui(
    saved: Option<PaymentChannelsUiSettings>,
    gateway: &PaymentGatewayEnableFlags,
) -> (r: PaymentChannelsUiSettings)
    ensures
        r@ == merged_model(
            match saved {
                Some(s) => s@,
                None => Seq::empty(),
            },
            *gateway,
        ),
{
    let chs: Vec<PaymentChannelUiItem> = match saved {
        Some(s) => s.channels,
        None => Vec::new(),
    };
    let ghost m = items_model(chs@);
    let catalog = payment_channel_catalog();
    let mut channels: Vec<PaymentChannelUiItem> = Vec::new();
    let mut k: usize = 0;
    while k < catalog.len()
        invariant
            catalog@.len() == 6,
            forall|t: int| 0 <= t < 6 ==> (#[trigger] catalog@[t]).0@ == catalog_ids()[t] && catalog@[t].1 == catalog_sorts()[t],
            m == items_model(chs@),
            k <= 6,
            channels@.len() == k,
            forall|t: int| 0 <= t < k ==> (#[trigger] channels@[t])@ == merged_slot(m, *gateway, t),
        decreases 6 - k,
    {
        let (id, default_sort) = catalog[k];
        assert(id@ == catalog_ids()[k as int]);
        let found = if str_eq(id, "allinpay") {
            allinpay_from_saved(&chs, gateway)
        } else {
            match find_last_id(&chs, id) {
                Some(i) => Some(chs[i].duplicate()),
                None => None,
            }
        };
        let item = match found {
            Some(it) => fix_saved_item(it, id),
            None => PaymentChannelUiItem {
                id: to_owned_string(id),
                sort_order: default_sort,
                enabled: gateway.default_enabled_for(id),
                display_name: None,
                subtitle: None,
                logo_url: None,
                allinpay_wechat_enabled: true,
                allinpay_alipay_enabled: true,
            },
        };
        assert(item@ == merged_slot(m, *gateway, k as int));
        channels.push(item);
        k = k + 1;
    }
    let r = PaymentChannelsUiSettings { channels };
    assert(r@ =~= merged_model(m, *gateway));
    r
}

/// The public view of one configured channel.
pub open spec fn public_of(c: ChannelItemModel, gw: PaymentGatewayEnableFlags) -> PublicChannelModel {
    let gateway_on = gw.enabled_for(c.id);
    let is_allinpay = c.id == "allinpay"@;
    let methods: Seq<Seq<char>> = if is_allinpay {
        methods_model(c)
    } else {
        Seq::empty()
    };
    let channel_on = if is_allinpay {
        c.enabled && methods.len() > 0
    } else {
        c.enabled
    };
    PublicChannelModel {
        id: c.id,
        sort_order: c.sort_order,
        enabled: channel_on && gateway_on,
        display_name: trim_opt_model(c.display_name),
        subtitle: trim_opt_model(c.subtitle),
        logo_url: trim_opt_model(c.logo_url),
        allinpay_methods: if is_allinpay && gateway_on && c.enabled {
            methods
        } else {
            Seq::empty()
        },
    }
}

/// `a` strictly precedes `b`: higher rank first, then smaller id.
pub open spec fn precedes(a: PublicChannelModel, b: PublicChannelModel) -> bool {
    a.sort_order > b.sort_order || (a.sort_order == b.sort_order && seq_lt(a.id, b.id))
}

/// Where a stable insertion places `x` in the ordered `s`: after every
/// element that `x` does not strictly precede.
pub open spec fn insert_pos(s: Seq<PublicChannelModel>, x: PublicChannelModel) -> int
    decreases s.len(),
{
    if s.len() == 0 {
        0
    } else if precedes(x, s.last()) {
        insert_pos(s.drop_last(), x)
    } else {
        s.len() as int
    }
}

/// The stable ordering of `s` by [`precedes`] (what a stable sort returns).
pub open spec fn stable_sorted(s: Seq<PublicChannelModel>) -> Seq<PublicChannelModel>
    decreases s.len(),
{
    if s.len() == 0 {
        s
    } else {
        let t = stable_sorted(s.drop_last());
        t.insert(insert_pos(t, s.last()), s.last())
    }
}

/// The public channel list for a configuration.
pub open spec fn public_channels_model(ui: Seq<ChannelItemModel>, gw: PaymentGatewayEnableFlags) -> Seq<PublicChannelModel> {
    stable_sorted(ui.map_values(|c: ChannelItemModel| public_of(c, gw)))
}

/// The models of a list of public channels.
pub open spec fn public_model(v: Seq<PublicPaymentChannel>) -> Seq<PublicChannelModel> {
    v.map_values(|c: PublicPaymentChannel| c@)
}

proof fn lemma_insert_pos_tail(s: Seq<PublicChannelModel>, x: PublicChannelModel, j: int)
    requires
        0 <= j <= s.len(),
        forall|k: int| j <= k < s.len() ==> precedes(x, #[trigger] s[k]),
    ensures
        insert_pos(s, x) == insert_pos(s.subrange(0, j), x),
    decreases s.len() - j,
{
    if j < s.len() {
        lemma_insert_pos_tail(s.drop_last(), x, j);
        assert(s.drop_last().subrange(0, j) =~= s.subrange(0, j));
    } else {
        assert(s.subrange(0, j) =~= s);
    }
}

/// `a` strictly precedes `b`.
fn channel_precedes(a: &PublicPaymentChannel, b: &PublicPaymentChannel) -> (r: bool)
    ensures
        r == precedes(a@, b@),
{
    if a.sort_order > b.sort_order {
        return true;
    }
    if a.sort_order < b.sort_order {
        return false;
    }
    let ia = chars_of(a.id.as_str());
    let ib = chars_of(b.id.as_str());
    chars_lt(ia.as_slice(), ib.as_slice())
}

/// Inserts `x` into the ordered `v` after every element `x` does not
/// strictly precede.
fn insert_stable(v: &mut Vec<PublicPaymentChannel>, x: PublicPaymentChannel)
    ensures
        public_model(final(v)@) == public_model(old(v)@).insert(insert_pos(public_model(old(v)@), x@), x@),
{
    let ghost s = public_model(v@);
    let mut pos: usize = v.len();
    while pos > 0 && channel_precedes(&x, &v[pos - 1])
        invariant
            pos <= v@.len(),
            s == public_model(v@),
            forall|k: int| pos <= k < s.len() ==> precedes(x@, #[trigger] s[k]),
        decreases pos,
    {
        pos = pos - 1;
    }
    proof {
        lemma_insert_pos_tail(s, x@, pos as int);
        let t = s.subrange(0, pos as int);
        if pos > 0 {
            assert(t.last() == s[pos - 1]);
            assert(!precedes(x@, t.last()));
        }
        assert(insert_pos(t, x@) == pos);
    }
    let ghost xm = x@;
    v.insert(pos, x);
    assert(public_model(v@) =~= s.insert(pos as int, xm));
}

/// The public view of one configured channel.
fn public_channel(c: &PaymentChannelUiItem, gateway: &PaymentGatewayEnableFlags) -> (r: PublicPaymentChannel)
    ensures
        r@ == public_of(c@, *gateway),
{
    let gateway_on = gateway.gateway_ready_for(c.id.as_str());
    let is_allinpay = str_eq(c.id.as_str(), "allinpay");
    let methods = if is_allinpay {
        c.allinpay_methods()
    } else {
        Vec::new()
    };
    assert(!is_allinpay ==> methods.deep_view() =~= Seq::<Seq<char>>::empty());
    let channel_on = if is_allinpay {
        c.enabled && methods.len() > 0
    } else {
        c.enabled
    };
    let allinpay_methods = if is_allinpay && gateway_on && c.enabled {
        methods
    } else {
        Vec::new()
    };
    let r = PublicPaymentChannel {
        id: c.id.clone(),
        sort_order: c.sort_order,
        enabled: channel_on && gateway_on,
        display_name: c.normalized_display(),
        subtitle: c.normalized_subtitle(),
        logo_url: c.normalized_logo_url(),
        allinpay_methods,
    };
    assert(r.allinpay_methods.deep_view() =~= public_of(c@, *gateway).allinpay_methods);
    r
}

/// The channel list shown without authentication: a channel is on when it
/// and its gateway are on (Allinpay also needs a sub-method); ordered by rank,
/// highest first, then by id; equal keys keep their configured order.
pub fn build_public_payment_channels(
    ui: &PaymentChannelsUiSettings,
    gateway: &PaymentGatewayEnableFlags,
) -> (r: Vec<PublicPaymentChannel>)
    ensures
        public_model(r@) == public_channels_model(ui@, *gateway),
{
    let ghost mapped = ui@.map_values(|c: ChannelItemModel| public_of(c, *gateway));
    let mut list: Vec<PublicPaymentChannel> = Vec::new();
    let mut i: usize = 0;
    assert(public_model(list@) =~= stable_sorted(mapped.subrange(0, 0)));
    while i < ui.channels.len()
        invariant
            i <= ui.channels@.len(),
            mapped == ui@.map_values(|c: ChannelItemModel| public_of(c, *gateway)),
            public_model(list@) == stable_sorted(mapped.subrange(0, i as int)),
        decreases ui.channels.len() - i,
    {
        let p = public_channel(&ui.channels[i], gateway);
        proof {
            let sub = mapped.subrange(0, i + 1);
            assert(sub.drop_last() =~= mapped.subrange(0, i as int));
            assert(sub.last() == p@);
        }
        insert_stable(&mut list, p);
        i = i + 1;
    }
    assert(mapped.subrange(0, mapped.len() as int) =~= mapped);
    list
}

/// Some public channel with id `id` is enabled.
pub open spec fn any_enabled(chs: Seq<PublicChannelModel>, id: Seq<char>) -> bool {
    exists|i: int| 0 <= i < chs.len() && chs[i].id == id && chs[i].enabled
}

/// Whether some channel with id `id` is enabled.
fn channel_on(channels: &[PublicPaymentChannel], id: &str) -> (r: bool)
    ensures
        r == any_enabled(public_model(channels@), id@),
{
    let mut i: usize = 0;
    while i < channels.len()
        invariant
            i <= channels@.len(),
            forall|k: int| 0 <= k < i ==> !(channels@[k].id@ == id@ && channels@[k].enabled),
        decreases channels.len() - i,
    {
        if channels[i].enabled && str_eq(channels[i].id.as_str(), id) {
            assert(public_model(channels@)[i as int] == channels@[i as int]@);
            return true;
        }
        i = i + 1;
    }
    proof {
        assert forall|k: int| !(0 <= k < public_model(channels@).len() && public_model(channels@)[k].id == id@ && public_model(channels@)[k].enabled) by {
            if 0 <= k < public_model(channels@).len() {
                assert(public_model(channels@)[k] == channels@[k]@);
            }
        }
    }
    false
}

/// The legacy per-gateway switches derived from the public channel list.
pub fn public_payment_status_from_channels(channels: &[PublicPaymentChannel]) -> (r: PublicPaymentStatus)
    ensures
        r.wechat_enabled == any_enabled(public_model(channels@), "wechat"@),
        r.alipay_enabled == any_enabled(public_model(channels@), "alipay"@),
        r.stripe_enabled == any_enabled(public_model(channels@), "stripe"@),
        r.bonuspay_enabled == any_enabled(public_model(channels@), "bonuspay"@),
        r.hyperbc_enabled == any_enabled(public_model(channels@), "hyperbc"@),
        r.allinpay_enabled == any_enabled(public_model(channels@), "allinpay"@),
{
    PublicPaymentStatus {
        wechat_enabled: channel_on(channels, "wechat"),
        alipay_enabled: channel_on(channels, "alipay"),
        stripe_enabled: channel_on(channels, "stripe"),
        bonuspay_enabled: channel_on(channels, "bonuspay"),
        hyperbc_enabled: channel_on(channels, "hyperbc"),
        allinpay_enabled: channel_on(channels, "allinpay"),
    }
}

/// Whether the UI configuration allows paying with `channel_id`.
pub open spec fn ui_allows(ui: Seq<ChannelItemModel>, channel_id: Seq<char>) -> bool {
    if channel_id == "allinpay_wechat"@ || channel_id == "allinpay_alipay"@ {
        match lookup_first(ui, "allinpay"@) {
            Some(c) => c.enabled && if channel_id == "allinpay_wechat"@ {
                c.wechat
            } else {
                c.alipay
            },
            None => match lookup_first(ui, channel_id) {
                Some(c) => c.enabled,
                None => true,
            },
        }
    } else {
        match lookup_first(ui, channel_id) {
            Some(c) => c.enabled,
            None => true,
        }
    }
}

/// Whether an order may use payment method `channel_id` according to the UI
/// configuration: the first item with that id decides; Allinpay sub-methods
/// follow the aggregated `allinpay` item (else a legacy split item); with no
/// item the method is allowed (the gateway switch still applies).
pub fn is_payment_channel_ui_enabled(ui: &PaymentChannelsUiSettings, channel_id: &str) -> (r: bool)
    ensures
        r == ui_allows(ui@, channel_id@),
{
    let is_wechat = str_eq(channel_id, "allinpay_wechat");
    let is_alipay = str_eq(channel_id, "allinpay_alipay");
    if is_wechat || is_alipay {
        if let Some(i) = find_first_id(&ui.channels, "allinpay") {
            let c = &ui.channels[i];
            return c.enabled && if is_wechat {
                c.allinpay_wechat_enabled
            } else {
                c.allinpay_alipay_enabled
            };
        }
        if let Some(i) = find_first_id(&ui.channels, channel_id) {
            return ui.channels[i].enabled;
        }
        return true;
    }
    match find_first_id(&ui.channels, channel_id) {
        Some(i) => ui.channels[i].enabled,
        None => true,
    }
}


// ───────────────────────── low-balance notification ─────────────────────────

/// Default HTML body of the low-balance e-mail.
pub const LOW_BALANCE_EMAIL_HTML: &'static str = r#"<div style="font-family: -apple-system, BlinkMacSystemFont, 'Segoe UI', Roboto, 'Helvetica Neue', Arial, sans-serif; max-width: 600px; margin: 0 auto; border: 1px solid #e8e8e8; border-radius: 8px;">
  <div style="padding: 30px;">
    <h2 style="color: #fa8c16; margin: 0 0 24px 0; font-size: 22px; font-weight: 600;">余额不足提醒</h2>
    <p style="color: #333; font-size: 16px; margin: 0 0 16px 0;">您好！</p>
    <p style="color: #333; font-size: 16px; margin: 0 0 24px 0;">您的账户可用余额已低于设定阈值，请及时充值以免影响服务使用。</p>
    <div style="background-color: #f5f5f5; padding: 20px; border-radius: 6px; margin-bottom: 24px;">
      <p style="color: #666; font-size: 14px; margin: 0 0 8px 0;">当前余额：<strong style="color: #fa541c; font-size: 18px;">{{balance}}</strong></p>
      <p style="color: #666; font-size: 14px; margin: 0;">提醒阈值：<strong>{{threshold}}</strong></p>
    </div>
    <div style="border-top: 1px dashed #e8e8e8; margin-top: 24px; padding-top: 16px;">
      <p style="color: #999; font-size: 12px; margin: 0;">此邮件由 {{site_name}} 系统根据您的通知订阅设置自动发送。</p>
    </div>
  </div>
</div>"#;

/// Default HTML body of the low-balance e-mail (supports `{{site_name}}`,
/// `{{balance}}` and `{{threshold}}`).
pub fn default_low_balance_email_html() -> (r: String)
    ensures
        r@ == LOW_BALANCE_EMAIL_HTML@,
{
    to_owned_string(LOW_BALANCE_EMAIL_HTML)
}

/// The low-balance template with its variables filled in, in the order
/// `{{site_name}}`, `{{balance}}`, `{{threshold}}`.
pub open spec fn rendered_template(
    template: Seq<char>,
    site_name: Seq<char>,
    balance: Seq<char>,
    threshold: Seq<char>,
) -> Seq<char> {
    replace_all(
        replace_all(replace_all(template, "{{site_name}}"@, site_name), "{{balance}}"@, balance),
        "{{threshold}}"@,
        threshold,
    )
}

/// Fills the low-balance template variables.
pub fn render_low_balance_template(
    template: &str,
    site_name: &str,
    balance: &str,
    threshold: &str,
) -> (r: String)
    ensures
        r@ == rendered_template(template@, site_name@, balance@, threshold@),
{
    proof {
        reveal_strlit("{{site_name}}");
        reveal_strlit("{{balance}}");
        reveal_strlit("{{threshold}}");
    }
    let a = replace_str(template, "{{site_name}}", site_name);
    let b = replace_str(a.as_str(), "{{balance}}", balance);
    replace_str(b.as_str(), "{{threshold}}", threshold)
}


// ───────────────────────── laws of the channel merge ─────────────────────────

/// An item found by id has that id.
proof fn lemma_lookup_last_id(chs: Seq<ChannelItemModel>, id: Seq<char>)
    ensures
        lookup_last(chs, id) matches Some(it) ==> it.id == id,
    decreases chs.len(),
{
    if chs.len() > 0 && chs.last().id != id {
        lemma_lookup_last_id(chs.drop_last(), id);
    }
}

/// In a sequence where item `k` has id `id` and no later item has, the last
/// item with that id is item `k`.
proof fn lemma_lookup_last_at(chs: Seq<ChannelItemModel>, id: Seq<char>, k: int)
    requires
        0 <= k < chs.len(),
        chs[k].id == id,
        forall|j: int| k < j < chs.len() ==> chs[j].id != id,
    ensures
        lookup_last(chs, id) == Some(chs[k]),
    decreases chs.len(),
{
    if k < chs.len() - 1 {
        let r = chs.drop_last();
        assert forall|j: int| k < j < r.len() implies r[j].id != id by {
            assert(r[j] == chs[j]);
        }
        lemma_lookup_last_at(r, id, k);
        assert(r[k] == chs[k]);
    }
}

/// The first item with id `id` is item `k` when no earlier item has it.
proof fn lemma_lookup_first_at(chs: Seq<ChannelItemModel>, id: Seq<char>, k: int)
    requires
        0 <= k < chs.len(),
        chs[k].id == id,
        forall|j: int| 0 <= j < k ==> chs[j].id != id,
    ensures
        lookup_first(chs, id) == Some(chs[k]),
    decreases k,
{
    if k > 0 {
        let r = chs.drop_first();
        assert forall|j: int| 0 <= j < k - 1 implies r[j].id != id by {
            assert(r[j] == chs[j + 1]);
        }
        lemma_lookup_first_at(r, id, k - 1);
        assert(r[k - 1] == chs[k]);
    }
}

/// The catalogue ids are distinct and not empty.
proof fn lemma_catalog_ids()
    ensures
        forall|i: int, j: int| 0 <= i < j < 6 ==> catalog_ids()[i] != catalog_ids()[j],
        forall|i: int| 0 <= i < 6 ==> (#[trigger] catalog_ids()[i]).len() > 0,
        catalog_ids()[2] == "allinpay"@,
{
    reveal_strlit("alipay");
    reveal_strlit("wechat");
    reveal_strlit("allinpay");
    reveal_strlit("stripe");
    reveal_strlit("bonuspay");
    reveal_strlit("hyperbc");
    let ids = catalog_ids();
    assert(ids[0][2] != ids[2][2]);
    assert(ids[0][0] != ids[1][0] && ids[0][0] != ids[3][0] && ids[0][0] != ids[4][0] && ids[0][0] != ids[5][0]);
    assert(ids[1][0] != ids[2][0] && ids[1][0] != ids[3][0] && ids[1][0] != ids[4][0] && ids[1][0] != ids[5][0]);
    assert(ids[2][0] != ids[3][0] && ids[2][0] != ids[4][0] && ids[2][0] != ids[5][0]);
    assert(ids[3][0] != ids[4][0] && ids[3][0] != ids[5][0] && ids[4][0] != ids[5][0]);
}

/// Every merged slot carries its catalogue id, and a second fix changes
/// nothing.
proof fn lemma_merged_slot(chs: Seq<ChannelItemModel>, gw: PaymentGatewayEnableFlags, k: int)
    requires
        0 <= k < 6,
    ensures
        merged_slot(chs, gw, k).id == catalog_ids()[k],
        fix_saved(merged_slot(chs, gw, k), catalog_ids()[k]) == merged_slot(chs, gw, k),
{
    lemma_catalog_ids();
    let id = catalog_ids()[k];
    assert(id.len() > 0);
    if id == "allinpay"@ {
        lemma_lookup_last_id(chs, "allinpay"@);
    } else {
        lemma_lookup_last_id(chs, id);
    }
}

/// Merging an already merged configuration again gives it back unchanged.
pub proof fn law_merge_idempotent(chs: Seq<ChannelItemModel>, gw: PaymentGatewayEnableFlags)
    ensures
        merged_model(merged_model(chs, gw), gw) == merged_model(chs, gw),
{
    let m = merged_model(chs, gw);
    lemma_catalog_ids();
    assert forall|k: int| 0 <= k < 6 implies #[trigger] m[k].id == catalog_ids()[k] by {
        lemma_merged_slot(chs, gw, k);
    }
    assert forall|k: int| 0 <= k < 6 implies merged_slot(m, gw, k) == m[k] by {
        lemma_merged_slot(chs, gw, k);
        let id = catalog_ids()[k];
        assert forall|j: int| k < j < m.len() implies m[j].id != id by {
            assert(m[j].id == catalog_ids()[j]);
        }
        lemma_lookup_last_at(m, id, k);
        if k == 2 {
            assert(saved_allinpay(m, gw) == Some(m[2]));
        }
    }
    assert(merged_model(m, gw) =~= m);
}


/// Each catalogue channel is gated by the gateway switch of its own name and
/// no other: a configured channel other than Allinpay is shown enabled
/// exactly when it is configured enabled and the gateway of the same name is
/// on; Allinpay is never shown enabled with its gateway off; a channel
/// outside the catalogue is never shown enabled; a catalogue slot with
/// nothing saved for it starts out as the switch of its own gateway; and a
/// one-channel configuration is listed as that channel alone.
pub proof fn law_channel_follows_own_gateway(
    c: ChannelItemModel,
    chs: Seq<ChannelItemModel>,
    gw: PaymentGatewayEnableFlags,
)
    ensures
        c.id == "wechat"@ ==> public_of(c, gw).enabled == (c.enabled && gw.wechat),
        c.id == "alipay"@ ==> public_of(c, gw).enabled == (c.enabled && gw.alipay),
        c.id == "stripe"@ ==> public_of(c, gw).enabled == (c.enabled && gw.stripe),
        c.id == "bonuspay"@ ==> public_of(c, gw).enabled == (c.enabled && gw.bonuspay),
        c.id == "hyperbc"@ ==> public_of(c, gw).enabled == (c.enabled && gw.hyperbc),
        c.id == "allinpay"@ ==> public_of(c, gw).enabled == (c.enabled && gw.allinpay && (c.wechat
            || c.alipay)),
        c.id == "allinpay"@ && public_of(c, gw).enabled ==> (public_of(
            c,
            gw,
        ).allinpay_methods.contains("allinpay_wechat"@) <==> c.wechat) && (public_of(
            c,
            gw,
        ).allinpay_methods.contains("allinpay_alipay"@) <==> c.alipay),
        c.id != "allinpay"@ ==> public_of(c, gw).allinpay_methods.len() == 0,
        !catalog_ids().contains(c.id) ==> !public_of(c, gw).enabled,
        lookup_last(chs, "alipay"@) is None ==> merged_model(chs, gw)[0].id == "alipay"@
            && merged_model(chs, gw)[0].enabled == gw.alipay,
        lookup_last(chs, "wechat"@) is None ==> merged_model(chs, gw)[1].id == "wechat"@
            && merged_model(chs, gw)[1].enabled == gw.wechat,
        lookup_last(chs, "stripe"@) is None ==> merged_model(chs, gw)[3].id == "stripe"@
            && merged_model(chs, gw)[3].enabled == gw.stripe,
        lookup_last(chs, "bonuspay"@) is None ==> merged_model(chs, gw)[4].id == "bonuspay"@
            && merged_model(chs, gw)[4].enabled == gw.bonuspay,
        lookup_last(chs, "hyperbc"@) is None ==> merged_model(chs, gw)[5].id == "hyperbc"@
            && merged_model(chs, gw)[5].enabled == gw.hyperbc,
        public_channels_model(seq![c], gw) == seq![public_of(c, gw)],
{
    lemma_catalog_ids();
    let ids = catalog_ids();
    assert(ids[0] == "alipay"@ && ids[1] == "wechat"@ && ids[2] == "allinpay"@);
    assert(ids[3] == "stripe"@ && ids[4] == "bonuspay"@ && ids[5] == "hyperbc"@);
    if c.id == "allinpay"@ {
        reveal_strlit("allinpay_wechat");
        reveal_strlit("allinpay_alipay");
        assert("allinpay_wechat"@[9] != "allinpay_alipay"@[9]);
        let m = methods_model(c);
        if c.wechat {
            assert(m[0] == "allinpay_wechat"@);
        }
        if c.alipay {
            assert(m[m.len() - 1] == "allinpay_alipay"@);
        }
        assert(m.contains("allinpay_wechat"@) ==> c.wechat);
        assert(m.contains("allinpay_alipay"@) ==> c.alipay);
    }
    if !ids.contains(c.id) {
        assert(c.id != ids[0] && c.id != ids[1] && c.id != ids[2]);
        assert(c.id != ids[3] && c.id != ids[4] && c.id != ids[5]);
    }
    let one = seq![public_of(c, gw)];
    assert(seq![c].map_values(|x: ChannelItemModel| public_of(x, gw)) =~= one);
    assert(one.drop_last() =~= Seq::<PublicChannelModel>::empty());
    assert(stable_sorted(one.drop_last()) =~= Seq::<PublicChannelModel>::empty());
    assert(Seq::<PublicChannelModel>::empty().insert(0, one.last()) =~= one);
}

/// `a` strictly precedes `b` and so `b` does not precede `a`.
proof fn lemma_precedes_asym(a: PublicChannelModel, b: PublicChannelModel)
    requires
        precedes(a, b),
    ensures
        !precedes(b, a),
{
    if a.sort_order == b.sort_order && seq_lt(b.id, a.id) {
        crate::text::lemma_lt_transitive(a.id, b.id, a.id);
        crate::text::lemma_lt_irreflexive(a.id);
    }
}

/// "Does not precede" is transitive.
proof fn lemma_not_precedes_trans(x: PublicChannelModel, m: PublicChannelModel, k: PublicChannelModel)
    requires
        !precedes(x, m),
        !precedes(m, k),
    ensures
        !precedes(x, k),
{
    crate::text::lemma_lt_total(x.id, m.id);
    if seq_lt(m.id, x.id) && seq_lt(x.id, k.id) {
        crate::text::lemma_lt_transitive(m.id, x.id, k.id);
    }
}

/// Where a stable insertion places `x`: everything after is preceded by
/// `x`, the element just before is not.
proof fn lemma_insert_pos(s: Seq<PublicChannelModel>, x: PublicChannelModel)
    ensures
        0 <= insert_pos(s, x) <= s.len(),
        forall|k: int| insert_pos(s, x) <= k < s.len() ==> precedes(x, #[trigger] s[k]),
        insert_pos(s, x) > 0 ==> !precedes(x, s[insert_pos(s, x) - 1]),
    decreases s.len(),
{
    if s.len() > 0 && precedes(x, s.last()) {
        lemma_insert_pos(s.drop_last(), x);
        assert forall|k: int| insert_pos(s, x) <= k < s.len() implies precedes(x, #[trigger] s[k]) by {
            if k < s.len() - 1 {
                assert(s.drop_last()[k] == s[k]);
            }
        }
    }
}

/// No element of `s` is preceded by an element after it.
pub open spec fn in_rank_order(s: Seq<PublicChannelModel>) -> bool {
    forall|i: int, j: int| 0 <= i < j < s.len() ==> !precedes(#[trigger] s[j], #[trigger] s[i])
}

/// The stable ordering is in rank order and holds the same channels.
proof fn lemma_stable_sorted(s: Seq<PublicChannelModel>)
    ensures
        in_rank_order(stable_sorted(s)),
        stable_sorted(s).to_multiset() == s.to_multiset(),
        stable_sorted(s).len() == s.len(),
    decreases s.len(),
{
    broadcast use vstd::seq_lib::to_multiset_insert, vstd::seq_lib::to_multiset_build;
    if s.len() == 0 {
    } else {
        let t = stable_sorted(s.drop_last());
        let x = s.last();
        lemma_stable_sorted(s.drop_last());
        lemma_insert_pos(t, x);
        let p = insert_pos(t, x);
        let r = t.insert(p, x);
        assert(s =~= s.drop_last().push(x));
        assert forall|i: int, j: int| 0 <= i < j < r.len() implies !precedes(#[trigger] r[j], #[trigger] r[i]) by {
            if j < p {
                assert(r[i] == t[i] && r[j] == t[j]);
            } else if j == p {
                assert(r[i] == t[i] && r[j] == x);
                if i < p - 1 {
                    assert(!precedes(t[p - 1], t[i]));
                    lemma_not_precedes_trans(x, t[p - 1], t[i]);
                }
            } else if i == p {
                assert(r[j] == t[j - 1] && r[i] == x);
                lemma_precedes_asym(x, t[j - 1]);
            } else if i < p {
                assert(r[i] == t[i] && r[j] == t[j - 1]);
            } else {
                assert(r[i] == t[i - 1] && r[j] == t[j - 1]);
            }
        }
    }
}

/// The public channel list is ordered by rank, highest first, channels of
/// equal rank by id; and it lists every configured channel once, each in
/// its public form, nothing added and nothing dropped.
pub proof fn law_public_channels_ordered(ui: Seq<ChannelItemModel>, gw: PaymentGatewayEnableFlags)
    ensures
        public_channels_model(ui, gw).len() == ui.len(),
        public_channels_model(ui, gw).to_multiset() == ui.map_values(
            |c: ChannelItemModel| public_of(c, gw),
        ).to_multiset(),
        forall|i: int, j: int|
            0 <= i < j < ui.len() ==> (#[trigger] public_channels_model(ui, gw)[i]).sort_order
                >= (#[trigger] public_channels_model(ui, gw)[j]).sort_order,
        forall|i: int, j: int|
            0 <= i < j < ui.len() && (#[trigger] public_channels_model(ui, gw)[i]).sort_order
                == (#[trigger] public_channels_model(ui, gw)[j]).sort_order ==> !seq_lt(
                public_channels_model(ui, gw)[j].id,
                public_channels_model(ui, gw)[i].id,
            ),
{
    let mapped = ui.map_values(|c: ChannelItemModel| public_of(c, gw));
    lemma_stable_sorted(mapped);
    let r = public_channels_model(ui, gw);
    assert forall|i: int, j: int| 0 <= i < j < ui.len() implies (#[trigger] r[i]).sort_order >= (
    #[trigger] r[j]).sort_order && (r[i].sort_order == r[j].sort_order ==> !seq_lt(r[j].id, r[i].id)) by {
        assert(!precedes(r[j], r[i]));
    }
}

/// Exactly one item of `chs` has id `id`.
pub open spec fn unique_id(chs: Seq<ChannelItemModel>, id: Seq<char>) -> bool {
    exists|k: int|
        0 <= k < chs.len() && chs[k].id == id && forall|j: int| 0 <= j < chs.len() && #[trigger] chs[j].id == id ==> j == k
}

/// Without an item of id `id`, neither lookup finds one.
proof fn lemma_lookup_none(chs: Seq<ChannelItemModel>, id: Seq<char>)
    requires
        forall|j: int| 0 <= j < chs.len() ==> #[trigger] chs[j].id != id,
    ensures
        lookup_last(chs, id) is None,
        lookup_first(chs, id) is None,
    decreases chs.len(),
{
    if chs.len() > 0 {
        let r = chs.drop_last();
        assert forall|j: int| 0 <= j < r.len() implies #[trigger] r[j].id != id by {
            assert(r[j] == chs[j]);
        }
        lemma_lookup_none(r, id);
        let f = chs.drop_first();
        assert forall|j: int| 0 <= j < f.len() implies #[trigger] f[j].id != id by {
            assert(f[j] == chs[j + 1]);
        }
        lemma_lookup_none(f, id);
        assert(chs[0].id != id);
        assert(chs.last().id != id);
    }
}

/// The unique item of id `id` is what both lookups find.
proof fn lemma_unique_lookup(chs: Seq<ChannelItemModel>, id: Seq<char>) -> (k: int)
    requires
        unique_id(chs, id),
    ensures
        0 <= k < chs.len(),
        lookup_last(chs, id) == Some(chs[k]),
        lookup_first(chs, id) == Some(chs[k]),
{
    let k = choose|k: int|
        0 <= k < chs.len() && chs[k].id == id && forall|j: int| 0 <= j < chs.len() && #[trigger] chs[j].id == id ==> j
            == k;
    lemma_lookup_last_at(chs, id, k);
    lemma_lookup_first_at(chs, id, k);
    k
}

/// A configuration that still holds the legacy split Allinpay items (one
/// each, and no aggregated item) allows the Allinpay sub-methods exactly as
/// before once it is merged.
pub proof fn law_merge_keeps_allinpay_methods(
    ui: Seq<ChannelItemModel>,
    gw: PaymentGatewayEnableFlags,
    method: Seq<char>,
)
    requires
        forall|j: int| 0 <= j < ui.len() ==> #[trigger] ui[j].id != "allinpay"@,
        unique_id(ui, "allinpay_wechat"@),
        unique_id(ui, "allinpay_alipay"@),
        method == "allinpay_wechat"@ || method == "allinpay_alipay"@,
    ensures
        ui_allows(merged_model(ui, gw), method) == ui_allows(ui, method),
{
    lemma_catalog_ids();
    reveal_strlit("allinpay_wechat");
    reveal_strlit("allinpay_alipay");
    reveal_strlit("allinpay");
    assert("allinpay_wechat"@.len() == 15 && "allinpay_alipay"@.len() == 15 && "allinpay"@.len() == 8);
    assert("allinpay_wechat"@[9] != "allinpay_alipay"@[9]);
    lemma_lookup_none(ui, "allinpay"@);
    let kw = lemma_unique_lookup(ui, "allinpay_wechat"@);
    let ka = lemma_unique_lookup(ui, "allinpay_alipay"@);
    let m = merged_model(ui, gw);
    assert forall|k: int| 0 <= k < 6 implies #[trigger] m[k].id == catalog_ids()[k] by {
        lemma_merged_slot(ui, gw, k);
    }
    assert forall|j: int| 0 <= j < 2 implies m[j].id != "allinpay"@ by {}
    lemma_lookup_first_at(m, "allinpay"@, 2);
}

} // verus!
