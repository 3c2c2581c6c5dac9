use tokensbyte::settings::{
    default_admin_path, default_agreement_mode, default_all_levels, default_bind_enforcement,
    default_copyright, default_email_whitelist, default_gift_mode, default_ip_daily_limit,
    default_language, default_log_retention_days, default_log_row_retention_days,
    default_login_style, default_low_balance_email_html, default_low_balance_email_subject,
    default_sign_type, default_sms_code_param, default_sms_provider, default_supported_languages,
    default_theme_mode, payment_channel_catalog, render_low_balance_template, timezone_or_fallback,
    trim_opt, PaymentChannelUiItem, PaymentGatewayEnableFlags, PublicRegistrationSettings,
    RegistrationSettings, SmsSettings,
};

#[test]
fn default_values() {
    assert_eq!(default_login_style(), "split");
    assert_eq!(default_admin_path(), "admin1688");
    assert_eq!(default_copyright(), "© 2026 Tokensbyte. All rights reserved.");
    assert_eq!(default_theme_mode(), "dark");
    assert_eq!(default_supported_languages(), vec!["zh".to_string(), "en".to_string()]);
    assert_eq!(default_language(), "zh");
    assert_eq!(default_agreement_mode(), "link");
    assert_eq!(default_bind_enforcement(), "all");
    assert_eq!(default_ip_daily_limit(), 6);
    assert_eq!(default_email_whitelist().len(), 5);
    assert_eq!(default_email_whitelist()[0], "qq.com");
    assert_eq!(default_sms_provider(), "tencent");
    assert_eq!(default_sms_code_param(), "code");
    assert_eq!(default_gift_mode(), "fixed");
    assert_eq!(default_sign_type(), "RSA2");
    assert_eq!(default_log_retention_days(), 30);
    assert_eq!(default_log_row_retention_days(), 0);
    assert_eq!(default_all_levels(), "all");
}

#[test]
fn timezone_fallback() {
    assert_eq!(timezone_or_fallback(Some("Europe/Paris".to_string())), "Europe/Paris");
    assert_eq!(timezone_or_fallback(None), "Asia/Shanghai");
}

#[test]
fn low_balance_template() {
    assert_eq!(default_low_balance_email_subject(), "【{{site_name}}】账户余额不足提醒");
    assert_eq!(
        render_low_balance_template("{{site_name}}: {{balance}} < {{threshold}} ({{balance}})", "Acme", "1.50", "5"),
        "Acme: 1.50 < 5 (1.50)"
    );
    let html = render_low_balance_template(&default_low_balance_email_html(), "S", "B", "T");
    assert!(html.contains("<strong style=\"color: #fa541c; font-size: 18px;\">B</strong>"));
    assert!(!html.contains("{{balance}}"));
}

fn reg(mobile: bool, email: bool, mode: &str) -> RegistrationSettings {
    RegistrationSettings {
        require_bind_mobile: mobile,
        require_bind_email: email,
        bind_enforcement: mode.to_string(),
        ..Default::default()
    }
}

#[test]
fn binding_policy() {
    let none = reg(false, false, "all");
    assert!(!none.bind_policy_active());
    assert!(none.is_bind_satisfied("", None));
    assert!(!none.should_block_token_create("", None));
    assert_eq!(none.token_bind_block_message(), "创建 API 令牌前请先完成账号绑定");

    let both_all = reg(true, true, "all");
    assert!(!both_all.is_bind_satisfied("a@b.c", None));
    assert!(both_all.is_bind_satisfied("a@b.c", Some("138")));
    assert!(both_all.should_block_token_create("a@b.c", Some(" ")));
    assert_eq!(both_all.token_bind_block_message(), "创建 API 令牌前请先绑定手机号和邮箱");

    let both_any = reg(true, true, "any");
    assert!(both_any.is_bind_satisfied("a@b.c", None));
    assert!(!both_any.is_bind_satisfied("u@tokensbyte.local", None));
    assert_eq!(both_any.token_bind_block_message(), "创建 API 令牌前请先绑定手机号或邮箱");

    let prompt = reg(true, false, "prompt_only");
    assert!(!prompt.is_bind_satisfied("", None));
    assert!(!prompt.should_block_token_create("", None));
    assert_eq!(prompt.token_bind_block_message(), "创建 API 令牌前请先绑定手机号");
    assert_eq!(reg(false, true, "all").token_bind_block_message(), "创建 API 令牌前请先绑定邮箱");

    assert!(RegistrationSettings::has_valid_mobile(Some("1")));
    assert!(!RegistrationSettings::has_valid_mobile(None));
    assert!(!RegistrationSettings::has_valid_email("  "));
}

#[test]
fn public_registration_defaults_enforcement() {
    let p = PublicRegistrationSettings::from_registration(&reg(true, false, ""));
    assert_eq!(p.bind_enforcement, "all");
    assert!(p.require_bind_mobile);
    let q = PublicRegistrationSettings::from_registration(&reg(true, true, "any"));
    assert_eq!(q.bind_enforcement, "any");
}

#[test]
fn sms_settings() {
    let mut s = SmsSettings::default();
    assert!(!s.is_volcengine());
    assert!(!s.credentials_configured());
    assert!(!s.balance_template_configured());
    assert_eq!(s.code_param_effective(), "code");
    s.provider = " VolcEngine ".to_string();
    s.secret_id = "id".to_string();
    s.secret_key = "key".to_string();
    s.balance_template_id = "  T1 ".to_string();
    s.code_param = "  ".to_string();
    assert!(s.is_volcengine());
    assert!(s.credentials_configured());
    assert!(s.balance_template_configured());
    assert_eq!(s.balance_template_id_effective(), "T1");
    assert_eq!(s.code_param_effective(), "code");
    s.code_param = " 1 ".to_string();
    assert_eq!(s.code_param_effective(), "1");
}

#[test]
fn channel_catalog_and_items() {
    let cat = payment_channel_catalog();
    assert_eq!(cat[0], ("alipay", 70));
    assert_eq!(cat[5], ("hyperbc", 10));
    assert_eq!(trim_opt(&Some("  x ".to_string())), Some("x".to_string()));
    assert_eq!(trim_opt(&Some("   ".to_string())), None);
    let item = PaymentChannelUiItem {
        id: "allinpay".to_string(),
        display_name: Some(" 通联 ".to_string()),
        allinpay_wechat_enabled: true,
        allinpay_alipay_enabled: true,
        ..Default::default()
    };
    assert_eq!(item.normalized_display(), Some("通联".to_string()));
    assert_eq!(item.normalized_subtitle(), None);
    assert_eq!(item.allinpay_methods(), vec!["allinpay_wechat".to_string(), "allinpay_alipay".to_string()]);
    let g = PaymentGatewayEnableFlags { stripe: true, ..Default::default() };
    assert!(g.default_enabled_for("stripe"));
    assert!(!g.default_enabled_for("wechat"));
    assert!(!g.gateway_ready_for("paypal"));
}
