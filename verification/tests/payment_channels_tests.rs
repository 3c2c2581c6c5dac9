use tokensbyte::settings::{
    build_public_payment_channels, is_payment_channel_ui_enabled, merge_payment_channels_ui,
    public_payment_status_from_channels, PaymentChannelUiItem, PaymentChannelsUiSettings,
    PaymentGatewayEnableFlags,
};

#[test]
fn merge_fills_missing_channels_from_gateway() {
    let gateway = PaymentGatewayEnableFlags {
        alipay: true,
        allinpay: true,
        ..Default::default()
    };
    let merged = merge_payment_channels_ui(None, &gateway);
    assert_eq!(merged.channels.len(), 6);
    let alipay = merged.channels.iter().find(|c| c.id == "alipay").unwrap();
    assert!(alipay.enabled);
    assert_eq!(alipay.sort_order, 70);
    let ap = merged.channels.iter().find(|c| c.id == "allinpay").unwrap();
    assert!(ap.enabled);
    assert!(ap.allinpay_wechat_enabled);
    assert!(ap.allinpay_alipay_enabled);
}

#[test]
fn merge_legacy_split_allinpay_channels() {
    let saved = PaymentChannelsUiSettings {
        channels: vec![
            PaymentChannelUiItem {
                id: "allinpay_wechat".into(),
                sort_order: 40,
                enabled: true,
                ..Default::default()
            },
            PaymentChannelUiItem {
                id: "allinpay_alipay".into(),
                sort_order: 50,
                enabled: false,
                display_name: Some("自定义通联".into()),
                ..Default::default()
            },
        ],
    };
    let merged = merge_payment_channels_ui(Some(saved), &PaymentGatewayEnableFlags::default());
    let ap = merged.channels.iter().find(|c| c.id == "allinpay").unwrap();
    assert!(ap.enabled);
    assert_eq!(ap.sort_order, 50);
    assert!(ap.allinpay_wechat_enabled);
    assert!(!ap.allinpay_alipay_enabled);
    assert_eq!(ap.display_name.as_deref(), Some("自定义通联"));
}

#[test]
fn public_channels_sort_desc_and_gate_by_gateway() {
    let ui = PaymentChannelsUiSettings {
        channels: vec![
            PaymentChannelUiItem {
                id: "wechat".into(),
                sort_order: 10,
                enabled: true,
                ..Default::default()
            },
            PaymentChannelUiItem {
                id: "alipay".into(),
                sort_order: 90,
                enabled: true,
                display_name: Some("  我的支付宝  ".into()),
                subtitle: Some("".into()),
                logo_url: None,
                ..Default::default()
            },
        ],
    };
    let gateway = PaymentGatewayEnableFlags {
        wechat: false,
        alipay: true,
        ..Default::default()
    };
    let pub_list = build_public_payment_channels(&ui, &gateway);
    assert_eq!(pub_list[0].id, "alipay");
    assert!(pub_list[0].enabled);
    assert_eq!(pub_list[0].display_name.as_deref(), Some("我的支付宝"));
    assert!(pub_list[0].subtitle.is_none());
    let wechat = pub_list.iter().find(|c| c.id == "wechat").unwrap();
    assert!(!wechat.enabled);
}

#[test]
fn allinpay_public_exposes_enabled_methods() {
    let ui = PaymentChannelsUiSettings {
        channels: vec![PaymentChannelUiItem {
            id: "allinpay".into(),
            sort_order: 50,
            enabled: true,
            allinpay_wechat_enabled: true,
            allinpay_alipay_enabled: false,
            ..Default::default()
        }],
    };
    let gateway = PaymentGatewayEnableFlags {
        allinpay: true,
        ..Default::default()
    };
    let pub_list = build_public_payment_channels(&ui, &gateway);
    let ap = pub_list.iter().find(|c| c.id == "allinpay").unwrap();
    assert!(ap.enabled);
    assert_eq!(ap.allinpay_methods, vec!["allinpay_wechat".to_string()]);
    let st = public_payment_status_from_channels(&pub_list);
    assert!(st.allinpay_enabled);
    assert!(is_payment_channel_ui_enabled(&ui, "allinpay_wechat"));
    assert!(!is_payment_channel_ui_enabled(&ui, "allinpay_alipay"));
}

#[test]
fn legacy_split_allinpay_respected_by_pay_guard() {
    let ui = PaymentChannelsUiSettings {
        channels: vec![
            PaymentChannelUiItem {
                id: "allinpay_wechat".into(),
                enabled: false,
                ..Default::default()
            },
            PaymentChannelUiItem {
                id: "allinpay_alipay".into(),
                enabled: true,
                ..Default::default()
            },
        ],
    };
    assert!(!is_payment_channel_ui_enabled(&ui, "allinpay_wechat"));
    assert!(is_payment_channel_ui_enabled(&ui, "allinpay_alipay"));

    let merged = merge_payment_channels_ui(Some(ui), &PaymentGatewayEnableFlags::default());
    assert!(is_payment_channel_ui_enabled(&merged, "allinpay_alipay"));
    assert!(!is_payment_channel_ui_enabled(&merged, "allinpay_wechat"));
}
