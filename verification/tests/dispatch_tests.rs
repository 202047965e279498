use biliticket::dispatch::{
    build_request, channel_name, channel_plan, smtp_report, summarize, transport_report, Channel,
    ChannelReport, HttpPost, Payload, SendOutcome,
};
use biliticket::push::{GotifyConfig, PushConfig, SmtpConfig};

fn config_with(
    bark: &str,
    pushplus: &str,
    fangtang: &str,
    dingtalk: &str,
    wechat: &str,
    smtp_server: &str,
    gotify_url: &str,
    gotify_token: &str,
) -> PushConfig {
    PushConfig {
        enabled: true,
        bark_token: bark.to_string(),
        pushplus_token: pushplus.to_string(),
        fangtang_token: fangtang.to_string(),
        dingtalk_token: dingtalk.to_string(),
        wechat_token: wechat.to_string(),
        gotify_config: GotifyConfig {
            gotify_url: gotify_url.to_string(),
            gotify_token: gotify_token.to_string(),
        },
        smtp_config: SmtpConfig {
            smtp_server: smtp_server.to_string(),
            smtp_port: String::new(),
            smtp_username: String::new(),
            smtp_password: String::new(),
            smtp_from: String::new(),
            smtp_to: String::new(),
        },
    }
}

#[test]
fn empty_config_plans_no_channels() {
    let cfg = PushConfig::new();
    let plan = channel_plan(&cfg);
    assert!(plan.is_empty());
}

#[test]
fn plan_keeps_dispatch_order() {
    let cfg = config_with("b", "", "f", "", "w", "smtp.example.org", "", "g");
    let plan = channel_plan(&cfg);
    assert_eq!(
        plan,
        vec![
            Channel::Bark,
            Channel::Fangtang,
            Channel::Wechat,
            Channel::Smtp,
            Channel::Gotify
        ]
    );
}

#[test]
fn single_token_plans_single_channel() {
    let mut cfg = PushConfig::new();
    cfg.enabled = true;
    cfg.pushplus_token = "tok".to_string();
    assert_eq!(channel_plan(&cfg), vec![Channel::PushPlus]);
}

#[test]
fn smtp_gets_no_request() {
    let cfg = config_with("", "", "", "", "", "smtp.example.org", "", "");
    let r = build_request(&cfg, Channel::Smtp, "t", "m", &None);
    assert!(r.is_none());
}

#[test]
fn smtp_report_is_deterministic_failure() {
    let r = smtp_report();
    assert_eq!(r.channel, Channel::Smtp);
    assert!(!r.ok);
    assert_eq!(r.message, "mail push not implemented");
}

#[test]
fn status_2xx_is_success() {
    let r = transport_report(Channel::Bark, SendOutcome::Status(204));
    assert!(r.ok);
    assert_eq!(r.message, "push ok");
}

#[test]
fn status_404_fails_with_code() {
    let r = transport_report(Channel::Bark, SendOutcome::Status(404));
    assert!(!r.ok);
    assert_eq!(r.message, "push failed, status code: 404");
}

#[test]
fn status_199_and_300_fail() {
    assert!(!transport_report(Channel::Wechat, SendOutcome::Status(199)).ok);
    assert!(!transport_report(Channel::Wechat, SendOutcome::Status(300)).ok);
    assert!(transport_report(Channel::Wechat, SendOutcome::Status(200)).ok);
    assert!(transport_report(Channel::Wechat, SendOutcome::Status(299)).ok);
}

#[test]
fn transport_error_fails_with_text() {
    let r = transport_report(
        Channel::Gotify,
        SendOutcome::TransportError("connection timed out".to_string()),
    );
    assert!(!r.ok);
    assert_eq!(r.message, "push failed: connection timed out");
}

#[test]
fn summarize_no_channels() {
    let reports: Vec<ChannelReport> = Vec::new();
    let (ok, msg) = summarize(&reports);
    assert!(!ok);
    assert_eq!(msg, "no channels configured");
}

#[test]
fn summarize_single_success_counts_one() {
    let reports = vec![transport_report(Channel::Bark, SendOutcome::Status(200))];
    let (ok, msg) = summarize(&reports);
    assert!(ok);
    assert_eq!(msg, "all 1 channels succeeded");
    assert!(msg.contains('1'));
}

#[test]
fn summarize_single_failure_names_channel_and_reason() {
    let reports = vec![transport_report(Channel::Bark, SendOutcome::Status(500))];
    let (ok, msg) = summarize(&reports);
    assert!(!ok);
    assert_eq!(
        msg,
        "0 succeeded / 1 failed; failures: Bark: push failed, status code: 500"
    );
    assert!(msg.contains("Bark: "));
}

#[test]
fn summarize_mixed_is_success_with_count() {
    let reports = vec![
        transport_report(Channel::Bark, SendOutcome::Status(200)),
        transport_report(Channel::Dingtalk, SendOutcome::Status(503)),
        transport_report(Channel::Gotify, SendOutcome::Status(201)),
    ];
    let (ok, msg) = summarize(&reports);
    assert!(ok);
    assert_eq!(msg, "all 2 channels succeeded");
}

#[test]
fn summarize_all_failed_joins_entries() {
    let reports = vec![
        transport_report(Channel::Bark, SendOutcome::Status(500)),
        smtp_report(),
    ];
    let (ok, msg) = summarize(&reports);
    assert!(!ok);
    assert_eq!(
        msg,
        "0 succeeded / 2 failed; failures: Bark: push failed, status code: 500; SMTP: mail push not implemented"
    );
}

#[test]
fn bark_request_shape() {
    let cfg = config_with("abc", "", "", "", "", "", "", "");
    let p: HttpPost = build_request(&cfg, Channel::Bark, "Title", "Body", &None).unwrap();
    assert_eq!(p.url, "https://api.day.app/abc/");
    assert!(p.bearer.is_none());
    match p.payload {
        Payload::DeviceBody {
            title,
            body,
            level,
            badge,
            icon,
            group,
            is_archive,
        } => {
            assert_eq!(title, "Title");
            assert_eq!(body, "Body");
            assert_eq!(level, "timeSensitive");
            assert_eq!(badge, 1);
            assert_eq!(icon, "https://sr.mihoyo.com/favicon-mi.ico");
            assert_eq!(group, "biliticket");
            assert_eq!(is_archive, 1);
        }
        _ => panic!("wrong payload kind"),
    }
}

#[test]
fn pushplus_request_shape() {
    let cfg = config_with("", "tok", "", "", "", "", "", "");
    let p = build_request(&cfg, Channel::PushPlus, "T", "M", &None).unwrap();
    assert_eq!(p.url, "http://www.pushplus.plus/send");
    match p.payload {
        Payload::TokenTitleContent {
            token,
            title,
            content,
        } => {
            assert_eq!(token, "tok");
            assert_eq!(title, "T");
            assert_eq!(content, "M");
        }
        _ => panic!("wrong payload kind"),
    }
}

#[test]
fn fangtang_request_shape() {
    let cfg = config_with("", "", "sct", "", "", "", "", "");
    let p = build_request(&cfg, Channel::Fangtang, "T", "M", &None).unwrap();
    assert_eq!(p.url, "https://sctapi.ftqq.com/sct.send");
    match p.payload {
        Payload::ScBody { title, desp, noip } => {
            assert_eq!(title, "T");
            assert_eq!(desp, "M");
            assert_eq!(noip, 1);
        }
        _ => panic!("wrong payload kind"),
    }
}

#[test]
fn webhook_requests_carry_two_line_text() {
    let cfg = config_with("", "", "", "dtok", "wtok", "", "", "");
    let d = build_request(&cfg, Channel::Dingtalk, "T", "M", &None).unwrap();
    assert_eq!(
        d.url,
        "https://oapi.dingtalk.com/robot/send?access_token=dtok"
    );
    match d.payload {
        Payload::TextMessage { content } => assert_eq!(content, "T \n M"),
        _ => panic!("wrong payload kind"),
    }
    let w = build_request(&cfg, Channel::Wechat, "T", "M", &None).unwrap();
    assert_eq!(
        w.url,
        "https://qyapi.weixin.qq.com/cgi-bin/webhook/send?key=wtok"
    );
    match w.payload {
        Payload::TextMessage { content } => assert_eq!(content, "T \n M"),
        _ => panic!("wrong payload kind"),
    }
}

#[test]
fn gotify_prefixes_scheme_when_missing() {
    let cfg = config_with("", "", "", "", "", "", "push.example.org", "gt");
    let p = build_request(&cfg, Channel::Gotify, "T", "M", &None).unwrap();
    assert_eq!(p.url, "http://push.example.org/message");
    assert_eq!(p.bearer.as_deref(), Some("gt"));
}

#[test]
fn gotify_keeps_existing_scheme() {
    let cfg = config_with("", "", "", "", "", "", "https://push.example.org", "gt");
    let p = build_request(&cfg, Channel::Gotify, "T", "M", &None).unwrap();
    assert_eq!(p.url, "https://push.example.org/message");
}

#[test]
fn gotify_default_and_explicit_jump_url() {
    let cfg = config_with("", "", "", "", "", "", "h", "gt");
    let p = build_request(&cfg, Channel::Gotify, "T", "M", &None).unwrap();
    match p.payload {
        Payload::GatewayBody {
            message,
            title,
            priority,
            click_url,
        } => {
            assert_eq!(message, "M");
            assert_eq!(title, "T");
            assert_eq!(priority, 9);
            assert_eq!(click_url, "bilibili://mall/web?url=https://www.bilibili.com");
        }
        _ => panic!("wrong payload kind"),
    }
    let p2 = build_request(
        &cfg,
        Channel::Gotify,
        "T",
        "M",
        &Some("https://example.org/x".to_string()),
    )
    .unwrap();
    match p2.payload {
        Payload::GatewayBody { click_url, .. } => {
            assert_eq!(click_url, "https://example.org/x");
        }
        _ => panic!("wrong payload kind"),
    }
}

#[test]
fn channel_names_match_labels() {
    assert_eq!(channel_name(Channel::Bark), "Bark");
    assert_eq!(channel_name(Channel::PushPlus), "PushPlus");
    assert_eq!(channel_name(Channel::Fangtang), "Fangtang");
    assert_eq!(channel_name(Channel::Dingtalk), "Dingtalk");
    assert_eq!(channel_name(Channel::Wechat), "WeChat");
    assert_eq!(channel_name(Channel::Smtp), "SMTP");
    assert_eq!(channel_name(Channel::Gotify), "Gotify");
}

#[test]
fn full_pipeline_with_synthetic_outcomes() {
    // One real channel that succeeds plus the unimplemented mail channel:
    // the aggregate is a success that counts one channel, and the mail
    // channel never produced a request to send.
    let cfg = config_with("btok", "", "", "", "", "smtp.example.org", "", "");
    let plan = channel_plan(&cfg);
    assert_eq!(plan, vec![Channel::Bark, Channel::Smtp]);
    let mut reports: Vec<ChannelReport> = Vec::new();
    for c in plan {
        match build_request(&cfg, c, "T", "M", &None) {
            Some(post) => {
                assert_eq!(post.url, "https://api.day.app/btok/");
                reports.push(transport_report(c, SendOutcome::Status(200)));
            }
            None => {
                assert_eq!(c, Channel::Smtp);
                reports.push(smtp_report());
            }
        }
    }
    let (ok, msg) = summarize(&reports);
    assert!(ok);
    assert_eq!(msg, "all 1 channels succeeded");
}
