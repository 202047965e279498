//! Notification dispatcher: which channels a configuration enables, the
//! request each channel needs, how an observed transport outcome is
//! classified, and how per-channel results are folded into one aggregate
//! result.
//!
//! The dispatcher itself performs no network call: a caller takes the plan,
//! performs each request, and hands the observed outcomes back to be
//! classified and summarized.

use vstd::prelude::*;
use crate::push::{PushConfig, PushConfigV};
use crate::text::{dec_rep, fmt_u64, has_substr};

verus! {

/// One independently configured notification transport.
#[derive(Clone, Copy, PartialEq, Eq, Structural, Debug)]
pub enum Channel {
    /// Push-to-device service addressed by a per-token URL.
    Bark,
    /// Generic push service with a fixed endpoint.
    PushPlus,
    /// SC-style push service addressed by a per-token endpoint.
    Fangtang,
    /// Robot webhook, token in a query parameter.
    Dingtalk,
    /// Enterprise webhook, token in a query parameter.
    Wechat,
    /// Mail; its transport is not implemented.
    Smtp,
    /// Self-hosted gateway with bearer authentication.
    Gotify,
}

/// The display name of a channel, as it appears in failure summaries.
pub open spec fn channel_label(c: Channel) -> Seq<char> {
    match c {
        Channel::Bark => "Bark"@,
        Channel::PushPlus => "PushPlus"@,
        Channel::Fangtang => "Fangtang"@,
        Channel::Dingtalk => "Dingtalk"@,
        Channel::Wechat => "WeChat"@,
        Channel::Smtp => "SMTP"@,
        Channel::Gotify => "Gotify"@,
    }
}

/// The display name of a channel.
pub fn channel_name(c: Channel) -> (r: &'static str)
    ensures
        r@ == channel_label(c),
{
    match c {
        Channel::Bark => "Bark",
        Channel::PushPlus => "PushPlus",
        Channel::Fangtang => "Fangtang",
        Channel::Dingtalk => "Dingtalk",
        Channel::Wechat => "WeChat",
        Channel::Smtp => "SMTP",
        Channel::Gotify => "Gotify",
    }
}

/// A channel is configured when its credential in the snapshot is
/// non-empty; for mail that credential is the server address, for the
/// gateway it is the token.
pub open spec fn channel_configured(cfg: PushConfigV, c: Channel) -> bool {
    match c {
        Channel::Bark => cfg.bark_token.len() > 0,
        Channel::PushPlus => cfg.pushplus_token.len() > 0,
        Channel::Fangtang => cfg.fangtang_token.len() > 0,
        Channel::Dingtalk => cfg.dingtalk_token.len() > 0,
        Channel::Wechat => cfg.wechat_token.len() > 0,
        Channel::Smtp => cfg.smtp_config.smtp_server.len() > 0,
        Channel::Gotify => cfg.gotify_config.gotify_token.len() > 0,
    }
}

/// The channels a configuration enables, in the fixed dispatch order.
pub open spec fn plan_of(cfg: PushConfigV) -> Seq<Channel> {
    (if cfg.bark_token.len() > 0 {
        seq![Channel::Bark]
    } else {
        Seq::empty()
    }) + (if cfg.pushplus_token.len() > 0 {
        seq![Channel::PushPlus]
    } else {
        Seq::empty()
    }) + (if cfg.fangtang_token.len() > 0 {
        seq![Channel::Fangtang]
    } else {
        Seq::empty()
    }) + (if cfg.dingtalk_token.len() > 0 {
        seq![Channel::Dingtalk]
    } else {
        Seq::empty()
    }) + (if cfg.wechat_token.len() > 0 {
        seq![Channel::Wechat]
    } else {
        Seq::empty()
    }) + (if cfg.smtp_config.smtp_server.len() > 0 {
        seq![Channel::Smtp]
    } else {
        Seq::empty()
    }) + (if cfg.gotify_config.gotify_token.len() > 0 {
        seq![Channel::Gotify]
    } else {
        Seq::empty()
    })
}

/// An element of the left part stays an element of a concatenation.
proof fn lemma_concat_contains_left<A>(a: Seq<A>, b: Seq<A>, x: A)
    requires
        a.contains(x),
    ensures
        (a + b).contains(x),
{
    let i = choose|i: int| 0 <= i < a.len() && a[i] == x;
    assert((a + b)[i] == x);
}

/// An element of the right part stays an element of a concatenation.
proof fn lemma_concat_contains_right<A>(a: Seq<A>, b: Seq<A>, x: A)
    requires
        b.contains(x),
    ensures
        (a + b).contains(x),
{
    let i = choose|i: int| 0 <= i < b.len() && b[i] == x;
    assert((a + b)[a.len() + i] == x);
}

/// Every element of a concatenation comes from one of its parts.
proof fn lemma_concat_elem<A>(a: Seq<A>, b: Seq<A>, i: int)
    requires
        0 <= i < (a + b).len(),
    ensures
        a.contains((a + b)[i]) || b.contains((a + b)[i]),
{
    if i < a.len() {
        assert(a[i] == (a + b)[i]);
    } else {
        assert(b[i - a.len()] == (a + b)[i]);
    }
}

/// Names for the seven conditional parts whose concatenation is the plan.
spec fn plan_part(cfg: PushConfigV, c: Channel) -> Seq<Channel> {
    if channel_configured(cfg, c) {
        seq![c]
    } else {
        Seq::empty()
    }
}

/// The plan is the concatenation of its seven per-channel parts.
proof fn lemma_plan_parts(cfg: PushConfigV)
    ensures
        plan_of(cfg) == ((((((plan_part(cfg, Channel::Bark) + plan_part(cfg, Channel::PushPlus))
            + plan_part(cfg, Channel::Fangtang)) + plan_part(cfg, Channel::Dingtalk)) + plan_part(
            cfg,
            Channel::Wechat,
        )) + plan_part(cfg, Channel::Smtp)) + plan_part(cfg, Channel::Gotify)),
{
}

/// Every channel that stands in the plan is configured.
proof fn lemma_plan_sound(cfg: PushConfigV, c: Channel)
    requires
        plan_of(cfg).contains(c),
    ensures
        channel_configured(cfg, c),
{
    lemma_plan_parts(cfg);
    let s0 = plan_part(cfg, Channel::Bark);
    let s1 = plan_part(cfg, Channel::PushPlus);
    let s2 = plan_part(cfg, Channel::Fangtang);
    let s3 = plan_part(cfg, Channel::Dingtalk);
    let s4 = plan_part(cfg, Channel::Wechat);
    let s5 = plan_part(cfg, Channel::Smtp);
    let s6 = plan_part(cfg, Channel::Gotify);
    let p01 = s0 + s1;
    let p02 = p01 + s2;
    let p03 = p02 + s3;
    let p04 = p03 + s4;
    let p05 = p04 + s5;
    let p = p05 + s6;
    let i = choose|i: int| 0 <= i < p.len() && p[i] == c;
    lemma_concat_elem(p05, s6, i);
    if p05.contains(c) {
        let i5 = choose|j: int| 0 <= j < p05.len() && p05[j] == c;
        lemma_concat_elem(p04, s5, i5);
        if p04.contains(c) {
            let i4 = choose|j: int| 0 <= j < p04.len() && p04[j] == c;
            lemma_concat_elem(p03, s4, i4);
            if p03.contains(c) {
                let i3 = choose|j: int| 0 <= j < p03.len() && p03[j] == c;
                lemma_concat_elem(p02, s3, i3);
                if p02.contains(c) {
                    let i2 = choose|j: int| 0 <= j < p02.len() && p02[j] == c;
                    lemma_concat_elem(p01, s2, i2);
                    if p01.contains(c) {
                        let i1 = choose|j: int| 0 <= j < p01.len() && p01[j] == c;
                        lemma_concat_elem(s0, s1, i1);
                    }
                }
            }
        }
    }
}

/// Every configured channel stands in the plan.
proof fn lemma_plan_complete(cfg: PushConfigV, c: Channel)
    requires
        channel_configured(cfg, c),
    ensures
        plan_of(cfg).contains(c),
{
    lemma_plan_parts(cfg);
    let s0 = plan_part(cfg, Channel::Bark);
    let s1 = plan_part(cfg, Channel::PushPlus);
    let s2 = plan_part(cfg, Channel::Fangtang);
    let s3 = plan_part(cfg, Channel::Dingtalk);
    let s4 = plan_part(cfg, Channel::Wechat);
    let s5 = plan_part(cfg, Channel::Smtp);
    let s6 = plan_part(cfg, Channel::Gotify);
    let p01 = s0 + s1;
    let p02 = p01 + s2;
    let p03 = p02 + s3;
    let p04 = p03 + s4;
    let p05 = p04 + s5;
    assert(plan_part(cfg, c)[0] == c);
    assert(plan_part(cfg, c).contains(c));
    match c {
        Channel::Bark => {
            lemma_concat_contains_left(s0, s1, c);
            lemma_concat_contains_left(p01, s2, c);
            lemma_concat_contains_left(p02, s3, c);
            lemma_concat_contains_left(p03, s4, c);
            lemma_concat_contains_left(p04, s5, c);
            lemma_concat_contains_left(p05, s6, c);
        },
        Channel::PushPlus => {
            lemma_concat_contains_right(s0, s1, c);
            lemma_concat_contains_left(p01, s2, c);
            lemma_concat_contains_left(p02, s3, c);
            lemma_concat_contains_left(p03, s4, c);
            lemma_concat_contains_left(p04, s5, c);
            lemma_concat_contains_left(p05, s6, c);
        },
        Channel::Fangtang => {
            lemma_concat_contains_right(p01, s2, c);
            lemma_concat_contains_left(p02, s3, c);
            lemma_concat_contains_left(p03, s4, c);
            lemma_concat_contains_left(p04, s5, c);
            lemma_concat_contains_left(p05, s6, c);
        },
        Channel::Dingtalk => {
            lemma_concat_contains_right(p02, s3, c);
            lemma_concat_contains_left(p03, s4, c);
            lemma_concat_contains_left(p04, s5, c);
            lemma_concat_contains_left(p05, s6, c);
        },
        Channel::Wechat => {
            lemma_concat_contains_right(p03, s4, c);
            lemma_concat_contains_left(p04, s5, c);
            lemma_concat_contains_left(p05, s6, c);
        },
        Channel::Smtp => {
            lemma_concat_contains_right(p04, s5, c);
            lemma_concat_contains_left(p05, s6, c);
        },
        Channel::Gotify => {
            lemma_concat_contains_right(p05, s6, c);
        },
    }
}

/// Every channel of the plan is configured, every configured channel is in
/// the plan, and the plan is empty exactly when nothing is configured.
pub proof fn lemma_plan_exact(cfg: PushConfigV)
    ensures
        forall|c: Channel| plan_of(cfg).contains(c) ==> channel_configured(cfg, c),
        forall|c: Channel| channel_configured(cfg, c) ==> plan_of(cfg).contains(c),
        plan_of(cfg).len() == 0 <==> (forall|c: Channel| !channel_configured(cfg, c)),
{
    assert forall|c: Channel| plan_of(cfg).contains(c) implies channel_configured(cfg, c) by {
        lemma_plan_sound(cfg, c);
    }
    assert forall|c: Channel| channel_configured(cfg, c) implies plan_of(cfg).contains(c) by {
        lemma_plan_complete(cfg, c);
    }
    if plan_of(cfg).len() == 0 {
        assert forall|c: Channel| !channel_configured(cfg, c) by {
            if channel_configured(cfg, c) {
                lemma_plan_complete(cfg, c);
            }
        }
    }
    if forall|c: Channel| !channel_configured(cfg, c) {
        if plan_of(cfg).len() > 0 {
            let c = plan_of(cfg)[0];
            assert(plan_of(cfg).contains(c));
            lemma_plan_sound(cfg, c);
        }
    }
}

/// Lists the configured channels in dispatch order.
pub fn channel_plan(cfg: &PushConfig) -> (r: Vec<Channel>)
    ensures
        r@ == plan_of(cfg@),
{
    let mut r: Vec<Channel> = Vec::new();
    if !cfg.bark_token.as_str().is_empty() {
        r.push(Channel::Bark);
    }
    if !cfg.pushplus_token.as_str().is_empty() {
        r.push(Channel::PushPlus);
    }
    if !cfg.fangtang_token.as_str().is_empty() {
        r.push(Channel::Fangtang);
    }
    if !cfg.dingtalk_token.as_str().is_empty() {
        r.push(Channel::Dingtalk);
    }
    if !cfg.wechat_token.as_str().is_empty() {
        r.push(Channel::Wechat);
    }
    if !cfg.smtp_config.smtp_server.as_str().is_empty() {
        r.push(Channel::Smtp);
    }
    if !cfg.gotify_config.gotify_token.as_str().is_empty() {
        r.push(Channel::Gotify);
    }
    assert(r@ =~= plan_of(cfg@));
    r
}

/// What a caller observed when it performed one channel's request: an HTTP
/// status line, or a transport error before any status arrived.
pub enum SendOutcome {
    Status(u16),
    TransportError(String),
}

/// An HTTP status counts as success exactly when it is in the 2xx range.
pub open spec fn status_ok(status: u16) -> bool {
    200 <= status < 300
}

/// The message recorded for a successful send.
pub open spec fn sent_ok_msg() -> Seq<char> {
    "push ok"@
}

/// The message recorded for a send refused by the server: it carries the
/// status code.
pub open spec fn status_fail_msg(status: nat) -> Seq<char> {
    "push failed, status code: "@ + dec_rep(status)
}

/// The message recorded when the transport itself failed: it carries the
/// transport's error text.
pub open spec fn transport_fail_msg(err: Seq<char>) -> Seq<char> {
    "push failed: "@ + err
}

/// The deterministic result of the mail channel, whose transport is not
/// implemented.
pub open spec fn smtp_unimplemented_msg() -> Seq<char> {
    "mail push not implemented"@
}

/// One channel's classified result.
pub struct ChannelReport {
    pub channel: Channel,
    pub ok: bool,
    pub message: String,
}

/// Classifies an observed outcome for one channel: 2xx is success, any
/// other status or a transport error is failure, and the failure message
/// always carries the status code or the transport error text.
pub fn transport_report(c: Channel, outcome: SendOutcome) -> (r: ChannelReport)
    ensures
        r.channel == c,
        (match outcome {
            SendOutcome::Status(s) => r.ok == status_ok(s) && (status_ok(s) ==> r.message@
                == sent_ok_msg()) && (!status_ok(s) ==> r.message@ == status_fail_msg(s as nat)),
            SendOutcome::TransportError(e) => !r.ok && r.message@ == transport_fail_msg(e@),
        }),
{
    match outcome {
        SendOutcome::Status(s) => {
            if 200 <= s && s < 300 {
                ChannelReport { channel: c, ok: true, message: String::from_str("push ok") }
            } else {
                let mut m = String::from_str("push failed, status code: ");
                let digits = fmt_u64(s as u64);
                m.append(digits.as_str());
                assert(m@ =~= status_fail_msg(s as nat));
                ChannelReport { channel: c, ok: false, message: m }
            }
        },
        SendOutcome::TransportError(e) => {
            let mut m = String::from_str("push failed: ");
            m.append(e.as_str());
            assert(m@ =~= transport_fail_msg(e@));
            ChannelReport { channel: c, ok: false, message: m }
        },
    }
}

/// The mail channel's report: a deterministic failure, made without any
/// network call.
pub fn smtp_report() -> (r: ChannelReport)
    ensures
        r.channel == Channel::Smtp,
        !r.ok,
        r.message@ == smtp_unimplemented_msg(),
{
    ChannelReport {
        channel: Channel::Smtp,
        ok: false,
        message: String::from_str("mail push not implemented"),
    }
}

/// The per-token endpoint of the push-to-device service.
pub open spec fn bark_url_of(token: Seq<char>) -> Seq<char> {
    "https://api.day.app/"@ + token + "/"@
}

/// The fixed endpoint of the generic push service.
pub open spec fn pushplus_url() -> Seq<char> {
    "http://www.pushplus.plus/send"@
}

/// The per-token endpoint of the SC-style service.
pub open spec fn fangtang_url_of(token: Seq<char>) -> Seq<char> {
    "https://sctapi.ftqq.com/"@ + token + ".send"@
}

/// The robot webhook endpoint, token as a query parameter.
pub open spec fn dingtalk_url_of(token: Seq<char>) -> Seq<char> {
    "https://oapi.dingtalk.com/robot/send?access_token="@ + token
}

/// The enterprise webhook endpoint, token as a query parameter.
pub open spec fn wechat_url_of(token: Seq<char>) -> Seq<char> {
    "https://qyapi.weixin.qq.com/cgi-bin/webhook/send?key="@ + token
}

/// The gateway base URL, prefixed with a scheme when none is present.
pub open spec fn gotify_base_of(url: Seq<char>) -> Seq<char> {
    if has_substr(url, "http"@) {
        url
    } else {
        "http://"@ + url
    }
}

/// The gateway message endpoint under the normalized base URL.
pub open spec fn gotify_url_of(url: Seq<char>) -> Seq<char> {
    gotify_base_of(url) + "/message"@
}

/// The deep link used when a request carries none.
pub open spec fn default_jump_url() -> Seq<char> {
    "bilibili://mall/web?url=https://www.bilibili.com"@
}

/// The text body the robot and enterprise webhooks carry: title and
/// message on two lines.
pub open spec fn robot_text_of(title: Seq<char>, message: Seq<char>) -> Seq<char> {
    title + " \n "@ + message
}

/// The body a channel's POST carries, with every constant field stated.
pub enum Payload {
    /// Push-to-device body: title, body, interruption level, badge count,
    /// icon, grouping key and archive flag.
    DeviceBody {
        title: String,
        body: String,
        level: String,
        badge: u64,
        icon: String,
        group: String,
        is_archive: u64,
    },
    /// Generic push body: token, title, content.
    TokenTitleContent { token: String, title: String, content: String },
    /// SC-style body: title, description, no-IP flag.
    ScBody { title: String, desp: String, noip: u64 },
    /// Webhook text body.
    TextMessage { content: String },
    /// Gateway body: message, title, priority and the deep link opened on
    /// click.
    GatewayBody { message: String, title: String, priority: u64, click_url: String },
}

/// One channel's POST: target URL, optional bearer credential, body.
pub struct HttpPost {
    pub url: String,
    pub bearer: Option<String>,
    pub payload: Payload,
}

/// Builds the request a channel needs, from the configuration snapshot and
/// the message to send. The mail channel gets no request: its transport is
/// not implemented and no call may be attempted for it.
pub fn build_request(
    cfg: &PushConfig,
    c: Channel,
    title: &str,
    message: &str,
    jump_url: &Option<String>,
) -> (r: Option<HttpPost>)
    ensures
        (r is Some) == (c != Channel::Smtp),
        c == Channel::Bark ==> (r matches Some(p) && p.url@ == bark_url_of(cfg@.bark_token)
            && p.bearer is None && (p.payload matches Payload::DeviceBody {
            title: t,
            body: b,
            level,
            badge,
            icon,
            group,
            is_archive,
        } && t@ == title@ && b@ == message@ && level@ == "timeSensitive"@ && badge == 1 && icon@
            == "https://sr.mihoyo.com/favicon-mi.ico"@ && group@ == "biliticket"@ && is_archive
            == 1)),
        c == Channel::PushPlus ==> (r matches Some(p) && p.url@ == pushplus_url() && p.bearer
            is None && (p.payload matches Payload::TokenTitleContent { token, title: t, content }
            && token@ == cfg@.pushplus_token && t@ == title@ && content@ == message@)),
        c == Channel::Fangtang ==> (r matches Some(p) && p.url@ == fangtang_url_of(
            cfg@.fangtang_token,
        ) && p.bearer is None && (p.payload matches Payload::ScBody { title: t, desp, noip } && t@
            == title@ && desp@ == message@ && noip == 1)),
        c == Channel::Dingtalk ==> (r matches Some(p) && p.url@ == dingtalk_url_of(
            cfg@.dingtalk_token,
        ) && p.bearer is None && (p.payload matches Payload::TextMessage { content } && content@
            == robot_text_of(title@, message@))),
        c == Channel::Wechat ==> (r matches Some(p) && p.url@ == wechat_url_of(cfg@.wechat_token)
            && p.bearer is None && (p.payload matches Payload::TextMessage { content } && content@
            == robot_text_of(title@, message@))),
        c == Channel::Gotify ==> (r matches Some(p) && p.url@ == gotify_url_of(
            cfg@.gotify_config.gotify_url,
        ) && (p.bearer matches Some(tok) && tok@ == cfg@.gotify_config.gotify_token) && (
        p.payload matches Payload::GatewayBody { message: m, title: t, priority, click_url } && m@
            == message@ && t@ == title@ && priority == 9 && click_url@ == (match jump_url {
            Some(u) => u@,
            None => default_jump_url(),
        }))),
{
    match c {
        Channel::Bark => {
            let mut url = String::from_str("https://api.day.app/");
            url.append(cfg.bark_token.as_str());
            url.append("/");
            assert(url@ =~= bark_url_of(cfg@.bark_token));
            Some(
                HttpPost {
                    url,
                    bearer: None,
                    payload: Payload::DeviceBody {
                        title: String::from_str(title),
                        body: String::from_str(message),
                        level: String::from_str("timeSensitive"),
                        badge: 1,
                        icon: String::from_str("https://sr.mihoyo.com/favicon-mi.ico"),
                        group: String::from_str("biliticket"),
                        is_archive: 1,
                    },
                },
            )
        },
        Channel::PushPlus => {
            Some(
                HttpPost {
                    url: String::from_str("http://www.pushplus.plus/send"),
                    bearer: None,
                    payload: Payload::TokenTitleContent {
                        token: cfg.pushplus_token.clone(),
                        title: String::from_str(title),
                        content: String::from_str(message),
                    },
                },
            )
        },
        Channel::Fangtang => {
            let mut url = String::from_str("https://sctapi.ftqq.com/");
            url.append(cfg.fangtang_token.as_str());
            url.append(".send");
            assert(url@ =~= fangtang_url_of(cfg@.fangtang_token));
            Some(
                HttpPost {
                    url,
                    bearer: None,
                    payload: Payload::ScBody {
                        title: String::from_str(title),
                        desp: String::from_str(message),
                        noip: 1,
                    },
                },
            )
        },
        Channel::Dingtalk => {
            let mut url = String::from_str("https://oapi.dingtalk.com/robot/send?access_token=");
            url.append(cfg.dingtalk_token.as_str());
            let mut content = String::from_str(title);
            content.append(" \n ");
            content.append(message);
            assert(content@ =~= robot_text_of(title@, message@));
            Some(HttpPost { url, bearer: None, payload: Payload::TextMessage { content } })
        },
        Channel::Wechat => {
            let mut url = String::from_str("https://qyapi.weixin.qq.com/cgi-bin/webhook/send?key=");
            url.append(cfg.wechat_token.as_str());
            let mut content = String::from_str(title);
            content.append(" \n ");
            content.append(message);
            assert(content@ =~= robot_text_of(title@, message@));
            Some(HttpPost { url, bearer: None, payload: Payload::TextMessage { content } })
        },
        Channel::Smtp => None,
        Channel::Gotify => {
            let base = &cfg.gotify_config.gotify_url;
            let mut url = if crate::text::contains_str(base.as_str(), "http") {
                base.clone()
            } else {
                let mut u = String::from_str("http://");
                u.append(base.as_str());
                u
            };
            assert(url@ == gotify_base_of(cfg@.gotify_config.gotify_url));
            url.append("/message");
            assert(url@ =~= gotify_url_of(cfg@.gotify_config.gotify_url));
            let click_url = match jump_url {
                Some(u) => u.clone(),
                None => String::from_str("bilibili://mall/web?url=https://www.bilibili.com"),
            };
            Some(
                HttpPost {
                    url,
                    bearer: Some(cfg.gotify_config.gotify_token.clone()),
                    payload: Payload::GatewayBody {
                        message: String::from_str(message),
                        title: String::from_str(title),
                        priority: 9,
                        click_url,
                    },
                },
            )
        },
    }
}

/// How many reports are successes.
pub open spec fn success_count(rs: Seq<ChannelReport>) -> nat
    decreases rs.len(),
{
    if rs.len() == 0 {
        0
    } else {
        success_count(rs.drop_last()) + (if rs.last().ok {
            1nat
        } else {
            0nat
        })
    }
}

/// How many reports are failures.
pub open spec fn failure_count(rs: Seq<ChannelReport>) -> nat
    decreases rs.len(),
{
    if rs.len() == 0 {
        0
    } else {
        failure_count(rs.drop_last()) + (if rs.last().ok {
            0nat
        } else {
            1nat
        })
    }
}

/// One failed channel's entry in the summary: its name, then its error
/// text.
pub open spec fn failure_line(r: ChannelReport) -> Seq<char> {
    channel_label(r.channel) + ": "@ + r.message@
}

/// The failure entries of all failed reports, in order, separated by
/// semicolons.
pub open spec fn failures_joined(rs: Seq<ChannelReport>) -> Seq<char>
    decreases rs.len(),
{
    if rs.len() == 0 {
        Seq::empty()
    } else {
        let rest = failures_joined(rs.drop_last());
        if rs.last().ok {
            rest
        } else if failure_count(rs.drop_last()) == 0 {
            failure_line(rs.last())
        } else {
            rest + "; "@ + failure_line(rs.last())
        }
    }
}

/// The deterministic summary when no channel was configured at all.
pub open spec fn no_channels_msg() -> Seq<char> {
    "no channels configured"@
}

/// The summary when at least one channel succeeded: the success count.
pub open spec fn all_ok_summary(rs: Seq<ChannelReport>) -> Seq<char> {
    "all "@ + dec_rep(success_count(rs)) + " channels succeeded"@
}

/// The summary when every channel failed: both counts, then every failed
/// channel with its error text.
pub open spec fn all_failed_summary(rs: Seq<ChannelReport>) -> Seq<char> {
    dec_rep(success_count(rs)) + " succeeded / "@ + dec_rep(failure_count(rs))
        + " failed; failures: "@ + failures_joined(rs)
}

/// Folds the per-channel reports into the aggregate result: success
/// exactly when at least one report is a success, and a summary that
/// carries the success count, or every failed channel with its error
/// text, or the fixed no-channel message.
pub fn summarize(reports: &Vec<ChannelReport>) -> (r: (bool, String))
    ensures
        r.0 == (success_count(reports@) > 0),
        reports@.len() == 0 ==> r.1@ == no_channels_msg(),
        reports@.len() > 0 && success_count(reports@) == 0 ==> r.1@ == all_failed_summary(
            reports@,
        ),
        success_count(reports@) > 0 ==> r.1@ == all_ok_summary(reports@),
{
    let n = reports.len();
    let mut succ: usize = 0;
    let mut fail: usize = 0;
    let mut failures = String::new();
    let mut i: usize = 0;
    proof {
        assert(reports@.subrange(0, 0) =~= Seq::<ChannelReport>::empty());
    }
    while i < n
        invariant
            i <= n,
            n == reports@.len(),
            succ + fail == i,
            succ == success_count(reports@.subrange(0, i as int)),
            fail == failure_count(reports@.subrange(0, i as int)),
            failures@ == failures_joined(reports@.subrange(0, i as int)),
            fail == 0 ==> failures@.len() == 0,
        decreases n - i,
    {
        proof {
            assert(reports@.subrange(0, i + 1).drop_last() =~= reports@.subrange(0, i as int));
            assert(reports@.subrange(0, i + 1).last() == reports@[i as int]);
        }
        let rp = &reports[i];
        if rp.ok {
            succ = succ + 1;
        } else {
            if fail > 0 {
                failures.append("; ");
            }
            failures.append(channel_name(rp.channel));
            failures.append(": ");
            failures.append(rp.message.as_str());
            fail = fail + 1;
            assert(failures@ =~= failures_joined(reports@.subrange(0, i + 1)));
        }
        i = i + 1;
    }
    proof {
        assert(reports@.subrange(0, n as int) =~= reports@);
    }
    if n == 0 {
        return (false, String::from_str("no channels configured"));
    }
    if succ == 0 {
        let mut m = fmt_u64(succ as u64);
        m.append(" succeeded / ");
        let fail_digits = fmt_u64(fail as u64);
        m.append(fail_digits.as_str());
        m.append(" failed; failures: ");
        m.append(failures.as_str());
        assert(m@ =~= all_failed_summary(reports@));
        (false, m)
    } else {
        let mut m = String::from_str("all ");
        let succ_digits = fmt_u64(succ as u64);
        m.append(succ_digits.as_str());
        m.append(" channels succeeded");
        assert(m@ =~= all_ok_summary(reports@));
        (true, m)
    }
}

/// The aggregate result is a success exactly when some report is a
/// success.
pub proof fn lemma_success_count_iff_some_ok(rs: Seq<ChannelReport>)
    ensures
        success_count(rs) > 0 <==> (exists|i: int| 0 <= i < rs.len() && rs[i].ok),
    decreases rs.len(),
{
    if rs.len() > 0 {
        lemma_success_count_iff_some_ok(rs.drop_last());
        if rs.last().ok {
            assert(rs[rs.len() - 1].ok);
        } else {
            if exists|i: int| 0 <= i < rs.len() && rs[i].ok {
                let i = choose|i: int| 0 <= i < rs.len() && rs[i].ok;
                assert(rs.drop_last()[i].ok);
            }
        }
    }
}

/// With a single report that is a success, the aggregate result is
/// success and the summary is the fixed text that counts one channel.
pub proof fn lemma_single_success_summary(rs: Seq<ChannelReport>)
    requires
        rs.len() == 1,
        rs[0].ok,
    ensures
        success_count(rs) == 1,
        all_ok_summary(rs) == "all 1 channels succeeded"@,
{
    assert(rs.drop_last().len() == 0);
    assert(success_count(rs.drop_last()) == 0);
    assert(success_count(rs) == 1);
    reveal_strlit("all ");
    reveal_strlit("1");
    reveal_strlit(" channels succeeded");
    reveal_strlit("all 1 channels succeeded");
    assert(dec_rep(1) =~= seq!['1']);
    assert(all_ok_summary(rs) =~= "all 1 channels succeeded"@);
}

/// With a single report that is a failure, the aggregate result is
/// failure and the summary's failure part is exactly that channel's name
/// with its error text.
pub proof fn lemma_single_failure_summary(rs: Seq<ChannelReport>)
    requires
        rs.len() == 1,
        !rs[0].ok,
    ensures
        success_count(rs) == 0,
        failure_count(rs) == 1,
        failures_joined(rs) == channel_label(rs[0].channel) + ": "@ + rs[0].message@,
{
    assert(rs.drop_last().len() == 0);
    assert(success_count(rs.drop_last()) == 0);
    assert(failure_count(rs.drop_last()) == 0);
    assert(failures_joined(rs) == failure_line(rs.last()));
}

} // verus!
