//! Notification configuration: one credential per channel, plus the mail
//! and self-hosted gateway settings. A configuration is always copied by
//! value into a request, so that a later edit cannot reach an in-flight
//! send.

use vstd::prelude::*;
use crate::taskmanager::{
    PushRequest, SubmissionError, TaskManager, TaskRequest, initial_status_of,
};

verus! {

/// Settings of the self-hosted gateway channel.
pub struct GotifyConfig {
    pub gotify_url: String,
    pub gotify_token: String,
}

/// Abstract value of a `GotifyConfig`.
pub struct GotifyConfigV {
    pub gotify_url: Seq<char>,
    pub gotify_token: Seq<char>,
}

impl View for GotifyConfig {
    type V = GotifyConfigV;

    open spec fn view(&self) -> GotifyConfigV {
        GotifyConfigV { gotify_url: self.gotify_url@, gotify_token: self.gotify_token@ }
    }
}

impl GotifyConfig {
    /// An empty gateway configuration: no URL, no token.
    pub fn new() -> (r: Self)
        ensures
            r@.gotify_url.len() == 0,
            r@.gotify_token.len() == 0,
    {
        Self { gotify_url: String::new(), gotify_token: String::new() }
    }

    /// A field-for-field copy.
    pub fn snapshot(&self) -> (r: Self)
        ensures
            r@ == self@,
    {
        Self { gotify_url: self.gotify_url.clone(), gotify_token: self.gotify_token.clone() }
    }
}

/// Settings of the mail channel.
pub struct SmtpConfig {
    pub smtp_server: String,
    pub smtp_port: String,
    pub smtp_username: String,
    pub smtp_password: String,
    pub smtp_from: String,
    pub smtp_to: String,
}

/// Abstract value of an `SmtpConfig`.
pub struct SmtpConfigV {
    pub smtp_server: Seq<char>,
    pub smtp_port: Seq<char>,
    pub smtp_username: Seq<char>,
    pub smtp_password: Seq<char>,
    pub smtp_from: Seq<char>,
    pub smtp_to: Seq<char>,
}

impl View for SmtpConfig {
    type V = SmtpConfigV;

    open spec fn view(&self) -> SmtpConfigV {
        SmtpConfigV {
            smtp_server: self.smtp_server@,
            smtp_port: self.smtp_port@,
            smtp_username: self.smtp_username@,
            smtp_password: self.smtp_password@,
            smtp_from: self.smtp_from@,
            smtp_to: self.smtp_to@,
        }
    }
}

impl SmtpConfig {
    /// An empty mail configuration.
    pub fn new() -> (r: Self)
        ensures
            r@.smtp_server.len() == 0,
            r@.smtp_port.len() == 0,
            r@.smtp_username.len() == 0,
            r@.smtp_password.len() == 0,
            r@.smtp_from.len() == 0,
            r@.smtp_to.len() == 0,
    {
        Self {
            smtp_server: String::new(),
            smtp_port: String::new(),
            smtp_username: String::new(),
            smtp_password: String::new(),
            smtp_from: String::new(),
            smtp_to: String::new(),
        }
    }

    /// A field-for-field copy.
    pub fn snapshot(&self) -> (r: Self)
        ensures
            r@ == self@,
    {
        Self {
            smtp_server: self.smtp_server.clone(),
            smtp_port: self.smtp_port.clone(),
            smtp_username: self.smtp_username.clone(),
            smtp_password: self.smtp_password.clone(),
            smtp_from: self.smtp_from.clone(),
            smtp_to: self.smtp_to.clone(),
        }
    }
}

/// One credential per notification channel. An empty credential means the
/// channel is not configured; `enabled` switches the whole dispatcher off.
pub struct PushConfig {
    pub enabled: bool,
    pub bark_token: String,
    pub pushplus_token: String,
    pub fangtang_token: String,
    pub dingtalk_token: String,
    pub wechat_token: String,
    pub gotify_config: GotifyConfig,
    pub smtp_config: SmtpConfig,
}

/// Abstract value of a `PushConfig`.
pub struct PushConfigV {
    pub enabled: bool,
    pub bark_token: Seq<char>,
    pub pushplus_token: Seq<char>,
    pub fangtang_token: Seq<char>,
    pub dingtalk_token: Seq<char>,
    pub wechat_token: Seq<char>,
    pub gotify_config: GotifyConfigV,
    pub smtp_config: SmtpConfigV,
}

impl View for PushConfig {
    type V = PushConfigV;

    open spec fn view(&self) -> PushConfigV {
        PushConfigV {
            enabled: self.enabled,
            bark_token: self.bark_token@,
            pushplus_token: self.pushplus_token@,
            fangtang_token: self.fangtang_token@,
            dingtalk_token: self.dingtalk_token@,
            wechat_token: self.wechat_token@,
            gotify_config: self.gotify_config@,
            smtp_config: self.smtp_config@,
        }
    }
}

impl PushConfig {
    /// A configuration with notifications switched off and every channel
    /// credential empty.
    pub fn new() -> (r: Self)
        ensures
            !r@.enabled,
            r@.bark_token.len() == 0,
            r@.pushplus_token.len() == 0,
            r@.fangtang_token.len() == 0,
            r@.dingtalk_token.len() == 0,
            r@.wechat_token.len() == 0,
            r@.gotify_config.gotify_url.len() == 0,
            r@.gotify_config.gotify_token.len() == 0,
            r@.smtp_config.smtp_server.len() == 0,
    {
        Self {
            enabled: false,
            bark_token: String::new(),
            pushplus_token: String::new(),
            fangtang_token: String::new(),
            dingtalk_token: String::new(),
            wechat_token: String::new(),
            gotify_config: GotifyConfig::new(),
            smtp_config: SmtpConfig::new(),
        }
    }

    /// The value snapshot embedded into each notification request, so that
    /// channel tokens cannot mutate underneath an in-flight send.
    pub fn snapshot(&self) -> (r: Self)
        ensures
            r@ == self@,
    {
        Self {
            enabled: self.enabled,
            bark_token: self.bark_token.clone(),
            pushplus_token: self.pushplus_token.clone(),
            fangtang_token: self.fangtang_token.clone(),
            dingtalk_token: self.dingtalk_token.clone(),
            wechat_token: self.wechat_token.clone(),
            gotify_config: self.gotify_config.snapshot(),
            smtp_config: self.smtp_config.snapshot(),
        }
    }

    /// When notifications are enabled, wraps the message in a
    /// notification task and submits it to the manager, handing back the
    /// allocated identifier; when disabled, touches nothing and submits
    /// nothing. The submitted request carries a value snapshot of this
    /// configuration.
    pub fn push_all(
        &self,
        title: &str,
        message: &str,
        jump_url: &Option<String>,
        task_manager: &mut TaskManager,
        now: u64,
    ) -> (r: Option<Result<u64, SubmissionError>>)
        requires
            old(task_manager).wf(),
            old(task_manager).next_id < u64::MAX,
        ensures
            final(task_manager).wf(),
            !self@.enabled ==> r is None && *final(task_manager) == *old(task_manager),
            self@.enabled ==> ({
                &&& r matches Some(res)
                &&& res matches Ok(id) && id == old(task_manager).next_id
                &&& final(task_manager).next_id == old(task_manager).next_id + 1
                &&& final(task_manager).tasks@ == old(task_manager).tasks@.push(
                    final(task_manager).tasks@.last(),
                )
                &&& ({
                    let e = final(task_manager).tasks@.last();
                    &&& e.request matches TaskRequest::PushRequest(q) && q.title@ == title@
                        && q.message@ == message@ && q.push_config@ == self@ && ((q.jump_url
                        is Some) == (jump_url is Some)) && (q.jump_url matches Some(u)
                        ==> jump_url matches Some(u0) && u@ == u0@)
                    &&& e.status == initial_status_of(e.request)
                    &&& e.created_at == now
                    &&& !e.cancel_requested
                })
            }),
    {
        if !self.enabled {
            return None;
        }
        let jump = match jump_url {
            Some(u) => Some(u.clone()),
            None => None,
        };
        let request = TaskRequest::PushRequest(
            PushRequest {
                title: String::from_str(title),
                message: String::from_str(message),
                jump_url: jump,
                push_config: self.snapshot(),
            },
        );
        Some(task_manager.submit_task(request, now))
    }
}

} // verus!
