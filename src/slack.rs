use vstd::prelude::*;
use crate::env::{env_value, Environment};
use crate::text::{escape_quotes, escaped};
use crate::web_url::{parsed_url, WebUrl};

verus! {

/// Slack notification, posted to an Incoming Webhook URL
/// (`https://hooks.slack.com/...`).
#[derive(Clone, PartialEq, Eq)]
pub struct Slack {
    pub webhook: WebUrl,
}

/// The value of a `Slack` configuration.
pub struct SlackView {
    pub webhook: Seq<char>,
}

impl View for Slack {
    type V = SlackView;

    open spec fn view(&self) -> SlackView {
        SlackView { webhook: self.webhook@ }
    }
}

/// The JSON body of a message; only double quotes are escaped.
pub open spec fn slack_payload(text: Seq<char>) -> Seq<char> {
    "{\"text\":\""@ + escaped(text) + "\"}"@
}

/// The Slack configuration that an environment describes: the webhook is
/// `SLACK_HOOK`, or `SLACK_WEBHOOK` where that is unset, and must be a URL.
pub open spec fn slack_config(env: Seq<(Seq<char>, Seq<char>)>) -> Option<SlackView> {
    let hook = match env_value(env, "SLACK_HOOK"@) {
        Some(h) => Some(h),
        None => env_value(env, "SLACK_WEBHOOK"@),
    };
    match hook {
        None => None,
        Some(h) => match parsed_url(h) {
            None => None,
            Some(webhook) => Some(SlackView { webhook }),
        },
    }
}

/// The JSON body that carries `text`.
pub fn payload_to_json(text: &str) -> (r: String)
    ensures
        r@ == slack_payload(text@),
{
    let mut r = "{\"text\":\"".to_owned();
    let body = escape_quotes(text);
    r.append(body.as_str());
    r.append("\"}");
    r
}

impl Slack {
    /// Loads the configuration from `SLACK_HOOK` or `SLACK_WEBHOOK`.
    pub fn from_env(env: &Environment) -> (r: Option<Slack>)
        ensures
            match slack_config(env@) {
                Some(c) => r matches Some(t) && t@ == c,
                None => r is None,
            },
    {
        let hook = match env.get("SLACK_HOOK") {
            Some(h) => h,
            None => match env.get("SLACK_WEBHOOK") {
                Some(h) => h,
                None => return None,
            },
        };
        match WebUrl::parse(hook.as_str()) {
            Some(webhook) => Some(Slack { webhook }),
            None => None,
        }
    }

    /// A copy of this configuration.
    pub fn duplicate(&self) -> (r: Slack)
        ensures
            r@ == self@,
    {
        Slack { webhook: self.webhook.duplicate() }
    }
}

} // verus!
