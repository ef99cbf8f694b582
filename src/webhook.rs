use vstd::prelude::*;
use crate::env::{env_value, Environment};
use crate::web_url::{parsed_url, WebUrl};

verus! {

/// A POST request to a URL, with the text of the notification as its body.
#[derive(Clone, PartialEq, Eq)]
pub struct Webhook {
    pub webhook: WebUrl,
}

/// The value of a `Webhook` configuration.
pub struct WebhookView {
    pub webhook: Seq<char>,
}

impl View for Webhook {
    type V = WebhookView;

    open spec fn view(&self) -> WebhookView {
        WebhookView { webhook: self.webhook@ }
    }
}

/// The webhook configuration that an environment describes: `WEBHOOK_URL`,
/// which must be a URL.
pub open spec fn webhook_config(env: Seq<(Seq<char>, Seq<char>)>) -> Option<WebhookView> {
    match env_value(env, "WEBHOOK_URL"@) {
        None => None,
        Some(u) => match parsed_url(u) {
            None => None,
            Some(webhook) => Some(WebhookView { webhook }),
        },
    }
}

impl Webhook {
    /// Loads the configuration from `WEBHOOK_URL`.
    pub fn from_env(env: &Environment) -> (r: Option<Webhook>)
        ensures
            match webhook_config(env@) {
                Some(c) => r matches Some(t) && t@ == c,
                None => r is None,
            },
    {
        match env.get("WEBHOOK_URL") {
            Some(u) => match WebUrl::parse(u.as_str()) {
                Some(webhook) => Some(Webhook { webhook }),
                None => None,
            },
            None => None,
        }
    }

    /// A copy of this configuration.
    pub fn duplicate(&self) -> (r: Webhook)
        ensures
            r@ == self@,
    {
        Webhook { webhook: self.webhook.duplicate() }
    }
}

} // verus!
