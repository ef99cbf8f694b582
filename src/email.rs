use vstd::prelude::*;
use crate::decimal::{parse_u16, u16_of};
use crate::env::{env_value, Environment};

verus! {

/// An e-mail sent through an SMTP relay.
#[derive(Debug, Clone, PartialEq, Eq)]
pub struct Email {
    pub server: String,
    /// The relay's port, where it is not the default one.
    pub port: Option<u16>,
    pub username: String,
    pub password: String,
    pub from: String,
    pub to: String,
    pub subject: String,
}

/// The value of an `Email` configuration.
pub struct EmailView {
    pub server: Seq<char>,
    pub port: Option<u16>,
    pub username: Seq<char>,
    pub password: Seq<char>,
    pub from: Seq<char>,
    pub to: Seq<char>,
    pub subject: Seq<char>,
}

impl View for Email {
    type V = EmailView;

    open spec fn view(&self) -> EmailView {
        EmailView {
            server: self.server@,
            port: self.port,
            username: self.username@,
            password: self.password@,
            from: self.from@,
            to: self.to@,
            subject: self.subject@,
        }
    }
}

/// The e-mail configuration that an environment describes: every variable
/// but `EMAIL_PORT` is needed; a port that is unset or not a `u16` is none.
pub open spec fn email_config(env: Seq<(Seq<char>, Seq<char>)>) -> Option<EmailView> {
    let server = env_value(env, "EMAIL_SERVER"@);
    let username = env_value(env, "EMAIL_USERNAME"@);
    let password = env_value(env, "EMAIL_PASSWORD"@);
    let from = env_value(env, "EMAIL_FROM"@);
    let to = env_value(env, "EMAIL_TO"@);
    let subject = env_value(env, "EMAIL_SUBJECT"@);
    if server is Some && username is Some && password is Some && from is Some && to is Some
        && subject is Some {
        Some(
            EmailView {
                server: server->0,
                port: match env_value(env, "EMAIL_PORT"@) {
                    Some(p) => u16_of(p),
                    None => None,
                },
                username: username->0,
                password: password->0,
                from: from->0,
                to: to->0,
                subject: subject->0,
            },
        )
    } else {
        None
    }
}

impl Email {
    /// Loads the configuration from `EMAIL_SERVER`, `EMAIL_PORT`,
    /// `EMAIL_USERNAME`, `EMAIL_PASSWORD`, `EMAIL_FROM`, `EMAIL_TO` and
    /// `EMAIL_SUBJECT`.
    pub fn from_env(env: &Environment) -> (r: Option<Email>)
        ensures
            match email_config(env@) {
                Some(c) => r matches Some(t) && t@ == c,
                None => r is None,
            },
    {
        let server = match env.get("EMAIL_SERVER") {
            Some(v) => v,
            None => return None,
        };
        let port = match env.get("EMAIL_PORT") {
            Some(p) => parse_u16(p.as_str()),
            None => None,
        };
        let username = match env.get("EMAIL_USERNAME") {
            Some(v) => v,
            None => return None,
        };
        let password = match env.get("EMAIL_PASSWORD") {
            Some(v) => v,
            None => return None,
        };
        let from = match env.get("EMAIL_FROM") {
            Some(v) => v,
            None => return None,
        };
        let to = match env.get("EMAIL_TO") {
            Some(v) => v,
            None => return None,
        };
        let subject = match env.get("EMAIL_SUBJECT") {
            Some(v) => v,
            None => return None,
        };
        Some(Email { server, port, username, password, from, to, subject })
    }

    /// A copy of this configuration.
    pub fn duplicate(&self) -> (r: Email)
        ensures
            r@ == self@,
    {
        Email {
            server: self.server.clone(),
            port: self.port,
            username: self.username.clone(),
            password: self.password.clone(),
            from: self.from.clone(),
            to: self.to.clone(),
            subject: self.subject.clone(),
        }
    }
}

} // verus!
