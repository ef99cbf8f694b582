use vstd::prelude::*;
use crate::env::{env_value, Environment};

verus! {

/// A notification shown on the local desktop.
#[derive(Clone, PartialEq, Eq)]
pub struct Desktop {
    pub summary: Option<String>,
}

/// The value of a `Desktop` configuration.
pub struct DesktopView {
    pub summary: Option<Seq<char>>,
}

impl View for Desktop {
    type V = DesktopView;

    open spec fn view(&self) -> DesktopView {
        DesktopView { summary: self.summary.deep_view() }
    }
}

/// The desktop configuration that an environment describes: present where
/// `PLING_DESKTOP_ENABLED` or `PLING_DESKTOP_SUMMARY` is set.
pub open spec fn desktop_config(env: Seq<(Seq<char>, Seq<char>)>) -> Option<DesktopView> {
    let summary = env_value(env, "PLING_DESKTOP_SUMMARY"@);
    if env_value(env, "PLING_DESKTOP_ENABLED"@) is Some || summary is Some {
        Some(DesktopView { summary })
    } else {
        None
    }
}

impl Desktop {
    /// Loads the configuration from `PLING_DESKTOP_ENABLED` and
    /// `PLING_DESKTOP_SUMMARY`.
    pub fn from_env(env: &Environment) -> (r: Option<Desktop>)
        ensures
            match desktop_config(env@) {
                Some(c) => r matches Some(t) && t@ == c,
                None => r is None,
            },
    {
        let enabled = env.get("PLING_DESKTOP_ENABLED").is_some();
        let summary = env.get("PLING_DESKTOP_SUMMARY");
        if enabled || summary.is_some() {
            Some(Desktop { summary })
        } else {
            None
        }
    }

    /// A copy of this configuration.
    pub fn duplicate(&self) -> (r: Desktop)
        ensures
            r@ == self@,
    {
        match &self.summary {
            Some(s) => Desktop { summary: Some(s.clone()) },
            None => Desktop { summary: None },
        }
    }
}

} // verus!
