//! The settings the application is started with.

use crate::text::{owned, push_str, from_chars, same_text};
use vstd::prelude::*;

verus! {

/// The address the analysis service is reached at when none is configured.
pub const DEFAULT_API_URL: &'static str = "https://api.deepseek.com/chat/completions";

/// For which operations an analysis of the command's log is asked for.
#[derive(Debug, Clone, Copy, PartialEq, Eq, Structural)]
pub struct AiConfig {
    /// After a system update; on unless switched off.
    pub update: bool,
    /// After an installation.
    pub install: bool,
    /// After a removal.
    pub remove: bool,
}

pub fn default_true() -> (b: bool)
    ensures
        b,
{
    true
}

impl Default for AiConfig {
    fn default() -> (c: AiConfig)
        ensures
            c == (AiConfig { update: true, install: false, remove: false }),
    {
        AiConfig { update: default_true(), install: false, remove: false }
    }
}

/// The configuration. The sampling temperature is kept as the text the
/// user wrote; the caller that talks to the analysis service reads it as a
/// number.
#[derive(Debug, Clone)]
pub struct Config {
    pub model: String,
    pub temperature: String,
    pub report_dir: String,
    pub api_url: Option<String>,
    pub api_key: Option<String>,
    pub proxy: Option<String>,
    pub ai: AiConfig,
}

/// Whether the analysis is switched on for the operation of that name.
pub open spec fn ai_enabled(ai: AiConfig, operation: Seq<char>) -> bool {
    if operation == "update"@ {
        ai.update
    } else if operation == "install"@ {
        ai.install
    } else if operation == "remove"@ {
        ai.remove
    } else {
        false
    }
}

impl Config {
    /// The configuration of a user who has configured nothing, reports
    /// under `home`.
    pub fn default_for_home(home: &str) -> (c: Config)
        ensures
            c.model@ == "deepseek-reasoner"@,
            c.temperature@ == "0.8"@,
            c.report_dir@ == home@ + "/.lian/pacman"@,
            c.api_url is None,
            c.api_key is None,
            c.proxy is None,
            c.ai == (AiConfig { update: true, install: false, remove: false }),
    {
        let mut dir: Vec<char> = Vec::new();
        push_str(&mut dir, home);
        push_str(&mut dir, "/.lian/pacman");
        Config {
            model: owned("deepseek-reasoner"),
            temperature: owned("0.8"),
            report_dir: from_chars(dir.as_slice()),
            api_url: None,
            api_key: None,
            proxy: None,
            ai: AiConfig::default(),
        }
    }

    /// The address of the analysis service: the configured one, else the
    /// default.
    pub fn get_api_url(&self) -> (url: &str)
        ensures
            url@ == match self.api_url {
                Some(u) => u@,
                None => DEFAULT_API_URL@,
            },
    {
        match &self.api_url {
            Some(u) => u.as_str(),
            None => DEFAULT_API_URL,
        }
    }

    /// Whether the analysis is switched on for `operation`: `"update"`,
    /// `"install"` or `"remove"`; never for another name.
    pub fn ai_enabled_for(&self, operation: &str) -> (b: bool)
        ensures
            b == ai_enabled(self.ai, operation@),
    {
        if same_text(operation, "update") {
            self.ai.update
        } else if same_text(operation, "install") {
            self.ai.install
        } else if same_text(operation, "remove") {
            self.ai.remove
        } else {
            false
        }
    }
}

} // verus!
