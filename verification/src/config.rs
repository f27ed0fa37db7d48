//! The configuration of the pass.
use vstd::prelude::*;
use serde_json::Value;
use crate::error::PassError;
use crate::json::{Json, json_of, json_parse, json_from_str};
use crate::json::{json_member, json_as_str, json_as_bool, json_is_null};

verus! {

/// Options of the pass.
#[derive(Debug, PartialEq, Eq)]
pub struct Options {
    /// The root of the project, for reporting paths.
    pub project_root: String,
}

/// How the pass is configured: by a flag that switches it on or off, or by
/// options, which switch it on.
#[derive(Debug, PartialEq, Eq)]
pub enum Config {
    All(bool),
    WithOptions(Options),
}

impl Clone for Options {
    fn clone(&self) -> (copy: Options)
        ensures
            copy == *self,
    {
        Options { project_root: self.project_root.clone() }
    }
}

impl Clone for Config {
    fn clone(&self) -> (copy: Config)
        ensures
            copy == *self,
    {
        match self {
            Config::All(flag) => Config::All(*flag),
            Config::WithOptions(options) => Config::WithOptions(options.clone()),
        }
    }
}

/// A [`Config`] as a mathematical value.
pub ghost enum ConfigView {
    All(bool),
    WithOptions(Seq<char>),
}

impl ConfigView {
    /// The pass is switched on.
    pub open spec fn enabled(self) -> bool {
        match self {
            ConfigView::All(flag) => flag,
            ConfigView::WithOptions(_) => true,
        }
    }
}

impl View for Config {
    type V = ConfigView;

    open spec fn view(&self) -> ConfigView {
        match self {
            Config::All(flag) => ConfigView::All(*flag),
            Config::WithOptions(options) => ConfigView::WithOptions(options.project_root@),
        }
    }
}

/// The configuration that a JSON value denotes: null stands for the default,
/// which switches the pass on; a boolean is the flag; an object with a string
/// under `root` gives the options. Any other value denotes none.
pub open spec fn json_config(json: Json) -> Option<ConfigView> {
    match json {
        Json::Null => Some(ConfigView::All(true)),
        Json::Bool(flag) => Some(ConfigView::All(flag)),
        _ => match json.member("root"@) {
            Some(Json::Text(root)) => Some(ConfigView::WithOptions(root)),
            _ => None,
        },
    }
}

/// The configuration that a JSON text denotes.
pub open spec fn parsed_config(text: Seq<char>) -> Option<ConfigView> {
    match json_parse(text) {
        Some(json) => json_config(json),
        None => None,
    }
}

impl Config {
    /// The project root, where the configuration gives one.
    pub fn project_root(&self) -> (root: Option<&str>)
        ensures
            match root {
                Some(r) => self@ == ConfigView::WithOptions(r@),
                None => self@ is All,
            },
    {
        match self {
            Config::WithOptions(opts) => Some(opts.project_root.as_str()),
            _ => None,
        }
    }

    /// Whether the pass is switched on.
    pub fn enabled(&self) -> (enabled: bool)
        ensures
            enabled == self@.enabled(),
    {
        match self {
            Config::All(flag) => *flag,
            Config::WithOptions(_) => true,
        }
    }

    /// The configuration that a JSON value denotes.
    pub fn from_json(value: &Value) -> (config: Result<Config, PassError>)
        ensures
            match json_config(json_of(*value)) {
                Some(denoted) => config matches Ok(c) && c@ == denoted,
                None => config == Err::<Config, PassError>(PassError::InvalidConfiguration),
            },
    {
        if json_is_null(value) {
            return Ok(Config::All(true));
        }
        if let Some(flag) = json_as_bool(value) {
            return Ok(Config::All(flag));
        }
        match json_member(value, "root") {
            Some(member) => match json_as_str(member) {
                Some(root) => Ok(Config::WithOptions(Options { project_root: root.to_owned() })),
                None => Err(PassError::InvalidConfiguration),
            },
            None => Err(PassError::InvalidConfiguration),
        }
    }

    /// The configuration that a JSON text denotes. A text that is not JSON
    /// denotes none.
    pub fn parse(text: &str) -> (config: Result<Config, PassError>)
        ensures
            match parsed_config(text@) {
                Some(denoted) => config matches Ok(c) && c@ == denoted,
                None => config == Err::<Config, PassError>(PassError::InvalidConfiguration),
            },
    {
        match json_from_str(text) {
            Ok(value) => Config::from_json(&value),
            Err(_) => Err(PassError::InvalidConfiguration),
        }
    }
}

} // verus!
