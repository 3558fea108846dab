//! The environment configuration source: a required token, an optional
//! channel scope, and an optional trigger-phrase override.

use vstd::prelude::*;

use crate::config::{default_command, default_command_text, ConfigError};

verus! {

/// A configuration taken from environment variables.
#[derive(Debug)]
pub struct Config {
    pub channel: Option<String>,
    pub token: String,
    pub command: String,
}

/// The trigger phrase a source configures: the override where one is given
/// and non-empty, the default otherwise.
pub open spec fn effective_command(command: Option<Seq<char>>) -> Seq<char> {
    match command {
        Some(c) => if c.len() > 0 {
            c
        } else {
            default_command()
        },
        None => default_command(),
    }
}

/// The environment source succeeds on this token variable: it is set and
/// non-empty.
pub open spec fn spec_env_ok(token: Option<Seq<char>>) -> bool {
    token matches Some(t) && t.len() > 0
}

impl Config {
    /// Builds a record from the values read out of the environment; succeeds
    /// exactly where a non-empty token is set, and fails with `MissingToken`
    /// otherwise.
    pub fn new(token: Option<String>, channel: Option<String>, command: Option<String>) -> (r:
        Result<Config, ConfigError>)
        ensures
            r matches Ok(c) ==> {
                &&& token matches Some(t) && c.token@ == t@
                &&& c.channel == channel
                &&& c.command@ == effective_command(command.deep_view())
                &&& c.token@.len() > 0
                &&& c.command@.len() > 0
            },
            r matches Err(e) ==> e == ConfigError::MissingToken,
            r is Ok <==> (token matches Some(t) && t@.len() > 0),
    {
        let token = match token {
            Some(t) => t,
            None => {
                return Err(ConfigError::MissingToken);
            },
        };
        if token.as_str().is_empty() {
            return Err(ConfigError::MissingToken);
        }
        let command = match command {
            Some(c) => if c.as_str().is_empty() {
                default_command_text()
            } else {
                c
            },
            None => default_command_text(),
        };
        proof {
            reveal_strlit("wetter");
        }
        Ok(Config { channel, token, command })
    }
}

} // verus!
