//! The file configuration source: a JSON document with a required non-empty
//! `token`, an optional `channel` (empty means unscoped) and an optional
//! `command` (empty means the default trigger phrase).

use vstd::prelude::*;

use crate::config::{default_command, default_command_text, ConfigError};
use crate::json::{
    field_of, is_json, json_as_str, json_get, json_is_null, null_of, parse_json, parse_of, str_of,
};

verus! {

/// What a JSON object holds under one key, as far as this source reads it.
#[derive(Debug)]
pub enum JsonField {
    /// The key is not present.
    Absent,
    /// The key holds JSON null.
    Null,
    /// The key holds a JSON string with this text.
    Text(String),
    /// The key holds some other JSON value.
    Other,
}

/// A configuration taken from the configuration file.
#[derive(Debug)]
pub struct Config {
    pub channel: Option<String>,
    pub token: String,
    pub command: String,
}

/// The channel scope a field configures: the text where it is a non-empty
/// string, and no scope otherwise.
pub open spec fn channel_of_field(f: JsonField) -> Option<Seq<char>> {
    match f {
        JsonField::Text(s) => if s@.len() > 0 {
            Some(s@)
        } else {
            None
        },
        _ => None,
    }
}

/// The trigger phrase a field configures: the text where it is a non-empty
/// string, and the default otherwise.
pub open spec fn command_of_field(f: JsonField) -> Seq<char> {
    match f {
        JsonField::Text(s) => if s@.len() > 0 {
            s@
        } else {
            default_command()
        },
        _ => default_command(),
    }
}

/// The token text a parsed document carries: the text of its `token` field
/// where that field is a string, and nothing otherwise.
pub open spec fn doc_token(v: serde_json::Value) -> Option<Seq<char>> {
    match field_of(v, "token"@) {
        Some(x) => if null_of(x) {
            None
        } else {
            str_of(x)
        },
        None => None,
    }
}

/// The document's `channel` field has a shape this source refuses: present,
/// not null, and no string.
pub open spec fn doc_channel_bad(v: serde_json::Value) -> bool {
    match field_of(v, "channel"@) {
        Some(x) => !null_of(x) && str_of(x) is None,
        None => false,
    }
}

/// The document's `command` field has a shape this source refuses: present
/// and no string.
pub open spec fn doc_command_bad(v: serde_json::Value) -> bool {
    match field_of(v, "command"@) {
        Some(x) => null_of(x) || str_of(x) is None,
        None => false,
    }
}

/// The channel scope a parsed document carries, where it carries one.
pub open spec fn doc_channel(v: serde_json::Value) -> Option<Seq<char>> {
    match field_of(v, "channel"@) {
        Some(x) => if null_of(x) {
            None
        } else {
            match str_of(x) {
                Some(t) => if t.len() > 0 {
                    Some(t)
                } else {
                    None
                },
                None => None,
            }
        },
        None => None,
    }
}

/// The trigger phrase a parsed document carries: its `command` text where
/// that is a non-empty string, and the default otherwise.
pub open spec fn doc_command(v: serde_json::Value) -> Seq<char> {
    match field_of(v, "command"@) {
        Some(x) => if null_of(x) {
            default_command()
        } else {
            match str_of(x) {
                Some(t) => if t.len() > 0 {
                    t
                } else {
                    default_command()
                },
                None => default_command(),
            }
        },
        None => default_command(),
    }
}

/// The text is a valid JSON document that this source accepts: a non-empty
/// string token, and no refused channel or command shape.
pub open spec fn source_ok(s: Seq<char>) -> bool {
    match parse_of(s) {
        Some(v) => {
            &&& doc_token(v) matches Some(t) && t.len() > 0
            &&& !doc_channel_bad(v)
            &&& !doc_command_bad(v)
        },
        None => false,
    }
}

/// The file source succeeds on these contents.
pub open spec fn spec_file_ok(contents: Option<&str>) -> bool {
    match contents {
        Some(s) => source_ok(s@),
        None => false,
    }
}

/// The record carries exactly what the document gives: its token text, its
/// channel scope, and its trigger phrase.
pub open spec fn record_matches_doc(
    token: Seq<char>,
    channel: Option<Seq<char>>,
    command: Seq<char>,
    s: Seq<char>,
) -> bool {
    parse_of(s) matches Some(v) && doc_token(v) == Some(token) && channel == doc_channel(v)
        && command == doc_command(v)
}

/// How a `JsonField` observation relates to the document it was read from.
pub open spec fn matches_field(f: JsonField, v: serde_json::Value, key: Seq<char>) -> bool {
    match field_of(v, key) {
        None => f is Absent,
        Some(x) => if null_of(x) {
            f is Null
        } else {
            match str_of(x) {
                Some(t) => f matches JsonField::Text(s) && s@ == t,
                None => f is Other,
            }
        },
    }
}

/// Projects one key of the parsed document into a `JsonField`.
fn read_field(v: &serde_json::Value, key: &str) -> (f: JsonField)
    ensures
        matches_field(f, *v, key@),
{
    match json_get(v, key) {
        None => JsonField::Absent,
        Some(x) => {
            if json_is_null(x) {
                JsonField::Null
            } else {
                match json_as_str(x) {
                    Some(s) => JsonField::Text(s.to_owned()),
                    None => JsonField::Other,
                }
            }
        },
    }
}

impl Config {
    /// Validates the three fields of the document. The token must be a
    /// string (else the document is malformed) and non-empty (else the token
    /// is missing); a channel of a non-string, non-null shape and a command
    /// of any non-string shape are malformed; an empty or null channel means
    /// unscoped, an empty or absent command means the default trigger
    /// phrase.
    pub fn from_fields(token: JsonField, channel: JsonField, command: JsonField) -> (r: Result<
        Config,
        ConfigError,
    >)
        ensures
            r is Ok <==> (token matches JsonField::Text(t) && t@.len() > 0 && !(channel
                is Other) && !(command is Other) && !(command is Null)),
            r matches Ok(c) ==> {
                &&& token matches JsonField::Text(t) && c.token@ == t@
                &&& c.channel.deep_view() == channel_of_field(channel)
                &&& c.command@ == command_of_field(command)
                &&& c.token@.len() > 0
                &&& c.command@.len() > 0
            },
            !(token is Text) ==> r == Err::<Config, ConfigError>(ConfigError::Malformed),
            (token matches JsonField::Text(t) && t@.len() == 0) ==> r == Err::<
                Config,
                ConfigError,
            >(ConfigError::MissingToken),
            (token matches JsonField::Text(t) && t@.len() > 0 && (channel is Other || command
                is Other || command is Null)) ==> r == Err::<Config, ConfigError>(
                ConfigError::Malformed,
            ),
    {
        let token = match token {
            JsonField::Text(t) => t,
            _ => {
                return Err(ConfigError::Malformed);
            },
        };
        if token.as_str().is_empty() {
            return Err(ConfigError::MissingToken);
        }
        let channel = match channel {
            JsonField::Text(s) => if s.as_str().is_empty() {
                None
            } else {
                Some(s)
            },
            JsonField::Absent => None,
            JsonField::Null => None,
            JsonField::Other => {
                return Err(ConfigError::Malformed);
            },
        };
        let command = match command {
            JsonField::Text(s) => if s.as_str().is_empty() {
                default_command_text()
            } else {
                s
            },
            JsonField::Absent => default_command_text(),
            JsonField::Null => {
                return Err(ConfigError::Malformed);
            },
            JsonField::Other => {
                return Err(ConfigError::Malformed);
            },
        };
        proof {
            reveal_strlit("wetter");
        }
        Ok(Config { channel, token, command })
    }

    /// Parses and validates the text read from the configuration file;
    /// `None` stands for a file that is absent or unreadable. Succeeds
    /// exactly where the text is a JSON document with a non-empty string
    /// token and no refused field shape; an absent file is `NotFound`, text
    /// that does not parse or a refused field shape is `Malformed`, and an
    /// empty token is `MissingToken`.
    pub fn new(contents: Option<&str>) -> (r: Result<Config, ConfigError>)
        ensures
            r == Err::<Config, ConfigError>(ConfigError::NotFound) <==> contents is None,
            r is Ok <==> spec_file_ok(contents),
            contents matches Some(s) ==> {
                &&& (!is_json(s@) ==> r == Err::<Config, ConfigError>(ConfigError::Malformed))
                &&& (parse_of(s@) matches Some(v) ==> {
                    &&& (doc_token(v) is None ==> r == Err::<Config, ConfigError>(
                        ConfigError::Malformed,
                    ))
                    &&& ((doc_token(v) matches Some(t) && t.len() == 0) ==> r == Err::<
                        Config,
                        ConfigError,
                    >(ConfigError::MissingToken))
                    &&& ((doc_token(v) matches Some(t) && t.len() > 0 && (doc_channel_bad(v)
                        || doc_command_bad(v))) ==> r == Err::<Config, ConfigError>(
                        ConfigError::Malformed,
                    ))
                })
                &&& (r matches Ok(c) ==> record_matches_doc(
                    c.token@,
                    c.channel.deep_view(),
                    c.command@,
                    s@,
                ))
            },
            r matches Ok(c) ==> {
                &&& c.token@.len() > 0
                &&& c.command@.len() > 0
                &&& (c.channel matches Some(s) ==> s@.len() > 0)
            },
    {
        let s = match contents {
            Some(s) => s,
            None => {
                return Err(ConfigError::NotFound);
            },
        };
        let v = match parse_json(s) {
            Some(v) => v,
            None => {
                return Err(ConfigError::Malformed);
            },
        };
        let token = read_field(&v, "token");
        let channel = read_field(&v, "channel");
        let command = read_field(&v, "command");
        Self::from_fields(token, channel, command)
    }
}

} // verus!
