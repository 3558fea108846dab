//! Layered configuration: three sources, each producing a validated record
//! or a typed failure, and a resolver that takes the first success.

pub mod argument;
pub mod environment;
pub mod file;

use vstd::prelude::*;

verus! {

/// Why a configuration source, or the whole resolution, failed.
#[derive(Debug, Clone, Copy, PartialEq, Eq, Structural)]
pub enum ConfigError {
    /// The configuration file is absent or unreadable.
    NotFound,
    /// The configuration text is no JSON document of the expected shape.
    Malformed,
    /// No token was given, or the token given is empty.
    MissingToken,
    /// Every source failed: resolution is fatal.
    NoConfigurationAvailable,
}

/// The trigger phrase used when no source configures one.
pub open spec fn default_command() -> Seq<char> {
    "wetter"@
}

/// Returns the default trigger phrase.
pub fn default_command_text() -> (r: String)
    ensures
        r@ == default_command(),
{
    "wetter".to_owned()
}

/// The resolved configuration record, tagged with the source it came from.
#[derive(Debug)]
pub enum ConfigHandler {
    File(file::Config),
    Argument(argument::Config),
    Environment(environment::Config),
}

impl ConfigHandler {
    /// The credential the record carries.
    pub open spec fn spec_token(&self) -> Seq<char> {
        match self {
            ConfigHandler::File(c) => c.token@,
            ConfigHandler::Argument(c) => c.token@,
            ConfigHandler::Environment(c) => c.token@,
        }
    }

    /// The channel scope the record carries, where it carries one.
    pub open spec fn spec_channel(&self) -> Option<Seq<char>> {
        match self {
            ConfigHandler::File(c) => c.channel.deep_view(),
            ConfigHandler::Argument(c) => c.channel.deep_view(),
            ConfigHandler::Environment(c) => c.channel.deep_view(),
        }
    }

    /// The trigger phrase the record carries; the command-line source has no
    /// override, so its records always carry the default.
    pub open spec fn spec_command(&self) -> Seq<char> {
        match self {
            ConfigHandler::File(c) => c.command@,
            ConfigHandler::Argument(_) => default_command(),
            ConfigHandler::Environment(c) => c.command@,
        }
    }

    /// A well-formed record never carries an empty token or an empty trigger
    /// phrase.
    pub open spec fn wf(&self) -> bool {
        self.spec_token().len() > 0 && self.spec_command().len() > 0
    }

    pub fn get_token(&self) -> (r: String)
        ensures
            r@ == self.spec_token(),
    {
        match self {
            ConfigHandler::File(c) => c.token.clone(),
            ConfigHandler::Argument(c) => c.token.clone(),
            ConfigHandler::Environment(c) => c.token.clone(),
        }
    }

    pub fn get_channel(&self) -> (r: Option<String>)
        ensures
            r.deep_view() == self.spec_channel(),
    {
        match self {
            ConfigHandler::File(c) => c.channel.clone(),
            ConfigHandler::Argument(c) => c.channel.clone(),
            ConfigHandler::Environment(c) => c.channel.clone(),
        }
    }

    pub fn get_command(&self) -> (r: String)
        ensures
            r@ == self.spec_command(),
    {
        match self {
            ConfigHandler::File(c) => c.command.clone(),
            ConfigHandler::Argument(_) => default_command_text(),
            ConfigHandler::Environment(c) => c.command.clone(),
        }
    }

    /// Takes the first success in the fixed priority order: file first, then
    /// command line, then environment. A later source is never taken while
    /// an earlier one succeeds, and resolution fails only when all three
    /// sources fail.
    pub fn resolve(
        file: Result<file::Config, ConfigError>,
        argument: Result<argument::Config, ConfigError>,
        environment: Result<environment::Config, ConfigError>,
    ) -> (r: Result<ConfigHandler, ConfigError>)
        ensures
            file matches Ok(c) ==> r == Ok::<ConfigHandler, ConfigError>(ConfigHandler::File(c)),
            file is Err ==> (argument matches Ok(c) ==> r == Ok::<ConfigHandler, ConfigError>(
                ConfigHandler::Argument(c),
            )),
            file is Err && argument is Err ==> (environment matches Ok(c) ==> r == Ok::<
                ConfigHandler,
                ConfigError,
            >(ConfigHandler::Environment(c))),
            file is Err && argument is Err && environment is Err ==> r == Err::<
                ConfigHandler,
                ConfigError,
            >(ConfigError::NoConfigurationAvailable),
    {
        if let Ok(c) = file {
            return Ok(ConfigHandler::File(c));
        }
        if let Ok(c) = argument {
            return Ok(ConfigHandler::Argument(c));
        }
        if let Ok(c) = environment {
            return Ok(ConfigHandler::Environment(c));
        }
        Err(ConfigError::NoConfigurationAvailable)
    }
}

/// Resolves the configuration once, from everything the process was given:
/// the configuration file's text where it could be read, the argument
/// vector, and the three environment variables. The sources stand in the
/// fixed priority order — file first, command line second, environment last
/// — and the first that succeeds decides the record alone: while an earlier
/// source succeeds, what a later source would say never shows in the
/// result. Only when all three fail is resolution the single fatal failure.
pub fn create_config_handler(
    file_contents: Option<&str>,
    args: &Vec<String>,
    env_token: Option<String>,
    env_channel: Option<String>,
    env_command: Option<String>,
) -> (r: Result<ConfigHandler, ConfigError>)
    ensures
        r matches Ok(h) ==> h.wf(),
        file::spec_file_ok(file_contents) ==> (r matches Ok(h) && h is File && (file_contents
            matches Some(s) ==> file::record_matches_doc(
            h.spec_token(),
            h.spec_channel(),
            h.spec_command(),
            s@,
        ))),
        (!file::spec_file_ok(file_contents) && argument::spec_args_ok(args.deep_view())) ==> (r
            matches Ok(h) && h is Argument && argument::scan_token(args.deep_view()) == Some(
            h.spec_token(),
        ) && h.spec_channel() == argument::scan_channel(args.deep_view()) && h.spec_command()
            == default_command()),
        (!file::spec_file_ok(file_contents) && !argument::spec_args_ok(args.deep_view())
            && environment::spec_env_ok(env_token.deep_view())) ==> (r matches Ok(h) && h
            is Environment && (env_token matches Some(t) ==> h.spec_token() == t@)
            && h.spec_channel() == env_channel.deep_view() && h.spec_command()
            == environment::effective_command(env_command.deep_view())),
        (!file::spec_file_ok(file_contents) && !argument::spec_args_ok(args.deep_view())
            && !environment::spec_env_ok(env_token.deep_view())) ==> r == Err::<
            ConfigHandler,
            ConfigError,
        >(ConfigError::NoConfigurationAvailable),
{
    proof {
        reveal_strlit("wetter");
    }
    let file = file::Config::new(file_contents);
    let argument = argument::Config::new(args);
    let environment = environment::Config::new(env_token, env_channel, env_command);
    ConfigHandler::resolve(file, argument, environment)
}

} // verus!
