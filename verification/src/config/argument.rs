//! The command-line configuration source: scans the argument vector for
//! `key=value` pairs whose key names a token or a channel.

use vstd::prelude::*;

use crate::config::ConfigError;
use crate::text::{contains_str, lower_of, spec_contains, spec_split, split_on, to_lowercase};

verus! {

/// The pieces of one argument, split on `=`: the key first, a value second
/// where one is given.
pub open spec fn arg_parts(a: Seq<char>) -> Seq<Seq<char>> {
    spec_split(a, '=')
}

/// The key of an argument: what stands before its first `=`.
pub open spec fn arg_key(a: Seq<char>) -> Seq<char> {
    arg_parts(a)[0]
}

/// The value of an argument: what stands between its first and second `=`,
/// or `None` where the argument has no `=` at all.
pub open spec fn arg_value(a: Seq<char>) -> Option<Seq<char>> {
    if arg_parts(a).len() >= 2 {
        Some(arg_parts(a)[1])
    } else {
        None
    }
}

/// The argument names a token: its key contains `token`, case-insensitively.
pub open spec fn is_token_arg(a: Seq<char>) -> bool {
    spec_contains(lower_of(arg_key(a)), "token"@)
}

/// The argument names a channel: its key contains `channel`
/// case-insensitively and does not name a token.
pub open spec fn is_channel_arg(a: Seq<char>) -> bool {
    !is_token_arg(a) && spec_contains(lower_of(arg_key(a)), "channel"@)
}

/// The value of the last token-naming argument; the last occurrence wins,
/// and one without a value counts as giving none.
pub open spec fn scan_token(args: Seq<Seq<char>>) -> Option<Seq<char>>
    decreases args.len(),
{
    if args.len() == 0 {
        None
    } else if is_token_arg(args.last()) {
        arg_value(args.last())
    } else {
        scan_token(args.drop_last())
    }
}

/// The value of the last channel-naming argument, as `scan_token`.
pub open spec fn scan_channel(args: Seq<Seq<char>>) -> Option<Seq<char>>
    decreases args.len(),
{
    if args.len() == 0 {
        None
    } else if is_channel_arg(args.last()) {
        arg_value(args.last())
    } else {
        scan_channel(args.drop_last())
    }
}

/// The command-line source succeeds on this argument vector: some argument
/// names a non-empty token.
pub open spec fn spec_args_ok(args: Seq<Seq<char>>) -> bool {
    scan_token(args) matches Some(t) && t.len() > 0
}

/// A configuration taken from the command line. This source carries no
/// trigger-phrase override.
#[derive(Debug)]
pub struct Config {
    pub channel: Option<String>,
    pub token: String,
}

impl Config {
    /// Scans the argument vector; succeeds exactly where some argument names
    /// a non-empty token, and fails with `MissingToken` otherwise.
    pub fn new(args: &Vec<String>) -> (r: Result<Config, ConfigError>)
        ensures
            r matches Ok(c) ==> {
                &&& scan_token(args.deep_view()) == Some(c.token@)
                &&& c.token@.len() > 0
                &&& c.channel.deep_view() == scan_channel(args.deep_view())
            },
            r matches Err(e) ==> e == ConfigError::MissingToken,
            r is Ok <==> (scan_token(args.deep_view()) matches Some(t) && t.len() > 0),
    {
        let mut token_arg: Option<String> = None;
        let mut channel_arg: Option<String> = None;
        let n = args.len();
        let mut i: usize = 0;
        while i < n
            invariant
                n == args@.len(),
                i <= n,
                token_arg.deep_view() == scan_token(args.deep_view().subrange(0, i as int)),
                channel_arg.deep_view() == scan_channel(args.deep_view().subrange(0, i as int)),
            decreases n - i,
        {
            let ghost dv = args.deep_view();
            proof {
                assert(dv.subrange(0, i as int + 1).drop_last() =~= dv.subrange(0, i as int));
                assert(dv.subrange(0, i as int + 1).last() == dv[i as int]);
                assert(dv[i as int] == args@[i as int]@);
            }
            let arg = &args[i];
            let parts = split_on(arg.as_str(), '=');
            proof {
                assert(parts.deep_view()[0] == arg_key(dv[i as int]));
            }
            let low = to_lowercase(parts[0].as_str());
            let value: Option<String> = if parts.len() >= 2 {
                Some(parts[1].clone())
            } else {
                None
            };
            proof {
                assert(value.deep_view() == arg_value(dv[i as int]));
            }
            if contains_str(low.as_str(), "token") {
                token_arg = value;
            } else if contains_str(low.as_str(), "channel") {
                channel_arg = value;
            }
            i += 1;
        }
        proof {
            assert(args.deep_view().subrange(0, n as int) =~= args.deep_view());
        }
        match token_arg {
            Some(token) => {
                if token.as_str().is_empty() {
                    Err(ConfigError::MissingToken)
                } else {
                    Ok(Config { channel: channel_arg, token })
                }
            },
            None => Err(ConfigError::MissingToken),
        }
    }
}

} // verus!
