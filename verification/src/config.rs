//! Validation of raw invocation tokens into a search configuration.

use crate::text::str_eq;
use vstd::prelude::*;
use vstd::string::StrSliceExecFns;

verus! {

/// Why a configuration could not be built.
#[derive(Clone, Copy, Debug, PartialEq, Eq, Structural)]
pub enum ConfigError {
    /// No query token was supplied, or the query token was empty.
    MissingQuery,
    /// A query was supplied but no content source token.
    MissingContentSource,
}

/// The validated, immutable parameters of one search invocation.
pub struct Config {
    pub query: String,
    pub filepath: String,
    pub ignore_case: bool,
}

/// The recognized ignore-case marker: a token `-i` directly after the
/// content source, followed by a token `true`.
pub open spec fn spec_has_ignore_flag(toks: Seq<Seq<char>>) -> bool {
    toks.len() >= 5 && toks[3] == "-i"@ && toks[4] == "true"@
}

/// Case-sensitivity resolution: with case-flag tokens supplied, only the
/// recognized marker turns matching case-insensitive; without them, the
/// ambient override signal decides; the default is case-sensitive.
pub open spec fn spec_ignore_case(toks: Seq<Seq<char>>, override_signal: bool) -> bool {
    if toks.len() > 3 {
        spec_has_ignore_flag(toks)
    } else {
        override_signal
    }
}

impl Config {
    /// A configuration is well formed when its query is non-empty.
    pub open spec fn wf(&self) -> bool {
        self.query@.len() > 0
    }

    /// Builds a configuration from the raw tokens
    /// `[program name, query, content source, case-flag tokens...]` and an
    /// ambient override signal. An absent or empty query is rejected, so a
    /// valid configuration never matches every line by accident; a present
    /// query without a content source is rejected as well.
    pub fn build(tokens: &Vec<String>, override_signal: bool) -> (r: Result<Config, ConfigError>)
        ensures
            match r {
                Ok(config) => {
                    &&& tokens@.len() >= 3
                    &&& tokens@[1]@.len() > 0
                    &&& config.query@ == tokens@[1]@
                    &&& config.filepath@ == tokens@[2]@
                    &&& config.ignore_case == spec_ignore_case(
                        tokens.deep_view(),
                        override_signal,
                    )
                    &&& config.wf()
                },
                Err(ConfigError::MissingQuery) => tokens@.len() < 2 || tokens@[1]@.len() == 0,
                Err(ConfigError::MissingContentSource) => tokens@.len() == 2 && tokens@[1]@.len()
                    > 0,
            },
    {
        if tokens.len() < 2 {
            return Err(ConfigError::MissingQuery);
        }
        let query = tokens[1].clone();
        if query.as_str().unicode_len() == 0 {
            return Err(ConfigError::MissingQuery);
        }
        if tokens.len() < 3 {
            return Err(ConfigError::MissingContentSource);
        }
        let filepath = tokens[2].clone();
        let ignore_case = if tokens.len() > 3 {
            tokens.len() >= 5 && str_eq(tokens[3].as_str(), "-i") && str_eq(
                tokens[4].as_str(),
                "true",
            )
        } else {
            override_signal
        };
        proof {
            if tokens@.len() >= 5 {
                assert(tokens.deep_view()[3] == tokens@[3]@);
                assert(tokens.deep_view()[4] == tokens@[4]@);
            }
        }
        Ok(Config { query, filepath, ignore_case })
    }
}

} // verus!
