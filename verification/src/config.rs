//! The configuration: what to watch and where to send commands.
//!
//! A [`Config`] exists only for an endpoint that has passed validation, and
//! it cannot be changed afterwards. Validation is a computation on the
//! endpoint text alone: nothing is connected to and nothing is watched.

use crate::encoder::{addressable, can_address, encode, encoded_for, Command, Encoded};
use vstd::prelude::*;

verus! {

/// The `url` crate's parse error, told apart from success and nothing more.
#[verifier::external_type_specification]
#[verifier::external_body]
pub struct ExParseError(url::ParseError);

/// The scheme that the `url` crate finds in `input`, or `None` where it
/// refuses to parse `input` as a URL.
pub uninterp spec fn url_scheme(input: Seq<char>) -> Option<Seq<char>>;

/// Calls `url::Url::parse` and, on the URL that it gives, `scheme`. The
/// contract claims that the scheme handed back, or the refusal, is settled
/// by the input text.
#[verifier::external_body]
fn parse_scheme(input: &str) -> (parsed: Result<String, url::ParseError>)
    ensures
        found_scheme(parsed) == url_scheme(input@),
{
    match url::Url::parse(input) {
        Ok(url) => Ok(url.scheme().to_string()),
        Err(error) => Err(error),
    }
}

/// The endpoint for callers that have no preference.
pub const DEFAULT_ENDPOINT: &'static str = "ws://localhost:5555/";

/// Why an endpoint was turned down.
#[derive(Clone, Copy, Debug, PartialEq, Eq, Structural)]
pub enum ConfigError {
    /// The endpoint is not an absolute URL.
    InvalidUrl,
    /// The endpoint is a URL, but its scheme is not `ws`.
    WrongScheme,
    /// The endpoint is a `ws` URL, but no handshake request can be
    /// addressed to it.
    InvalidTarget,
}

/// The mathematical content of a [`Config`].
pub struct ConfigView {
    pub endpoint: Seq<char>,
    pub script_path: Seq<char>,
    pub watch_dirs: Seq<Seq<char>>,
    pub watch_enabled: bool,
}

/// What validation makes of an endpoint, given the scheme that was found
/// in it, if it is a URL at all, and whether a handshake request can be
/// addressed to it. It must be a URL, its scheme must be `ws`, and it must
/// be addressable; the first of these that fails names the error.
pub open spec fn verdict_on(scheme: Option<Seq<char>>, reachable: bool) -> Result<
    (),
    ConfigError,
> {
    match scheme {
        None => Err(ConfigError::InvalidUrl),
        Some(found) => if found != "ws"@ {
            Err(ConfigError::WrongScheme)
        } else if !reachable {
            Err(ConfigError::InvalidTarget)
        } else {
            Ok(())
        },
    }
}

/// What validation makes of an endpoint text.
pub open spec fn endpoint_verdict(endpoint: Seq<char>) -> Result<(), ConfigError> {
    verdict_on(url_scheme(endpoint), addressable(endpoint))
}

/// The scheme of a parse result, as the verdict wants it.
pub open spec fn found_scheme(parsed: Result<String, url::ParseError>) -> Option<Seq<char>> {
    match parsed {
        Ok(scheme) => Some(scheme@),
        Err(_) => None,
    }
}

/// Judges an endpoint from the outcome of parsing it and from whether a
/// handshake request can be addressed to it: a refusal to parse is an
/// invalid URL, any scheme but `ws` is the wrong one, and a `ws` URL that
/// cannot be addressed is an invalid target.
pub fn judge_endpoint(parsed: Result<String, url::ParseError>, reachable: bool) -> (verdict:
    Result<(), ConfigError>)
    ensures
        verdict == verdict_on(found_scheme(parsed), reachable),
{
    match parsed {
        Err(_) => Err(ConfigError::InvalidUrl),
        Ok(scheme) => {
            let wanted = String::from_str("ws");
            if scheme != wanted {
                Err(ConfigError::WrongScheme)
            } else if !reachable {
                Err(ConfigError::InvalidTarget)
            } else {
                Ok(())
            }
        },
    }
}

impl ConfigError {
    /// A line that says what was wrong with the endpoint.
    pub fn describe(&self) -> (line: String)
        ensures
            line@ == match *self {
                ConfigError::InvalidUrl => "Invalid endpoint url syntax"@,
                ConfigError::WrongScheme => "Endpoint url must have ws:// scheme"@,
                ConfigError::InvalidTarget => "Endpoint url cannot be the target of a request"@,
            },
    {
        match self {
            ConfigError::InvalidUrl => String::from_str("Invalid endpoint url syntax"),
            ConfigError::WrongScheme => String::from_str("Endpoint url must have ws:// scheme"),
            ConfigError::InvalidTarget => String::from_str(
                "Endpoint url cannot be the target of a request",
            ),
        }
    }
}

/// A validated configuration.
#[derive(Debug)]
pub struct Config {
    endpoint: String,
    script_path: String,
    watch_dirs: Vec<String>,
    watch_enabled: bool,
}

impl View for Config {
    type V = ConfigView;

    closed spec fn view(&self) -> ConfigView {
        ConfigView {
            endpoint: self.endpoint@,
            script_path: self.script_path@,
            watch_dirs: self.watch_dirs.deep_view(),
            watch_enabled: self.watch_enabled,
        }
    }
}

impl Config {
    #[verifier::type_invariant]
    spec fn endpoint_passed(self) -> bool {
        endpoint_verdict(self.endpoint@) is Ok
    }

    /// Validates the endpoint and, if it passes, keeps the four settings as
    /// they were given. The endpoint must parse as a URL with scheme `ws`
    /// to which a handshake request can be addressed; otherwise the error
    /// names the first of these that failed.
    pub fn validate(endpoint: &str, watch: bool, script: &str, dirs: Vec<String>) -> (checked:
        Result<Config, ConfigError>)
        ensures
            match checked {
                Ok(config) => {
                    &&& endpoint_verdict(endpoint@) is Ok
                    &&& config@ == ConfigView {
                        endpoint: endpoint@,
                        script_path: script@,
                        watch_dirs: dirs.deep_view(),
                        watch_enabled: watch,
                    }
                },
                Err(error) => endpoint_verdict(endpoint@) == Err::<(), ConfigError>(error),
            },
            url_scheme(endpoint@) != Some("ws"@) ==> checked is Err,
    {
        let parsed = parse_scheme(endpoint);
        let reachable = can_address(endpoint);
        match judge_endpoint(parsed, reachable) {
            Err(error) => Err(error),
            Ok(_) => Ok(
                Config {
                    endpoint: String::from_str(endpoint),
                    script_path: String::from_str(script),
                    watch_dirs: dirs,
                    watch_enabled: watch,
                },
            ),
        }
    }

    /// The endpoint, as it was given.
    pub fn endpoint(&self) -> (endpoint: &String)
        ensures
            endpoint@ == self@.endpoint,
            endpoint_verdict(endpoint@) is Ok,
    {
        proof {
            use_type_invariant(self);
        }
        &self.endpoint
    }

    /// The path of the script, as it was given.
    pub fn script_path(&self) -> (path: &String)
        ensures
            path@ == self@.script_path,
    {
        &self.script_path
    }

    /// The directories to watch, in the order given.
    pub fn watch_dirs(&self) -> (dirs: &Vec<String>)
        ensures
            dirs.deep_view() == self@.watch_dirs,
    {
        &self.watch_dirs
    }

    /// Whether to watch for changes rather than run once.
    pub fn watch_enabled(&self) -> (watch: bool)
        ensures
            watch == self@.watch_enabled,
    {
        self.watch_enabled
    }

    /// Encodes the script-load command afresh from the configured endpoint
    /// and script path. For a validated configuration this always succeeds.
    pub fn command(&self) -> (ready: Encoded)
        ensures
            ready@ == encoded_for(self@.endpoint, self@.script_path),
    {
        proof {
            use_type_invariant(self);
        }
        let command = Command::load(self.script_path.as_str());
        match encode(self.endpoint.as_str(), &command) {
            Ok(ready) => ready,
            Err(_) => vstd::pervasive::unreached(),
        }
    }
}

/// Every endpoint that passes validation can be encoded for, with any
/// script path: a handshake request can be addressed to it, the handshake
/// goes to the endpoint and declares the bus protocol, and the frame is the
/// load statement for the script, a line feed and a NUL.
pub proof fn lemma_valid_pairs_encode(endpoint: Seq<char>, script_path: Seq<char>)
    requires
        endpoint_verdict(endpoint) is Ok,
    ensures
        url_scheme(endpoint) == Some("ws"@),
        addressable(endpoint),
        encoded_for(endpoint, script_path).handshake.uri == endpoint,
        encoded_for(endpoint, script_path).handshake.protocol == "bus.sp.nanomsg.org"@,
        encoded_for(endpoint, script_path).payload == "norns.script.load(\""@ + script_path
            + "\")\n\0"@,
{
}

} // verus!
