use maiden_run::config::{judge_endpoint, Config, ConfigError, DEFAULT_ENDPOINT};

fn dirs(names: &[&str]) -> Vec<String> {
    names.iter().map(|name| name.to_string()).collect()
}

#[test]
fn validate_keeps_the_settings() {
    let config = Config::validate(
        "ws://localhost:5555/",
        true,
        "/tmp/a.lua",
        dirs(&["/tmp/proj", "/tmp/lib"]),
    )
    .unwrap();
    assert_eq!(config.endpoint(), "ws://localhost:5555/");
    assert_eq!(config.script_path(), "/tmp/a.lua");
    assert_eq!(config.watch_dirs(), &dirs(&["/tmp/proj", "/tmp/lib"]));
    assert!(config.watch_enabled());
}

#[test]
fn default_endpoint_passes_validation() {
    assert_eq!(DEFAULT_ENDPOINT, "ws://localhost:5555/");
    let config = Config::validate(DEFAULT_ENDPOINT, false, "a.lua", Vec::new()).unwrap();
    assert_eq!(config.endpoint(), "ws://localhost:5555/");
}

#[test]
fn validate_accepts_no_directories() {
    let config = Config::validate("ws://localhost:5555/", false, "a.lua", Vec::new()).unwrap();
    assert!(config.watch_dirs().is_empty());
    assert!(!config.watch_enabled());
}

#[test]
fn validate_rejects_other_schemes() {
    for endpoint in [
        "http://localhost:5555/",
        "https://localhost:5555/",
        "wss://localhost:5555/",
        "tcp://localhost:5555",
        "file:///tmp/a.lua",
        "mailto:someone@example.org",
    ] {
        let refused = Config::validate(endpoint, false, "a.lua", Vec::new());
        assert_eq!(refused.err(), Some(ConfigError::WrongScheme));
    }
}

#[test]
fn validate_rejects_what_is_no_url() {
    for endpoint in ["", "localhost", "not a url", "//localhost:5555/", "ws://", "ws://[::1"] {
        let refused = Config::validate(endpoint, false, "a.lua", Vec::new());
        assert_eq!(refused.err(), Some(ConfigError::InvalidUrl));
    }
}

#[test]
fn validate_rejects_a_url_that_cannot_be_a_request_target() {
    let refused = Config::validate("ws://localhost:5555/a b", false, "a.lua", Vec::new());
    assert_eq!(refused.err(), Some(ConfigError::InvalidTarget));
}

#[test]
fn validate_takes_a_host_and_port_alone_for_a_scheme() {
    let refused = Config::validate("localhost:5555", false, "a.lua", Vec::new());
    assert_eq!(refused.err(), Some(ConfigError::WrongScheme));
}

#[test]
fn validate_reads_the_scheme_without_regard_to_case() {
    let config = Config::validate("WS://localhost:5555/", false, "a.lua", Vec::new()).unwrap();
    assert_eq!(config.endpoint(), "WS://localhost:5555/");
}

#[test]
fn validate_checks_the_scheme_before_the_target() {
    let refused = Config::validate("http://localhost:5555/a b", false, "a.lua", Vec::new());
    assert_eq!(refused.err(), Some(ConfigError::WrongScheme));
}

#[test]
fn judge_endpoint_on_each_outcome() {
    assert_eq!(judge_endpoint(Ok("ws".to_string()), true), Ok(()));
    assert_eq!(judge_endpoint(Ok("ws".to_string()), false), Err(ConfigError::InvalidTarget));
    for reachable in [true, false] {
        for scheme in ["wss", "WS", "w", "wsx", "http", ""] {
            assert_eq!(
                judge_endpoint(Ok(scheme.to_string()), reachable),
                Err(ConfigError::WrongScheme)
            );
        }
        assert_eq!(
            judge_endpoint(Err(url::ParseError::RelativeUrlWithoutBase), reachable),
            Err(ConfigError::InvalidUrl)
        );
        assert_eq!(
            judge_endpoint(Err(url::ParseError::EmptyHost), reachable),
            Err(ConfigError::InvalidUrl)
        );
    }
}

#[test]
fn describe_names_each_error() {
    assert_eq!(ConfigError::InvalidUrl.describe(), "Invalid endpoint url syntax");
    assert_eq!(ConfigError::WrongScheme.describe(), "Endpoint url must have ws:// scheme");
    assert_eq!(
        ConfigError::InvalidTarget.describe(),
        "Endpoint url cannot be the target of a request"
    );
}

#[test]
fn command_is_built_from_the_configuration() {
    let config =
        Config::validate("ws://localhost:5555/", false, "/tmp/a.lua", Vec::new()).unwrap();
    let ready = config.command();
    assert_eq!(ready.payload, "norns.script.load(\"/tmp/a.lua\")\n\0");
    assert_eq!(ready.handshake.uri, "ws://localhost:5555/");
    assert_eq!(ready.handshake.protocol, "bus.sp.nanomsg.org");
    assert_eq!(ready.request.uri().to_string(), "ws://localhost:5555/");
    let again = config.command();
    assert_eq!(again.payload, ready.payload);
}
