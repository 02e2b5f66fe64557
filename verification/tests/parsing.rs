use scalelm::ConfigError;
use scalelm::ConnectionConfig;
use scalelm::number::{IntErrorKind, parse_unsigned};
use scalelm::ollama::{OllamaConfig, OllamaConfigError};

fn std_kind(e: &std::num::ParseIntError) -> IntErrorKind {
    match e.kind() {
        std::num::IntErrorKind::Empty => IntErrorKind::Empty,
        std::num::IntErrorKind::InvalidDigit => IntErrorKind::InvalidDigit,
        std::num::IntErrorKind::PosOverflow => IntErrorKind::PosOverflow,
        other => panic!("unexpected kind {:?}", other),
    }
}

#[test]
fn port_parse_matches_std_u16() {
    let cases = [
        "5672", "+5672", "0", "00065535", "65535", "65536", "", "+", "-", "-1", "12a", "99999x",
        "a1", " 1", "1 ", "\u{ff11}", "++1", "+-1", "655350", "1_000",
    ];
    for case in cases {
        let ours = parse_unsigned(case, 65535);
        let std: Result<u64, IntErrorKind> = case.parse::<u16>().map(u64::from).map_err(|e| std_kind(&e));
        assert_eq!(ours, std, "case {:?}", case);
    }
}

#[test]
fn timeout_parse_matches_std_u64() {
    let cases = [
        "30", "18446744073709551615", "18446744073709551616", "184467440737095516150", "",
        "+", "x", "+7", "007",
    ];
    for case in cases {
        let ours = parse_unsigned(case, u64::MAX);
        let std: Result<u64, IntErrorKind> = case.parse::<u64>().map_err(|e| std_kind(&e));
        assert_eq!(ours, std, "case {:?}", case);
    }
}

#[test]
fn parse_error_kinds() {
    assert_eq!(parse_unsigned("", 10), Err(IntErrorKind::Empty));
    assert_eq!(parse_unsigned("+", 10), Err(IntErrorKind::InvalidDigit));
    assert_eq!(parse_unsigned("11", 10), Err(IntErrorKind::PosOverflow));
    assert_eq!(parse_unsigned("10", 10), Ok(10));
    assert_eq!(parse_unsigned("99x", 10), Err(IntErrorKind::PosOverflow));
    assert_eq!(parse_unsigned("9x9", 10), Err(IntErrorKind::InvalidDigit));
    assert_eq!(
        IntErrorKind::PosOverflow.description(),
        "number too large to fit in target type"
    );
}

fn some(s: &str) -> Option<String> {
    Some(s.to_string())
}

#[test]
fn connection_config_from_values() {
    let cfg = ConnectionConfig::from_values(
        some("rabbit"),
        some("5672"),
        some("guest"),
        some("secret"),
        some("jobs"),
    )
    .unwrap();
    assert_eq!(cfg.host, "rabbit");
    assert_eq!(cfg.port, 5672);
    assert_eq!(cfg.user, "guest");
    assert_eq!(cfg.pass, "secret");
    assert_eq!(cfg.jobs_queue_name, "jobs");
}

#[test]
fn connection_config_errors_in_order() {
    let all = || (some("h"), some("1"), some("u"), some("p"), some("j"));
    let (h, p, u, w, j) = all();
    assert_eq!(
        ConnectionConfig::from_values(None, None, None, None, None).unwrap_err(),
        ConfigError::MissingHost
    );
    assert_eq!(
        ConnectionConfig::from_values(h.clone(), None, u.clone(), w.clone(), j.clone()).unwrap_err(),
        ConfigError::MissingPort
    );
    // The port is read before the user: a bad port wins over a missing user.
    assert_eq!(
        ConnectionConfig::from_values(h.clone(), some("70000"), None, w.clone(), j.clone()).unwrap_err(),
        ConfigError::InvalidPort(IntErrorKind::PosOverflow)
    );
    assert_eq!(
        ConnectionConfig::from_values(h.clone(), p.clone(), None, w.clone(), j.clone()).unwrap_err(),
        ConfigError::MissingUser
    );
    assert_eq!(
        ConnectionConfig::from_values(h.clone(), p.clone(), u.clone(), None, j.clone()).unwrap_err(),
        ConfigError::MissingPassword
    );
    assert_eq!(
        ConnectionConfig::from_values(h, p, u, w, None).unwrap_err(),
        ConfigError::MissingJobsQueue
    );
}

#[test]
fn connection_config_messages() {
    assert_eq!(ConfigError::MissingHost.message(), "Error getting connection host");
    assert_eq!(ConfigError::MissingPort.message(), "Error getting connection port");
    assert_eq!(ConfigError::MissingUser.message(), "Error getting connection host");
    assert_eq!(ConfigError::MissingPassword.message(), "Error getting connection host");
    assert_eq!(ConfigError::MissingJobsQueue.message(), "Error getting jobs queue name");
    assert_eq!(
        ConfigError::InvalidPort(IntErrorKind::Empty).message(),
        "cannot parse integer from empty string"
    );
}

#[test]
fn ollama_config_from_values() {
    let cfg = OllamaConfig::from_values(some("http://ollama:11434"), some("llama3"), some("120")).unwrap();
    assert_eq!(cfg.host, "http://ollama:11434");
    assert_eq!(cfg.model, "llama3");
    assert_eq!(cfg.timeout_secs, 120);
    assert_eq!(
        OllamaConfig::from_values(None, some("m"), some("1")).unwrap_err(),
        OllamaConfigError::MissingHost
    );
    assert_eq!(
        OllamaConfig::from_values(some("h"), None, some("1")).unwrap_err(),
        OllamaConfigError::MissingModel
    );
    assert_eq!(
        OllamaConfig::from_values(some("h"), some("m"), None).unwrap_err(),
        OllamaConfigError::MissingTimeout
    );
    assert_eq!(
        OllamaConfig::from_values(some("h"), some("m"), some("ten")).unwrap_err(),
        OllamaConfigError::InvalidTimeout(IntErrorKind::InvalidDigit)
    );
    assert_eq!(OllamaConfigError::MissingHost.message(), "Error getting ollama host");
    assert_eq!(OllamaConfigError::MissingModel.message(), "Error getting ollama model");
    assert_eq!(OllamaConfigError::MissingTimeout.message(), "Error getting timeout");
}
