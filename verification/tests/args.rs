use cjdnstool::args::{CommonArgs, EndpointType, LogLevel};

fn args(
    verbose: u8,
    quiet: u8,
    address: Option<&str>,
    port: Option<u16>,
    pipe: Option<&str>,
    password: Option<&str>,
) -> CommonArgs {
    CommonArgs {
        verbose,
        quiet,
        address: address.map(|s| s.to_string()),
        port,
        pipe: pipe.map(|s| s.to_string()),
        password: password.map(|s| s.to_string()),
        cjdnsadmin: Some("/home/u/.cjdnsadmin".to_string()),
    }
}

#[test]
fn anon_with_address_uses_udp() {
    let o = args(0, 0, Some("127.0.0.1"), None, None, Some("secret")).as_anon();
    assert_eq!(o.typ, Some(EndpointType::Udp));
    assert_eq!(o.addr.as_deref(), Some("127.0.0.1"));
    assert_eq!(o.port, None);
    assert_eq!(o.path, None);
    assert_eq!(o.password, None);
    assert_eq!(o.config_file_path.as_deref(), Some("/home/u/.cjdnsadmin"));
    assert!(o.anon);
}

#[test]
fn anon_with_port_only_uses_udp() {
    let o = args(0, 0, None, Some(11234), Some("/run/cjdroute.sock"), None).as_anon();
    assert_eq!(o.typ, Some(EndpointType::Udp));
    assert_eq!(o.port, Some(11234));
    assert_eq!(o.path.as_deref(), Some("/run/cjdroute.sock"));
}

#[test]
fn anon_with_pipe_only_uses_pipe() {
    let o = args(0, 0, None, None, Some("/run/cjdroute.sock"), None).as_anon();
    assert_eq!(o.typ, Some(EndpointType::Pipe));
    assert_eq!(o.path.as_deref(), Some("/run/cjdroute.sock"));
}

#[test]
fn anon_with_hyphen_pipe_asks_for_default_path() {
    let o = args(0, 0, None, None, Some("-"), None).as_anon();
    assert_eq!(o.typ, Some(EndpointType::Pipe));
    assert_eq!(o.path, None);
}

#[test]
fn anon_with_two_hyphens_keeps_path() {
    let o = args(0, 0, None, None, Some("--"), None).as_anon();
    assert_eq!(o.path.as_deref(), Some("--"));
}

#[test]
fn anon_without_endpoint_leaves_it_to_config() {
    let o = args(0, 0, None, None, None, None).as_anon();
    assert_eq!(o.typ, None);
    assert!(o.anon);
}

#[test]
fn auth_uses_given_password() {
    let o = args(0, 0, Some("::1"), Some(11234), None, Some("hunter2")).with_auth();
    assert_eq!(o.password.as_deref(), Some("hunter2"));
    assert!(!o.anon);
    assert_eq!(o.typ, Some(EndpointType::Udp));
    assert_eq!(o.addr.as_deref(), Some("::1"));
    assert_eq!(o.port, Some(11234));
}

#[test]
fn auth_without_password_uses_none_text() {
    let o = args(0, 0, None, None, Some("-"), None).with_auth();
    assert_eq!(o.password.as_deref(), Some("NONE"));
    assert!(!o.anon);
    assert_eq!(o.typ, Some(EndpointType::Pipe));
    assert_eq!(o.path, None);
}

#[test]
fn auth_agrees_with_anon_apart_from_credentials() {
    let a = args(0, 0, None, Some(5), Some("/p"), Some("pw")).as_anon();
    let b = args(0, 0, None, Some(5), Some("/p"), Some("pw")).with_auth();
    assert_eq!(a.typ, b.typ);
    assert_eq!(a.addr, b.addr);
    assert_eq!(a.port, b.port);
    assert_eq!(a.path, b.path);
    assert_eq!(a.config_file_path, b.config_file_path);
    assert_eq!(a.password, None);
    assert_eq!(b.password.as_deref(), Some("pw"));
}

#[test]
fn log_level_follows_verbose_and_quiet_counts() {
    assert_eq!(args(0, 0, None, None, None, None).log_level(), None);
    assert_eq!(args(1, 0, None, None, None, None).log_level(), Some(LogLevel::Info));
    assert_eq!(args(2, 0, None, None, None, None).log_level(), Some(LogLevel::Debug));
    assert_eq!(args(3, 0, None, None, None, None).log_level(), Some(LogLevel::Trace));
    assert_eq!(args(255, 0, None, None, None, None).log_level(), Some(LogLevel::Trace));
    assert_eq!(args(0, 1, None, None, None, None).log_level(), Some(LogLevel::Error));
    assert_eq!(args(0, 2, None, None, None, None).log_level(), Some(LogLevel::Off));
    assert_eq!(args(0, 9, None, None, None, None).log_level(), Some(LogLevel::Off));
}

#[test]
fn verbose_overrides_quiet() {
    assert_eq!(args(1, 5, None, None, None, None).log_level(), Some(LogLevel::Info));
    assert_eq!(args(2, 1, None, None, None, None).log_level(), Some(LogLevel::Debug));
}

#[test]
fn logger_config_names_environment_and_level() {
    let c = args(2, 0, None, None, None, None).logger_config();
    assert_eq!(c.filter_var, "CJDNS_LOG");
    assert_eq!(c.default_filter, "warn");
    assert_eq!(c.style_var, "CJDNS_LOG_STYLE");
    assert_eq!(c.level, Some(LogLevel::Debug));
    assert_eq!(args(0, 0, None, None, None, None).logger_config().level, None);
}
