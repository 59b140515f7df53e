use viperserver::server::{
    announced_address, OnlineAt, ServerMode, StdoutScanner, ViperServer, ViperServerLogLevel,
};
use viperserver::ViperServerError;

#[test]
fn command_line_starts_java_with_the_archive() {
    let mut builder = ViperServer::builder();
    builder.log_file("test-viper.log").cache_file("test-viper.cache").log_level("ALL");
    let command = builder.spawn_http("viperserver.jar").unwrap();
    assert_eq!(
        command,
        vec![
            "java",
            "-Xss128m",
            "-Xmx4g",
            "-jar",
            "viperserver.jar",
            "--cacheFile",
            "test-viper.cache",
            "--logFile",
            "test-viper.log",
            "--logLevel",
            "ALL",
            "--serverMode",
            "HTTP"
        ]
    );
}

#[test]
fn lsp_mode_is_named_on_the_command_line() {
    let command = ViperServer::builder().spawn_lsp("/opt/viper/viperserver.jar").unwrap();
    assert_eq!(
        command,
        vec!["java", "-Xss128m", "-Xmx4g", "-jar", "/opt/viper/viperserver.jar", "--serverMode", "LSP"]
    );
}

#[test]
fn command_of_no_options() {
    let opts = ViperServer::builder().build().unwrap();
    assert_eq!(
        ViperServer::command("v.jar", &opts),
        vec!["java", "-Xss128m", "-Xmx4g", "-jar", "v.jar"]
    );
}

#[test]
fn a_process_that_started_has_a_supervisor() {
    let mut server = ViperServer::spawn("viperserver.jar", Ok(())).unwrap();
    assert!(matches!(server.latch(), OnlineAt::Waiting));
    assert!(server.take_stdout().is_empty());
    assert!(server.take_stderr().is_empty());
}

#[test]
fn a_process_that_did_not_start_has_none() {
    let err = ViperServer::spawn("missing.jar", Err("No such file or directory".to_string()))
        .unwrap_err();
    match &err {
        ViperServerError::SpawnServer { source, viper_server_jar } => {
            assert_eq!(source, "No such file or directory");
            assert_eq!(viper_server_jar, "missing.jar");
        }
        other => panic!("unexpected error: {other:?}"),
    }
    assert_eq!(err.to_string(), "failed to spawn server using `missing.jar`");
}

#[test]
fn the_address_follows_the_marker() {
    assert_eq!(
        announced_address("ViperServer", "ViperServer online at http://127.0.0.1:9999"),
        Some("http://127.0.0.1:9999".to_string())
    );
}

#[test]
fn the_address_is_trimmed() {
    assert_eq!(
        announced_address("ViperServer", "12:00 ViperServer online at \t http://localhost:8080/ \r"),
        Some("http://localhost:8080/".to_string())
    );
    assert_eq!(
        announced_address("ViperServer", "ViperServer online at \u{a0}\u{2003}x y\u{3000}\u{85}"),
        Some("x y".to_string())
    );
    assert_eq!(announced_address("ViperServer", "ViperServer online at "), Some(String::new()));
    assert_eq!(announced_address("ViperServer", "ViperServer online at    "), Some(String::new()));
}

#[test]
fn the_first_marker_counts() {
    assert_eq!(
        announced_address("ViperServer", "ViperServer online at a ViperServer online at b"),
        Some("a ViperServer online at b".to_string())
    );
}

#[test]
fn a_line_without_the_marker_announces_nothing() {
    assert_eq!(announced_address("ViperServer", ""), None);
    assert_eq!(announced_address("ViperServer", "ViperServer online at"), None);
    assert_eq!(announced_address("ViperServer", "viperserver online at http://127.0.0.1:9999"), None);
    assert_eq!(announced_address("ViperServer", "FooEngine online at http://127.0.0.1:9999"), None);
    assert_eq!(announced_address("FooEngine", "ViperServer online at http://127.0.0.1:9999"), None);
    assert_eq!(announced_address("ViperServer", "ViperServer  online at http://127.0.0.1:9999"), None);
}

#[test]
fn marker_after_text_that_is_not_ascii() {
    assert_eq!(
        announced_address("ViperServer", "héllo → ViperServer online at http://[::1]:1/ä "),
        Some("http://[::1]:1/ä".to_string())
    );
}

#[test]
fn foo_engine_online_at_resolves_to_its_address() {
    let mut scanner = StdoutScanner::for_product("FooEngine");
    let signal = scanner.on_line("FooEngine online at http://127.0.0.1:9999");
    assert_eq!(signal.as_deref(), Some("http://127.0.0.1:9999"));
    let mut server = ViperServer::spawn("engine.jar", Ok(())).unwrap();
    assert_eq!(server.online_at(signal).unwrap(), "http://127.0.0.1:9999");
    assert_eq!(server.online_at(None).unwrap(), "http://127.0.0.1:9999");
}

#[test]
fn the_scan_announces_once() {
    let mut scanner = StdoutScanner::new();
    assert_eq!(scanner.on_line("starting"), None);
    assert_eq!(
        scanner.on_line("ViperServer online at http://127.0.0.1:9999"),
        Some("http://127.0.0.1:9999".to_string())
    );
    assert_eq!(scanner.on_line("ViperServer online at http://127.0.0.1:1111"), None);
    assert_eq!(scanner.on_line("more"), None);
}

#[test]
fn online_at_resolves_to_the_announced_address() {
    let mut scanner = StdoutScanner::new();
    let signal = scanner.on_line("ViperServer online at http://127.0.0.1:9999");
    let mut server = ViperServer::spawn("viperserver.jar", Ok(())).unwrap();
    assert_eq!(server.online_at(signal).unwrap(), "http://127.0.0.1:9999");
}

#[test]
fn every_later_call_gets_the_same_address() {
    let mut server = ViperServer::spawn("viperserver.jar", Ok(())).unwrap();
    assert_eq!(server.online_at(Some("http://a/".to_string())).unwrap(), "http://a/");
    assert_eq!(server.online_at(None).unwrap(), "http://a/");
    assert_eq!(server.online_at(Some("http://b/".to_string())).unwrap(), "http://a/");
    assert!(matches!(server.latch(), OnlineAt::Got(address) if address == "http://a/"));
}

#[test]
fn a_server_that_ended_silently_did_not_report() {
    let mut server = ViperServer::spawn("viperserver.jar", Ok(())).unwrap();
    let err = server.online_at(None).unwrap_err();
    assert!(matches!(
        &err,
        ViperServerError::ServerDidNotReportPort { stdout, stderr }
            if stdout == "stdout:" && stderr == "stderr:"
    ));
    assert_eq!(err.to_string(), "server did not announce it's port");
    assert!(matches!(server.latch(), OnlineAt::Errored));
    let again = server.online_at(Some("http://late/".to_string())).unwrap_err();
    assert!(matches!(again, ViperServerError::ServerDidNotReportPort { .. }));
}

#[test]
fn the_failure_holds_every_captured_line() {
    let mut server = ViperServer::spawn("viperserver.jar", Ok(())).unwrap();
    server.capture_stdout("a".to_string());
    server.capture_stderr("c".to_string());
    server.capture_stdout("b".to_string());
    server.capture_stderr("d".to_string());
    match server.online_at(None).unwrap_err() {
        ViperServerError::ServerDidNotReportPort { stdout, stderr } => {
            assert_eq!(stdout, "stdout:\na\nb");
            assert_eq!(stderr, "stderr:\nc\nd");
        }
        other => panic!("unexpected error: {other:?}"),
    }
    server.capture_stderr("e".to_string());
    match server.online_at(None).unwrap_err() {
        ViperServerError::ServerDidNotReportPort { stdout, stderr } => {
            assert_eq!(stdout, "stdout:\na\nb");
            assert_eq!(stderr, "stderr:\nc\nd\ne");
        }
        other => panic!("unexpected error: {other:?}"),
    }
}

#[test]
fn captured_lines_are_taken_once_and_in_order() {
    let mut server = ViperServer::spawn("viperserver.jar", Ok(())).unwrap();
    server.capture_stdout("one".to_string());
    server.capture_stdout("two".to_string());
    server.capture_stderr("err".to_string());
    assert_eq!(server.take_stdout(), vec!["one", "two"]);
    assert!(server.take_stdout().is_empty());
    assert_eq!(server.take_stderr(), vec!["err"]);
    assert!(server.take_stderr().is_empty());
    assert!(matches!(server.latch(), OnlineAt::Waiting));
}

#[test]
fn levels_and_modes_by_name() {
    assert_eq!(ViperServerLogLevel::All.to_string(), "ALL");
    assert_eq!(ViperServerLogLevel::Trace.to_string(), "TRACE");
    assert_eq!(ViperServerLogLevel::Debug.to_string(), "DEBUG");
    assert_eq!(ViperServerLogLevel::Info.to_string(), "INFO");
    assert_eq!(ViperServerLogLevel::Warn.to_string(), "WARN");
    assert_eq!(ViperServerLogLevel::Error.to_string(), "ERROR");
    assert_eq!(ViperServerLogLevel::Off.to_string(), "OFF");
    assert_eq!(ServerMode::Lsp.to_string(), "LSP");
    assert_eq!(ServerMode::Http.to_string(), "HTTP");
    assert_eq!(ServerMode::default(), ServerMode::Http);
    assert!(ViperServerLogLevel::All < ViperServerLogLevel::Off);
}
