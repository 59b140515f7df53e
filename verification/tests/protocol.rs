use viperserver::client::{Client, Posting, StatusStream, VerificationResponse, ViperRequest};
use viperserver::opts::{
    CarbonOptsBuilderError, SiliconOptsBuilderError, ViperServerOptsBuilderError,
};
use viperserver::server::ViperServer;
use viperserver::verification::{DecodeError, VerificationStatus};
use viperserver::{VerificationRequest, ViperServerError};

fn connected(address: &str) -> Client {
    let server = ViperServer::spawn("viperserver.jar", Ok(())).unwrap();
    Client::new(server, Some(address.to_string())).unwrap()
}

#[test]
fn a_client_attaches_to_the_announced_address() {
    let client = connected("http://127.0.0.1:9999");
    assert_eq!(client.base(), "http://127.0.0.1:9999/");
}

#[test]
fn an_address_that_is_no_url_is_refused() {
    let server = ViperServer::spawn("viperserver.jar", Ok(())).unwrap();
    let err = Client::new(server, Some("127.0.0.1:9999 is where".to_string())).unwrap_err();
    let expected = url::Url::parse("127.0.0.1:9999 is where").unwrap_err();
    assert!(matches!(&err, ViperServerError::InvalidUrl { source } if *source == expected));
    assert_eq!(err.to_string(), "failed to parse url");
}

#[test]
fn a_silent_server_fails_with_what_it_wrote() {
    let mut server = ViperServer::spawn("viperserver.jar", Ok(())).unwrap();
    server.capture_stdout("Picked up JAVA_TOOL_OPTIONS".to_string());
    server.capture_stdout("starting".to_string());
    server.capture_stderr("Exception in thread main".to_string());
    server.capture_stderr("\tat Main.scala:1".to_string());
    let err = Client::new(server, None).unwrap_err();
    assert_eq!(err.to_string(), "failed to connect to server");
    match err {
        ViperServerError::ConnectToServerFailed { stdout, stderr, source } => {
            assert_eq!(stdout, "stdout:\nPicked up JAVA_TOOL_OPTIONS\nstarting");
            assert_eq!(stderr, "stderr:\nException in thread main\n\tat Main.scala:1");
            match *source {
                ViperServerError::ServerDidNotReportPort { stdout: first, stderr: second } => {
                    assert_eq!(first, stdout);
                    assert_eq!(second, stderr);
                }
                other => panic!("unexpected cause: {other:?}"),
            }
        }
        other => panic!("unexpected error: {other:?}"),
    }
}

#[test]
fn each_text_holds_the_lines_of_its_own_output() {
    let mut server = ViperServer::spawn("viperserver.jar", Ok(())).unwrap();
    for line in ["a", "b"] {
        server.capture_stdout(line.to_string());
    }
    for line in ["c", "d"] {
        server.capture_stderr(line.to_string());
    }
    match Client::new(server, None).unwrap_err() {
        ViperServerError::ConnectToServerFailed { stdout, stderr, .. } => {
            assert_eq!(stdout, "stdout:\na\nb");
            assert_eq!(stderr, "stderr:\nc\nd");
        }
        other => panic!("unexpected error: {other:?}"),
    }
}

#[test]
fn a_failure_with_nothing_captured() {
    let server = ViperServer::spawn("viperserver.jar", Ok(())).unwrap();
    match Client::new(server, None).unwrap_err() {
        ViperServerError::ConnectToServerFailed { stdout, stderr, .. } => {
            assert_eq!(stdout, "stdout:");
            assert_eq!(stderr, "stderr:");
        }
        other => panic!("unexpected error: {other:?}"),
    }
}

#[test]
fn the_path_of_z3_is_what_the_search_wrote() {
    let mut builder = VerificationRequest::silicon();
    builder.timeout("5");
    builder.detected_z3(Ok(b"/usr/bin/z3\n".to_vec())).unwrap().disable_caches(true);
    let opts = builder.build().unwrap();
    assert_eq!(opts.z3_exe.as_deref(), Some("/usr/bin/z3\n"));
    assert_eq!(opts.timeout.as_deref(), Some("5"));
    assert_eq!(opts.disable_caches, Some(true));
    let mut builder = VerificationRequest::carbon();
    builder.detected_z3(Ok("/opt/zä/z3".as_bytes().to_vec())).unwrap();
    assert_eq!(builder.build().unwrap().z3_exe.as_deref(), Some("/opt/zä/z3"));
    let mut builder = VerificationRequest::carbon();
    builder.detected_z3(Ok(Vec::new())).unwrap();
    assert_eq!(builder.build().unwrap().z3_exe.as_deref(), Some(""));
}

#[test]
fn a_failed_search_for_z3_sets_nothing() {
    let mut builder = VerificationRequest::silicon();
    builder.z3_exe("before");
    let err = builder.detected_z3(Err("which: not found".to_string())).unwrap_err();
    assert!(matches!(&err, ViperServerError::Io { source } if source == "which: not found"));
    let err = builder.detected_z3(Ok(vec![b'z', 0xff, b'3'])).unwrap_err();
    assert!(matches!(err, ViperServerError::InvalidUtf8 { .. }));
    assert_eq!(err.to_string(), "invalid utf-8");
    let err = builder.detected_z3(Ok(vec![0xed, 0xa0, 0x80])).unwrap_err();
    assert!(matches!(err, ViperServerError::InvalidUtf8 { .. }));
    assert_eq!(builder.build().unwrap().z3_exe.as_deref(), Some("before"));
    let mut builder = VerificationRequest::carbon();
    assert!(builder.detected_z3(Err("no".to_string())).is_err());
    assert!(builder.detected_z3(Ok(vec![0xc0, 0x80])).is_err());
    assert_eq!(builder.build().unwrap().z3_exe, None);
}

#[test]
fn the_request_names_backend_options_and_file() {
    let request = VerificationRequest::silicon().timeout("10").verify_file("hello.vpr").unwrap();
    assert_eq!(request.command(), "silicon --timeout 10  \"hello.vpr\"");
    assert_eq!(request.ty(), "verify");
    assert_eq!(request.url(), "verify");
    let request = VerificationRequest::carbon().verify_file("dir/a \"b\".vpr").unwrap();
    assert_eq!(request.command(), "carbon  \"dir/a \\\"b\\\".vpr\"");
    match &request {
        VerificationRequest::Carbon { file, .. } => assert_eq!(file, "dir/a \"b\".vpr"),
        other => panic!("unexpected request: {other:?}"),
    }
}

#[test]
fn what_is_posted_states_type_and_command() {
    let client = connected("http://127.0.0.1:9999");
    let request = VerificationRequest::silicon()
        .z3_exe("/usr/bin/z3")
        .disable_caches(true)
        .verify_file("/tmp/fib rec.vpr")
        .unwrap();
    let command = request.command();
    let Posting { url, body } = client.post(request).unwrap();
    assert_eq!(url, "http://127.0.0.1:9999/verify");
    let document: serde_json::Value = serde_json::from_str(&body).unwrap();
    let object = document.as_object().unwrap();
    assert_eq!(object.len(), 2);
    assert_eq!(object["type"], "verify");
    assert_eq!(object["arg"], "silicon --disableCaches --z3Exe /usr/bin/z3  \"/tmp/fib rec.vpr\"");
    assert_eq!(object["arg"], command.as_str());
}

#[test]
fn the_answer_to_a_request_is_a_job() {
    let job = Client::posted::<VerificationRequest>(r#"{"ast_id": 3, "id": 7}"#).unwrap();
    assert_eq!(job, VerificationResponse { ast_id: 3, id: 7 });
    assert_eq!(job.id, 7);
    let client = connected("http://127.0.0.1:9999");
    assert_eq!(client.check_on_verification(&job).unwrap(), "http://127.0.0.1:9999/verify/7");
}

#[test]
fn the_stream_of_a_job_is_under_its_number() {
    let client = connected("http://localhost:8080/");
    for (id, path) in [
        (0, "verify/0"),
        (9, "verify/9"),
        (10, "verify/10"),
        (1234567890, "verify/1234567890"),
        (u64::MAX, "verify/18446744073709551615"),
    ] {
        let job = VerificationResponse { ast_id: 0, id };
        assert_eq!(
            client.check_on_verification(&job).unwrap(),
            format!("http://localhost:8080/{path}")
        );
    }
}

#[test]
fn an_answer_that_is_no_job_is_handed_back() {
    for answer in ["", "<html>busy</html>", r#"{"ast_id": 3}"#, r#"{"ast_id": 3, "id": -1}"#] {
        let err = Client::posted::<VerificationRequest>(answer).unwrap_err();
        match &err {
            ViperServerError::ParseJson { json, .. } => assert_eq!(json, answer),
            other => panic!("unexpected error: {other:?}"),
        }
    }
    let err = Client::posted::<VerificationRequest>(r#"{"ast_id": 3}"#).unwrap_err();
    assert!(matches!(
        &err,
        ViperServerError::ParseJson { source: DecodeError::Missing { field }, .. } if field == "id"
    ));
    assert_eq!(err.to_string(), "failed to parse json: \"{\\\"ast_id\\\": 3}\"");
    let err = Client::posted::<VerificationRequest>(r#"{"ast_id": "3", "id": 7}"#).unwrap_err();
    assert!(matches!(
        &err,
        ViperServerError::ParseJson { source: DecodeError::Mismatch { field }, .. } if field == "ast_id"
    ));
    assert!(matches!(
        Client::posted::<VerificationRequest>("nope").unwrap_err(),
        ViperServerError::ParseJson { source: DecodeError::Syntax(_), .. }
    ));
}

#[test]
fn a_bad_line_fails_alone() {
    let lines = [
        r#"{"msg_type":"copyright_report","msg_body":{"text":"a"}}"#,
        r#"{"msg_type":"copyright_report","msg_body":"#,
        r#"{"msg_type":"copyright_report","msg_body":{"text":"b"}}"#,
    ];
    let decoded: Vec<_> = lines.iter().map(|line| Client::status(line)).collect();
    assert_eq!(
        *decoded[0].as_ref().unwrap(),
        VerificationStatus::CopyrightReport { text: "a".to_string() }
    );
    match decoded[1].as_ref().unwrap_err() {
        ViperServerError::ParseJson { json, source } => {
            assert_eq!(json, lines[1]);
            assert!(matches!(source, DecodeError::Syntax(_)));
        }
        other => panic!("unexpected error: {other:?}"),
    }
    assert_eq!(
        *decoded[2].as_ref().unwrap(),
        VerificationStatus::CopyrightReport { text: "b".to_string() }
    );
}

#[test]
fn an_address_that_takes_no_path_is_refused_later() {
    let client = connected("mailto:viper@localhost");
    assert_eq!(client.base(), "mailto:viper@localhost");
    let request = VerificationRequest::carbon().verify_file("a.vpr").unwrap();
    assert!(matches!(
        client.post(request).unwrap_err(),
        ViperServerError::InvalidUrl { source: url::ParseError::RelativeUrlWithCannotBeABaseBase }
    ));
    let job = VerificationResponse { ast_id: 1, id: 2 };
    assert!(matches!(
        client.check_on_verification(&job).unwrap_err(),
        ViperServerError::InvalidUrl { .. }
    ));
}

#[test]
fn paths_are_read_at_the_address() {
    let client = connected("http://localhost:8080/viper/api");
    let job = VerificationResponse { ast_id: 1, id: 2 };
    assert_eq!(client.check_on_verification(&job).unwrap(), "http://localhost:8080/viper/verify/2");
    let client = connected("http://localhost:8080/viper/");
    assert_eq!(
        client.check_on_verification(&job).unwrap(),
        "http://localhost:8080/viper/verify/2"
    );
}

#[test]
fn errors_in_words() {
    assert_eq!(
        ViperServerError::BuildServer(ViperServerOptsBuilderError::UninitializedField(
            "port".to_string()
        ))
        .to_string(),
        "building server from options"
    );
    assert_eq!(
        ViperServerError::SiliconOpts(SiliconOptsBuilderError::ValidationError("x".to_string()))
            .to_string(),
        "building silicon from options"
    );
    assert_eq!(
        ViperServerError::CarbonOpts(CarbonOptsBuilderError::ValidationError("x".to_string()))
            .to_string(),
        "building carbon from options"
    );
    assert_eq!(ViperServerError::Io { source: "x".to_string() }.to_string(), "io error");
    assert_eq!(ViperServerError::Network { source: "x".to_string() }.to_string(), "network error");
}

#[test]
fn the_stream_ends_with_the_connection() {
    let mut stream = StatusStream::new();
    let first = stream
        .on_read(Some(r#"{"msg_type":"copyright_report","msg_body":{"text":"a"}}"#))
        .unwrap()
        .unwrap();
    assert_eq!(first, VerificationStatus::CopyrightReport { text: "a".to_string() });
    let second = stream.on_read(Some("{")).unwrap().unwrap_err();
    assert!(matches!(second, ViperServerError::ParseJson { json, .. } if json == "{"));
    let third = stream
        .on_read(Some(r#"{"msg_type":"statistics","msg_body":{"domains":0,"fields":0,"functions":1,"methods":1,"predicates":0}}"#))
        .unwrap()
        .unwrap();
    assert!(matches!(third, VerificationStatus::Statistics { functions: 1, .. }));
    assert!(stream.on_read(None).is_none());
    assert!(stream.on_read(None).is_none());
    assert!(stream
        .on_read(Some(r#"{"msg_type":"copyright_report","msg_body":{"text":"late"}}"#))
        .is_none());
}

#[test]
fn a_stream_that_is_closed_at_once_yields_nothing() {
    let mut stream = StatusStream::new();
    assert!(stream.on_read(None).is_none());
    assert!(stream.on_read(Some("{}")).is_none());
}
