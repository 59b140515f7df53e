use viperserver::verification::{
    decode_line, decode_status, Backend, DecodeError, OptionalPosition, Position,
    VerificationStatus,
};

fn position(start: &str, end: &str, file: &str) -> Position {
    Position { end: end.to_string(), file: file.to_string(), start: start.to_string() }
}

#[test]
fn exception_report_with_empty_stacktrace() {
    let status = decode_line(
        r#"{"msg_type":"exception_report","msg_body":{"message":"x","stacktrace":[]}}"#,
    )
    .unwrap();
    assert_eq!(
        status,
        VerificationStatus::ExceptionReport { message: "x".to_string(), stacktrace: vec![] }
    );
}

#[test]
fn exception_report_keeps_the_stacktrace_in_order() {
    let status = decode_line(
        r#"{"msg_body":{"stacktrace":["a.scala:1","b.scala:2"],"message":"boom"},"msg_type":"exception_report"}"#,
    )
    .unwrap();
    assert_eq!(
        status,
        VerificationStatus::ExceptionReport {
            message: "boom".to_string(),
            stacktrace: vec!["a.scala:1".to_string(), "b.scala:2".to_string()],
        }
    );
}

#[test]
fn a_stacktrace_entry_that_is_no_string_is_refused() {
    let err = decode_line(
        r#"{"msg_type":"exception_report","msg_body":{"message":"x","stacktrace":["a",1]}}"#,
    )
    .unwrap_err();
    assert!(matches!(err, DecodeError::Mismatch { field } if field == "stacktrace"));
}

fn invalid_args_with_position(position: &str) -> String {
    format!(
        r#"{{"msg_type":"invalid_args_report","msg_body":{{"tool":"silicon","errors":[{{"cached":false,"position":{position},"tag":"t","text":"msg"}}]}}}}"#
    )
}

#[test]
fn no_position_decodes_to_the_absent_position() {
    for sentinel in [r#""<no position>""#, r#""<undefined>""#] {
        let status = decode_line(&invalid_args_with_position(sentinel)).unwrap();
        match status {
            VerificationStatus::InvalidArgsReport { tool, errors } => {
                assert_eq!(tool, "silicon");
                assert_eq!(errors.len(), 1);
                assert_eq!(errors[0].position, OptionalPosition::Absent);
                assert_eq!(errors[0].position.inner(), None);
                assert!(!errors[0].cached);
                assert_eq!(errors[0].tag, "t");
                assert_eq!(errors[0].text, "msg");
            }
            other => panic!("unexpected message: {other:?}"),
        }
    }
}

#[test]
fn any_other_text_is_no_position() {
    let err = decode_line(&invalid_args_with_position(r#""<foo>""#)).unwrap_err();
    match err {
        DecodeError::Position(e) => {
            assert_eq!(e.found, "<foo>");
            assert_eq!(
                e.to_string(),
                "expected \"<no position>\" or \"<undefined>\" found \"<foo>\""
            );
        }
        other => panic!("unexpected error: {other:?}"),
    }
    let err = decode_line(&invalid_args_with_position(r#""""#)).unwrap_err();
    assert!(matches!(err, DecodeError::Position(e) if e.found.is_empty()));
    let err = decode_line(&invalid_args_with_position(r#""<No Position>""#)).unwrap_err();
    assert!(matches!(err, DecodeError::Position(_)));
}

#[test]
fn a_structured_position_is_kept() {
    let status = decode_line(&invalid_args_with_position(
        r#"{"start":"3:1","end":"3:9","file":"a.vpr"}"#,
    ))
    .unwrap();
    match status {
        VerificationStatus::InvalidArgsReport { errors, .. } => {
            let expected = position("3:1", "3:9", "a.vpr");
            assert_eq!(errors[0].position, OptionalPosition::Given(expected.clone()));
            assert_eq!(errors[0].position.inner(), Some(&expected));
        }
        other => panic!("unexpected message: {other:?}"),
    }
}

#[test]
fn a_position_that_is_neither_text_nor_object_is_refused() {
    let err = decode_line(&invalid_args_with_position("7")).unwrap_err();
    assert!(matches!(err, DecodeError::Missing { field } if field == "end"));
    let err =
        decode_line(&invalid_args_with_position(r#"{"start":"1","end":2,"file":"f"}"#)).unwrap_err();
    assert!(matches!(err, DecodeError::Mismatch { field } if field == "end"));
}

#[test]
fn from_str_reads_the_two_sentinels() {
    assert_eq!(OptionalPosition::from_str("<no position>").unwrap(), OptionalPosition::Absent);
    assert_eq!(OptionalPosition::from_str("<undefined>").unwrap(), OptionalPosition::Absent);
    assert_eq!(OptionalPosition::from_str("<foo>").unwrap_err().found, "<foo>");
    assert_eq!(OptionalPosition::from_str(" <undefined>").unwrap_err().found, " <undefined>");
}

#[test]
fn messages_that_are_one_text() {
    assert_eq!(
        decode_line(r#"{"msg_type":"copyright_report","msg_body":{"text":"(c) ETH"}}"#).unwrap(),
        VerificationStatus::CopyrightReport { text: "(c) ETH".to_string() }
    );
    assert_eq!(
        decode_line(r#"{"msg_type":"internal_warning_message","msg_body":{"text":"w"}}"#).unwrap(),
        VerificationStatus::InternalWarningMessage { text: "w".to_string() }
    );
    assert_eq!(
        decode_line(r#"{"msg_type":"configuration_confirmation","msg_body":{"text":"ok","more":1}}"#)
            .unwrap(),
        VerificationStatus::ConfigurationConfirmation { text: "ok".to_string() }
    );
}

#[test]
fn warnings_are_kept_as_they_are() {
    let status =
        decode_line(r#"{"msg_type":"warnings_during_parsing","msg_body":[{"a":1},"w",null]}"#)
            .unwrap();
    let expected: Vec<serde_json::Value> = vec![
        serde_json::from_str(r#"{"a":1}"#).unwrap(),
        serde_json::Value::String("w".to_string()),
        serde_json::Value::Null,
    ];
    assert_eq!(status, VerificationStatus::WarningsDuringParsing(expected));
    assert_eq!(
        decode_line(r#"{"msg_type":"warnings_during_typechecking","msg_body":[]}"#).unwrap(),
        VerificationStatus::WarningsDuringTypechecking(vec![])
    );
    let err =
        decode_line(r#"{"msg_type":"warnings_during_parsing","msg_body":{"a":1}}"#).unwrap_err();
    assert!(matches!(err, DecodeError::Mismatch { field } if field == "msg_body"));
}

#[test]
fn statistics_are_five_counts() {
    let status = decode_line(
        r#"{"msg_type":"statistics","msg_body":{"domains":1,"fields":2,"functions":3,"methods":-4,"predicates":9223372036854775807}}"#,
    )
    .unwrap();
    assert_eq!(
        status,
        VerificationStatus::Statistics {
            domains: 1,
            fields: 2,
            functions: 3,
            methods: -4,
            predicates: i64::MAX,
        }
    );
}

#[test]
fn a_count_has_to_be_an_integer_that_fits() {
    let line = |value: &str| {
        format!(
            r#"{{"msg_type":"statistics","msg_body":{{"domains":{value},"fields":2,"functions":3,"methods":4,"predicates":5}}}}"#
        )
    };
    for value in ["1.5", "9223372036854775808", "\"1\"", "null", "1e3"] {
        let err = decode_line(&line(value)).unwrap_err();
        assert!(matches!(err, DecodeError::Mismatch { field } if field == "domains"), "{value}");
    }
    let err = decode_line(
        r#"{"msg_type":"statistics","msg_body":{"domains":1,"fields":2,"methods":4,"predicates":5}}"#,
    )
    .unwrap_err();
    assert!(matches!(err, DecodeError::Missing { field } if field == "functions"));
}

#[test]
fn program_outline_lists_its_members() {
    let status = decode_line(
        r#"{"msg_type":"program_outline","msg_body":{"members":[{"name":"fib","position":{"start":"1:1","end":"5:2","file":"f.vpr"},"type":"function"},{"name":"m","position":{"start":"7:1","end":"9:2","file":"f.vpr"},"type":"method"}]}}"#,
    )
    .unwrap();
    match status {
        VerificationStatus::ProgramOutline { members } => {
            assert_eq!(members.len(), 2);
            assert_eq!(members[0].name, "fib");
            assert_eq!(members[0].member_type, "function");
            assert_eq!(
                members[0].position,
                OptionalPosition::Given(position("1:1", "5:2", "f.vpr"))
            );
            assert_eq!(members[1].name, "m");
            assert_eq!(members[1].member_type, "method");
        }
        other => panic!("unexpected message: {other:?}"),
    }
}

#[test]
fn the_first_member_that_does_not_decode_decides() {
    let err = decode_line(
        r#"{"msg_type":"program_outline","msg_body":{"members":[{"name":"a","position":{"start":"1","end":"2","file":"f"},"type":"t"},{"name":"b","type":"t"},{"position":1}]}}"#,
    )
    .unwrap_err();
    assert!(matches!(err, DecodeError::Missing { field } if field == "position"));
    let err = decode_line(
        r#"{"msg_type":"program_outline","msg_body":{"members":[{"position":"<nowhere>","type":"t"}]}}"#,
    )
    .unwrap_err();
    assert!(matches!(err, DecodeError::Missing { field } if field == "name"));
    let err = decode_line(
        r#"{"msg_type":"program_outline","msg_body":{"members":[{"name":"a","position":"<nowhere>","type":"t"}]}}"#,
    )
    .unwrap_err();
    assert!(matches!(err, DecodeError::Position(e) if e.found == "<nowhere>"));
}

#[test]
fn an_outline_member_may_have_no_position() {
    let status = decode_line(
        r#"{"msg_type":"program_outline","msg_body":{"members":[{"name":"m","position":"<no position>","type":"method"}]}}"#,
    )
    .unwrap();
    match status {
        VerificationStatus::ProgramOutline { members } => {
            assert_eq!(members.len(), 1);
            assert_eq!(members[0].name, "m");
            assert_eq!(members[0].member_type, "method");
            assert_eq!(members[0].position, OptionalPosition::Absent);
        }
        other => panic!("unexpected message: {other:?}"),
    }
}

#[test]
fn an_entity_may_have_no_position() {
    for sentinel in ["<no position>", "<undefined>"] {
        let line = format!(
            r#"{{"msg_type":"ast_construction_result","msg_body":{{"status":"success","details":{{"time":1,"entity":{{"name":"fib","position":"{sentinel}","type":"function"}}}}}}}}"#
        );
        let status = decode_line(&line).unwrap();
        let entity = status.details().unwrap().entity.as_ref().unwrap();
        assert_eq!(entity.name, "fib");
        assert_eq!(entity.position, OptionalPosition::Absent);
    }
    let err = decode_line(
        r#"{"msg_type":"ast_construction_result","msg_body":{"status":"success","details":{"time":1,"entity":{"name":"fib","position":"<foo>","type":"function"}}}}"#,
    )
    .unwrap_err();
    assert!(matches!(err, DecodeError::Position(e) if e.found == "<foo>"));
}

#[test]
fn a_definition_may_have_no_location() {
    let status = decode_line(
        r#"{"msg_type":"program_definitions","msg_body":{"definitions":[{"location":"<undefined>","name":"x","scopeEnd":"e","scopeStart":"b","type":{"name":"Local"}}]}}"#,
    )
    .unwrap();
    match status {
        VerificationStatus::ProgramDefinitions { definitions } => {
            assert_eq!(definitions[0].location, OptionalPosition::Absent);
            assert_eq!(definitions[0].name, "x");
        }
        other => panic!("unexpected message: {other:?}"),
    }
}

#[test]
fn decode_errors_in_words() {
    let words = |line: &str| decode_line(line).unwrap_err().to_string();
    assert_eq!(words("[]"), "missing field `msg_type`");
    assert_eq!(words(r#"{"msg_type":1}"#), "invalid type of field `msg_type`");
    assert_eq!(words(r#"{"msg_type":"x"}"#), "unknown message type `x`");
    assert_eq!(
        words(r#"{"msg_type":"backend_sub_process_report","msg_body":{"phase":"p","process_exe":"z3","tool":"boogie"}}"#),
        "unknown backend `boogie`"
    );
    assert_eq!(
        words(&invalid_args_with_position(r#""<foo>""#)),
        "expected \"<no position>\" or \"<undefined>\" found \"<foo>\""
    );
}

#[test]
fn a_syntax_error_has_the_words_of_the_parser() {
    for line in ["", "{", "{\"a\":}", "[1,]", "nul", "{\"a\":1} x"] {
        let expected = serde_json::from_str::<serde_json::Value>(line).unwrap_err().to_string();
        let err = decode_line(line).unwrap_err();
        assert!(matches!(err, DecodeError::Syntax(_)));
        assert_eq!(err.to_string(), expected);
    }
    assert_eq!(
        decode_line("{").unwrap_err().to_string(),
        "EOF while parsing an object at line 1 column 1"
    );
}

#[test]
fn program_definitions_with_and_without_viper_type() {
    let status = decode_line(
        r#"{"msg_type":"program_definitions","msg_body":{"definitions":[{"location":{"start":"1:1","end":"1:4","file":"f.vpr"},"name":"x","scopeEnd":"9:1","scopeStart":"1:1","type":{"name":"Argument","viperType":{"kind":"atomic","typename":"Int"}}},{"location":{"start":"2:1","end":"2:4","file":"f.vpr"},"name":"m","scopeEnd":"global","scopeStart":"global","type":{"name":"Method","viperType":null}},{"location":{"start":"3:1","end":"3:4","file":"f.vpr"},"name":"s","scopeEnd":"e","scopeStart":"b","type":{"name":"Local","viperType":{"kind":"generic","typename":{"collection":"Seq","elements":"Int"}}}}]}}"#,
    )
    .unwrap();
    match status {
        VerificationStatus::ProgramDefinitions { definitions } => {
            assert_eq!(definitions.len(), 3);
            assert_eq!(definitions[0].name, "x");
            assert_eq!(
                definitions[0].location,
                OptionalPosition::Given(position("1:1", "1:4", "f.vpr"))
            );
            assert_eq!(definitions[0].scope_end, "9:1");
            assert_eq!(definitions[0].scope_start, "1:1");
            assert_eq!(definitions[0].verification_status_type.name, "Argument");
            let viper_type = definitions[0].verification_status_type.viper_type.as_ref().unwrap();
            assert_eq!(viper_type.kind, "atomic");
            assert_eq!(viper_type.typename, serde_json::Value::String("Int".to_string()));
            assert!(definitions[1].verification_status_type.viper_type.is_none());
            let generic = definitions[2].verification_status_type.viper_type.as_ref().unwrap();
            assert_eq!(generic.typename["collection"], "Seq");
        }
        other => panic!("unexpected message: {other:?}"),
    }
}

#[test]
fn ast_construction_result_with_sparse_details() {
    let status = decode_line(
        r#"{"msg_type":"ast_construction_result","msg_body":{"status":"success","details":{"time":42}}}"#,
    )
    .unwrap();
    match &status {
        VerificationStatus::AstConstructionResult { details, status } => {
            assert_eq!(status, "success");
            assert_eq!(details.time, 42);
            assert_eq!(details.cached, None);
            assert!(details.result.is_none());
            assert!(details.entity.is_none());
            assert!(details.extra.is_empty());
        }
        other => panic!("unexpected message: {other:?}"),
    }
    assert_eq!(status.details().unwrap().time, 42);
    assert!(status.detail_errors().is_empty());
}

#[test]
fn verification_result_with_everything() {
    let status = decode_line(
        r#"{"msg_type":"verification_result","msg_body":{"zeta":[1],"details":{"cached":true,"entity":{"name":"fib","position":{"start":"1:1","end":"5:2","file":"f.vpr"},"type":"function"},"result":{"errors":[{"cached":true,"position":"<no position>","tag":"a","text":"first"},{"cached":false,"position":{"start":"2:2","end":"2:5","file":"f.vpr"},"tag":"b","text":"second"}],"type":"error"},"time":7,"note":"n","alpha":null},"kind":"for_entity","status":"failure","verifier":"carbon","alpha":"x"}}"#,
    )
    .unwrap();
    match &status {
        VerificationStatus::VerificationResult { details, kind, status, verifier, extra } => {
            assert_eq!(kind, "for_entity");
            assert_eq!(status, "failure");
            assert_eq!(*verifier, Backend::Carbon);
            let mut extra = extra.clone();
            extra.sort_by(|a, b| a.0.cmp(&b.0));
            assert_eq!(
                extra,
                vec![
                    ("alpha".to_string(), serde_json::Value::String("x".to_string())),
                    ("zeta".to_string(), serde_json::from_str::<serde_json::Value>("[1]").unwrap()),
                ]
            );
            assert_eq!(details.cached, Some(true));
            assert_eq!(details.time, 7);
            let entity = details.entity.as_ref().unwrap();
            assert_eq!(entity.name, "fib");
            assert_eq!(entity.entity_type, "function");
            assert_eq!(entity.position, OptionalPosition::Given(position("1:1", "5:2", "f.vpr")));
            let result = details.result.as_ref().unwrap();
            assert_eq!(result.result_type, "error");
            assert_eq!(result.errors.len(), 2);
            let mut rest = details.extra.clone();
            rest.sort_by(|a, b| a.0.cmp(&b.0));
            assert_eq!(
                rest,
                vec![
                    ("alpha".to_string(), serde_json::Value::Null),
                    ("note".to_string(), serde_json::Value::String("n".to_string())),
                ]
            );
        }
        other => panic!("unexpected message: {other:?}"),
    }
    let errors = status.detail_errors();
    assert_eq!(errors.len(), 2);
    assert_eq!(errors[0].text, "first");
    assert_eq!(errors[0].position, OptionalPosition::Absent);
    assert_eq!(errors[1].text, "second");
    assert_eq!(errors[1].position, OptionalPosition::Given(position("2:2", "2:5", "f.vpr")));
}

#[test]
fn the_verifier_is_one_of_two() {
    let line = |verifier: &str| {
        format!(
            r#"{{"msg_type":"verification_result","msg_body":{{"details":{{"time":1}},"kind":"overall","status":"success","verifier":{verifier}}}}}"#
        )
    };
    assert!(matches!(
        decode_line(&line("\"silicon\"")).unwrap(),
        VerificationStatus::VerificationResult { verifier: Backend::Silicon, .. }
    ));
    assert!(matches!(
        decode_line(&line("\"carbon\"")).unwrap(),
        VerificationStatus::VerificationResult { verifier: Backend::Carbon, .. }
    ));
    let err = decode_line(&line("\"Silicon\"")).unwrap_err();
    assert!(matches!(err, DecodeError::UnknownBackend { found } if found == "Silicon"));
    let err = decode_line(&line("1")).unwrap_err();
    assert!(matches!(err, DecodeError::Mismatch { field } if field == "verifier"));
}

#[test]
fn backend_sub_process_report_with_and_without_pid() {
    let status = decode_line(
        r#"{"msg_type":"backend_sub_process_report","msg_body":{"phase":"after_input_sent","pid":4711,"process_exe":"z3","tool":"silicon","seed":3}}"#,
    )
    .unwrap();
    assert_eq!(
        status,
        VerificationStatus::BackendSubProcessReport {
            phase: "after_input_sent".to_string(),
            pid: Some(4711),
            process_exe: "z3".to_string(),
            tool: Backend::Silicon,
            extra: vec![("seed".to_string(), serde_json::from_str("3").unwrap())],
        }
    );
    for line in [
        r#"{"msg_type":"backend_sub_process_report","msg_body":{"phase":"p","process_exe":"z3","tool":"carbon"}}"#,
        r#"{"msg_type":"backend_sub_process_report","msg_body":{"phase":"p","pid":null,"process_exe":"z3","tool":"carbon"}}"#,
    ] {
        assert_eq!(
            decode_line(line).unwrap(),
            VerificationStatus::BackendSubProcessReport {
                phase: "p".to_string(),
                pid: None,
                process_exe: "z3".to_string(),
                tool: Backend::Carbon,
                extra: vec![],
            }
        );
    }
    let err = decode_line(
        r#"{"msg_type":"backend_sub_process_report","msg_body":{"phase":"p","pid":"1","process_exe":"z3","tool":"carbon"}}"#,
    )
    .unwrap_err();
    assert!(matches!(err, DecodeError::Mismatch { field } if field == "pid"));
}

#[test]
fn an_unknown_kind_of_message_is_refused() {
    let err = decode_line(r#"{"msg_type":"progress_report","msg_body":{"text":"x"}}"#).unwrap_err();
    assert!(matches!(err, DecodeError::UnknownMessage { found } if found == "progress_report"));
    let err = decode_line(r#"{"msg_type":"CopyrightReport","msg_body":{"text":"x"}}"#).unwrap_err();
    assert!(matches!(err, DecodeError::UnknownMessage { .. }));
}

#[test]
fn a_line_has_to_be_a_message_object() {
    assert!(matches!(decode_line("").unwrap_err(), DecodeError::Syntax(_)));
    assert!(matches!(decode_line("{\"msg_type\":").unwrap_err(), DecodeError::Syntax(_)));
    assert!(matches!(decode_line("not json").unwrap_err(), DecodeError::Syntax(_)));
    assert!(matches!(
        decode_line("[]").unwrap_err(),
        DecodeError::Missing { field } if field == "msg_type"
    ));
    assert!(matches!(
        decode_line(r#"{"msg_body":{"text":"x"}}"#).unwrap_err(),
        DecodeError::Missing { field } if field == "msg_type"
    ));
    assert!(matches!(
        decode_line(r#"{"msg_type":7,"msg_body":{"text":"x"}}"#).unwrap_err(),
        DecodeError::Mismatch { field } if field == "msg_type"
    ));
    assert!(matches!(
        decode_line(r#"{"msg_type":"copyright_report"}"#).unwrap_err(),
        DecodeError::Missing { field } if field == "msg_body"
    ));
    assert!(matches!(
        decode_line(r#"{"msg_type":"copyright_report","msg_body":{"text":null}}"#).unwrap_err(),
        DecodeError::Mismatch { field } if field == "text"
    ));
}

#[test]
fn a_parsed_document_decodes_like_its_line() {
    let line = r#"{"msg_type":"copyright_report","msg_body":{"text":"t"}}"#;
    let value: serde_json::Value = serde_json::from_str(line).unwrap();
    assert_eq!(decode_status(&value).unwrap(), decode_line(line).unwrap());
    let mut body = serde_json::Map::new();
    body.insert("text".to_string(), serde_json::Value::String("built".to_string()));
    let mut message = serde_json::Map::new();
    message.insert(
        "msg_type".to_string(),
        serde_json::Value::String("copyright_report".to_string()),
    );
    message.insert("msg_body".to_string(), serde_json::Value::Object(body));
    assert_eq!(
        decode_status(&serde_json::Value::Object(message)).unwrap(),
        VerificationStatus::CopyrightReport { text: "built".to_string() }
    );
}

#[test]
fn messages_without_details_report_no_errors() {
    let status = decode_line(r#"{"msg_type":"copyright_report","msg_body":{"text":"t"}}"#).unwrap();
    assert!(status.details().is_none());
    assert!(status.detail_errors().is_empty());
}

#[test]
fn backends_by_name() {
    assert_eq!(Backend::Carbon.to_string(), "carbon");
    assert_eq!(Backend::Silicon.to_string(), "silicon");
    assert_eq!(Backend::default(), Backend::Silicon);
}
