use kast_playground::outcome::{conclude, diagnose, host_result, shown_text};
use kast_playground::request::EvalRequest;
use kast_playground::session::Session;
use std::sync::{Arc, Mutex};

fn recorder() -> (Arc<Mutex<Vec<String>>>, impl Fn(String) + Send + Sync + 'static) {
    let log = Arc::new(Mutex::new(Vec::new()));
    let sink = log.clone();
    (log, move |text: String| sink.lock().unwrap().push(text))
}

fn eval(session: &mut Session, source: &str) -> Result<(), String> {
    let request = EvalRequest::new(source.to_string());
    let file = kast::SourceFile {
        contents: request.contents,
        filename: request.filename.into(),
    };
    conclude(session.interpreter_mut().eval_source(file, None))
}

fn chunks(log: &Arc<Mutex<Vec<String>>>) -> Vec<String> {
    log.lock().unwrap().clone()
}

#[test]
fn request_keeps_source_and_uses_fixed_label() {
    let request = EvalRequest::new("1 + 1".to_string());
    assert_eq!(request.contents, "1 + 1");
    assert_eq!(request.filename, "<source>");
}

#[test]
fn request_accepts_empty_source() {
    let request = EvalRequest::new(String::new());
    assert_eq!(request.contents, "");
    assert_eq!(request.filename, "<source>");
}

#[test]
fn host_result_drops_the_value() {
    let value: kast::Value = kast::ValueShape::Int32(2).into();
    assert_eq!(host_result(Ok(value)), Ok(()));
}

#[test]
fn host_result_keeps_the_diagnostic() {
    assert_eq!(host_result(Err("boom".to_string())), Err("boom".to_string()));
    assert_eq!(host_result(Err(String::new())), Err(String::new()));
}

#[test]
fn diagnose_renders_the_report() {
    let rendered = diagnose::<u8>(Err(eyre::Report::msg("boom")));
    let text = rendered.unwrap_err();
    assert!(text.contains("boom"));
}

#[test]
fn diagnose_text_is_not_empty() {
    let rendered = diagnose::<u8>(Err(eyre::Report::msg("")));
    assert!(!rendered.unwrap_err().is_empty());
}

#[test]
fn diagnose_text_begins_with_the_message() {
    let text = diagnose::<u8>(Err(eyre::Report::msg("boom"))).unwrap_err();
    assert!(text.starts_with("boom"));
}

#[test]
fn shown_text_keeps_a_rendering() {
    assert_eq!(shown_text("boom".to_string()), "boom");
    assert_eq!(shown_text(" ".to_string()), " ");
}

#[test]
fn shown_text_replaces_an_empty_rendering() {
    assert_eq!(shown_text(String::new()), "<no diagnostic>");
}

#[test]
fn conclude_drops_the_value() {
    let value: kast::Value = kast::ValueShape::Unit.into();
    assert_eq!(conclude(Ok(value)), Ok(()));
}

#[test]
fn conclude_renders_the_report() {
    let text = conclude(Err(eyre::Report::msg("boom"))).unwrap_err();
    assert!(text.starts_with("boom"));
}

#[test]
fn conclude_text_is_not_empty() {
    let text = conclude(Err(eyre::Report::msg(""))).unwrap_err();
    assert!(!text.is_empty());
}

#[test]
fn diagnose_keeps_success() {
    assert_eq!(diagnose::<u8>(Ok(7)), Ok(7));
}

#[test]
fn from_start_passes_failure_on() {
    let session = Session::from_start(Err("no engine".to_string()));
    assert_eq!(session.err(), Some("no engine".to_string()));
}

#[test]
fn construct_twice() {
    let first = Session::new();
    let second = Session::new();
    assert!(first.is_ok());
    assert!(second.is_ok());
}

#[test]
fn arithmetic_succeeds_without_output() {
    let mut session = Session::new().unwrap();
    let (log, sink) = recorder();
    session.set_output(sink);
    assert_eq!(eval(&mut session, "(1 :: std.int32) + 1"), Ok(()));
    assert_eq!(chunks(&log), Vec::<String>::new());
}

#[test]
fn untyped_literal_is_reported_under_the_label() {
    let mut session = Session::new().unwrap();
    let (log, sink) = recorder();
    session.set_output(sink);
    let text = eval(&mut session, "1 + 1").unwrap_err();
    assert!(text.contains("<source>:1:1"));
    assert!(text.contains("number literal type could not be inferred"));
    assert_eq!(chunks(&log), Vec::<String>::new());
}

#[test]
fn invalid_syntax_fails_with_text() {
    let mut session = Session::new().unwrap();
    let result = eval(&mut session, "this is not valid syntax !!");
    let text = result.unwrap_err();
    assert!(!text.is_empty());
}

#[test]
fn same_failure_twice() {
    let mut session = Session::new().unwrap();
    let first = eval(&mut session, "this is not valid syntax !!");
    let second = eval(&mut session, "this is not valid syntax !!");
    assert!(first.is_err());
    assert_eq!(first, second);
}

#[test]
fn eval_without_bridge() {
    let mut session = Session::new().unwrap();
    assert_eq!(eval(&mut session, "(1 :: std.int32) + 1"), Ok(()));
}

#[test]
fn chunks_arrive_in_order() {
    let mut session = Session::new().unwrap();
    let (log, sink) = recorder();
    session.set_output(sink);
    let source = "let out = current std.output; out.write \"a\"; out.write \"b\"; out.write \"c\";";
    assert_eq!(eval(&mut session, source), Ok(()));
    assert_eq!(chunks(&log), vec!["a".to_string(), "b".to_string(), "c".to_string()]);
}

#[test]
fn replaced_bridge_is_not_called() {
    let mut session = Session::new().unwrap();
    let (first_log, first) = recorder();
    let (second_log, second) = recorder();
    session.set_output(first);
    session.set_output(second);
    assert_eq!(eval(&mut session, "std.print \"hi\";"), Ok(()));
    assert_eq!(chunks(&first_log), Vec::<String>::new());
    assert_eq!(chunks(&second_log), vec!["hi".to_string(), "\n".to_string()]);
}

#[test]
fn session_survives_a_failure() {
    let mut session = Session::new().unwrap();
    let (log, sink) = recorder();
    session.set_output(sink);
    assert!(eval(&mut session, "this is not valid syntax !!").is_err());
    assert_eq!(eval(&mut session, "std.print \"after\";"), Ok(()));
    assert_eq!(chunks(&log), vec!["after".to_string(), "\n".to_string()]);
}
