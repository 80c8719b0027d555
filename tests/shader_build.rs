use gl_triangle::shader::{
    info_log, run_compile, run_link, CompilePhase, Failure, GlRequest, LinkPhase, Reply,
    ShaderCompile, Stage, GL_TRUE,
};

fn log_with_terminator(text: &str) -> Vec<u8> {
    let mut b = text.as_bytes().to_vec();
    b.push(0);
    b
}

fn failing_compile_replies(h: u32, text: &str) -> Vec<Reply> {
    vec![
        Reply::Name(h),
        Reply::Done,
        Reply::Done,
        Reply::Value(0),
        Reply::Value(text.len() as i32 + 1),
        Reply::Log(log_with_terminator(text)),
    ]
}

#[test]
fn compile_success_returns_shader() {
    let (requests, outcome, phase) = run_compile(
        Stage::Vertex,
        None,
        vec![Reply::Name(7), Reply::Done, Reply::Done, Reply::Value(GL_TRUE)],
    );
    assert_eq!(
        requests,
        vec![
            GlRequest::CreateShader(Stage::Vertex),
            GlRequest::ShaderSource(7),
            GlRequest::CompileShader(7),
            GlRequest::ShaderStatus(7),
        ]
    );
    assert_eq!(outcome.unwrap().unwrap(), 7);
    assert_eq!(phase, CompilePhase::Finished);
}

#[test]
fn compile_failure_surfaces_driver_log() {
    let text = "0:2(1): error: syntax error, unexpected '}'";
    let len = text.len() as i32 + 1;
    let mut replies = failing_compile_replies(4, text);
    replies.push(Reply::Done);
    let (requests, outcome, phase) = run_compile(Stage::Fragment, None, replies);
    assert_eq!(
        requests,
        vec![
            GlRequest::CreateShader(Stage::Fragment),
            GlRequest::ShaderSource(4),
            GlRequest::CompileShader(4),
            GlRequest::ShaderStatus(4),
            GlRequest::ShaderLogLength(4),
            GlRequest::ShaderLog(4, len),
            GlRequest::DeleteShader(4),
        ]
    );
    assert_eq!(phase, CompilePhase::Finished);
    let err = outcome.unwrap().unwrap_err();
    assert_eq!(err.kind, Failure::Compile(Stage::Fragment));
    assert!(!err.log.is_empty());
    assert_eq!(String::from_utf8(err.log).unwrap(), text);
}

#[test]
fn failed_compile_releases_earlier_shader_too() {
    let mut replies = failing_compile_replies(4, "bad");
    replies.push(Reply::Done);
    replies.push(Reply::Done);
    let (requests, outcome, phase) = run_compile(Stage::Fragment, Some(1), replies);
    assert_eq!(requests.len(), 8);
    assert_eq!(requests[6], GlRequest::DeleteShader(4));
    assert_eq!(requests[7], GlRequest::DeleteShader(1));
    assert_eq!(phase, CompilePhase::Finished);
    assert_eq!(outcome.unwrap().unwrap_err().log, b"bad".to_vec());
}

#[test]
fn failed_compile_is_not_over_before_release() {
    let (requests, outcome, phase) =
        run_compile(Stage::Vertex, None, failing_compile_replies(9, "bad"));
    assert_eq!(requests.len(), 6);
    assert!(outcome.unwrap().is_err());
    assert_eq!(phase, CompilePhase::Release(9));
}

#[test]
fn compile_run_stops_at_reply_out_of_turn() {
    let (requests, outcome, phase) =
        run_compile(Stage::Vertex, None, vec![Reply::Name(2), Reply::Value(GL_TRUE)]);
    assert_eq!(
        requests,
        vec![GlRequest::CreateShader(Stage::Vertex)]
    );
    assert!(outcome.is_none());
    assert_eq!(phase, CompilePhase::Source(2));
}

#[test]
fn compile_ends_after_outcome() {
    let mut machine = ShaderCompile::new(Stage::Vertex, None);
    machine.feed(Reply::Name(1));
    machine.feed(Reply::Done);
    machine.feed(Reply::Done);
    assert!(!machine.accepts(&Reply::Done));
    assert!(machine.accepts(&Reply::Value(GL_TRUE)));
    assert!(machine.feed(Reply::Value(GL_TRUE)).is_some());
    assert_eq!(machine.request(), None);
    assert!(!machine.accepts(&Reply::Done));
}

#[test]
fn link_failure_attaches_both_then_surfaces_log() {
    let text = "error: vertex shader output not read";
    let len = text.len() as i32 + 1;
    let (requests, outcome, phase) = run_link(
        1,
        2,
        vec![
            Reply::Name(3),
            Reply::Done,
            Reply::Done,
            Reply::Done,
            Reply::Value(0),
            Reply::Value(len),
            Reply::Log(log_with_terminator(text)),
            Reply::Done,
            Reply::Done,
            Reply::Done,
        ],
    );
    assert_eq!(
        requests,
        vec![
            GlRequest::CreateProgram,
            GlRequest::AttachShader(3, 1),
            GlRequest::AttachShader(3, 2),
            GlRequest::LinkProgram(3),
            GlRequest::ProgramStatus(3),
            GlRequest::ProgramLogLength(3),
            GlRequest::ProgramLog(3, len),
            GlRequest::DeleteProgram(3),
            GlRequest::DeleteShader(2),
            GlRequest::DeleteShader(1),
        ]
    );
    assert_eq!(phase, LinkPhase::Finished);
    let err = outcome.unwrap().unwrap_err();
    assert_eq!(err.kind, Failure::Link);
    assert_eq!(String::from_utf8(err.log).unwrap(), text);
}

#[test]
fn link_success_returns_distinct_program() {
    let (requests, outcome, phase) = run_link(
        1,
        2,
        vec![Reply::Name(3), Reply::Done, Reply::Done, Reply::Done, Reply::Value(GL_TRUE)],
    );
    assert_eq!(requests.len(), 5);
    assert_eq!(requests[3], GlRequest::LinkProgram(3));
    assert_eq!(phase, LinkPhase::Finished);
    let program = outcome.unwrap().unwrap();
    assert_eq!(program, 3);
    assert_ne!(program, 1);
    assert_ne!(program, 2);
}

#[test]
fn info_log_drops_terminator() {
    assert_eq!(info_log(&b"bad\0".to_vec(), 4), b"bad".to_vec());
}

#[test]
fn info_log_of_empty_or_short_buffers() {
    assert!(info_log(&Vec::new(), 0).is_empty());
    assert!(info_log(&b"\0".to_vec(), 1).is_empty());
    assert!(info_log(&b"abc".to_vec(), -5).is_empty());
    assert_eq!(info_log(&b"ab".to_vec(), 10), b"ab".to_vec());
}
