use render_core::error::{whitespace_buffer, CompileError, LinkError};

#[test]
fn whitespace_buffer_has_exact_size_and_fill() {
    let buffer = whitespace_buffer(0);
    assert!(buffer.is_empty());
    let buffer = whitespace_buffer(13);
    assert_eq!(buffer.len(), 13);
    assert!(buffer.iter().all(|&b| b == b' '));
}

#[test]
fn compile_error_keeps_the_verbatim_log() {
    let error = CompileError::new(String::from("0:1(1): error: syntax error"));
    assert_eq!(error.log(), "0:1(1): error: syntax error");
}

#[test]
fn link_error_keeps_the_verbatim_log() {
    let error = LinkError::new(String::from("error: unresolved varying"));
    assert_eq!(error.log(), "error: unresolved varying");
}
