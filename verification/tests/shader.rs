use android_native_surface::shader::{
    shader_info_message, shader_status_failed, GL_TRUE, SHADER_LOG_CAPACITY,
};
use android_native_surface::text::{decode_text, try_decode_text};

fn log_buffer(text: &[u8]) -> Vec<u8> {
    let mut buf = vec![0u8; SHADER_LOG_CAPACITY];
    buf[..text.len()].copy_from_slice(text);
    buf
}

#[test]
fn compiled_shader_reports_nothing() {
    let buf = log_buffer(b"ignored");
    assert_eq!(shader_info_message(GL_TRUE, &buf, 7, "vertex shader compile"), None);
    assert_eq!(GL_TRUE, 1);
}

#[test]
fn failed_shader_reports_the_written_part_of_its_log() {
    let buf = log_buffer(b"0:3: error: 'x' undeclared\0");
    assert_eq!(
        shader_info_message(0, &buf, 26, "vertex shader compile"),
        Some("0:3: error: 'x' undeclared".to_string())
    );
    assert_eq!(shader_info_message(0, &buf, 4, "vertex shader compile"), Some("0:3:".to_string()));
    assert_eq!(shader_info_message(0, &buf, 0, "vertex shader compile"), Some(String::new()));
}

#[test]
fn any_status_other_than_true_is_a_failure() {
    let buf = log_buffer("é".as_bytes());
    assert_eq!(shader_info_message(2, &buf, 2, "vertex shader compile"), Some("é".to_string()));
    assert_eq!(shader_info_message(-1, &buf, 0, "vertex shader compile"), Some(String::new()));
}

#[test]
fn log_capacity() {
    assert_eq!(SHADER_LOG_CAPACITY, 1024);
}

#[test]
fn utf8_text_decodes() {
    assert_eq!(decode_text(b"OpenGL ES 3.2".to_vec()), "OpenGL ES 3.2");
    assert_eq!(decode_text("Grüße".as_bytes().to_vec()), "Grüße");
    assert_eq!(try_decode_text(vec![0x68, 0x69]), Some("hi".to_string()));
}

#[test]
fn malformed_utf8_is_rejected() {
    assert_eq!(try_decode_text(vec![0xff]), None);
    assert_eq!(try_decode_text(vec![0x61, 0xc3]), None);
    assert_eq!(try_decode_text(vec![0xed, 0xa0, 0x80]), None); // surrogate
    assert_eq!(try_decode_text(Vec::new()), Some(String::new()));
}

#[test]
fn only_gl_true_is_success() {
    assert!(!shader_status_failed(1));
    assert!(shader_status_failed(0));
    assert!(shader_status_failed(2));
    assert!(shader_status_failed(-1));
}

#[test]
fn context_never_reaches_the_report() {
    let buf = log_buffer(b"0:1: syntax error");
    let a = shader_info_message(0, &buf, 17, "vertex shader compile");
    let b = shader_info_message(0, &buf, 17, "fragment shader compile");
    assert_eq!(a, b);
    assert_eq!(a, Some("0:1: syntax error".to_string()));
    assert_eq!(shader_info_message(1, &buf, 17, ""), shader_info_message(1, &buf, 17, "x"));
}
