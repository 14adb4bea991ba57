use webgl_canvas::program::{attribute_index, creation_error, failure_message, status_succeeded, GlObject};

#[test]
fn creation_error_text() {
    assert_eq!(creation_error(), "Unable to create shader object");
}

#[test]
fn status_true_succeeds() {
    assert!(status_succeeded(Some(true)));
}

#[test]
fn status_false_fails() {
    assert!(!status_succeeded(Some(false)));
}

#[test]
fn status_missing_fails() {
    assert!(!status_succeeded(None));
}

#[test]
fn failure_message_uses_log() {
    let log = String::from("ERROR: 0:3: 'x' : undeclared identifier");
    assert_eq!(failure_message(GlObject::Shader, Some(log.clone())), log);
    assert_eq!(failure_message(GlObject::Program, Some(log.clone())), log);
}

#[test]
fn failure_message_without_log_for_shader() {
    assert_eq!(failure_message(GlObject::Shader, None), "Unknown error creating shader");
}

#[test]
fn failure_message_without_log_for_program() {
    assert_eq!(failure_message(GlObject::Program, None), "Unknown error creating program object");
}

#[test]
fn attribute_index_of_found_location() {
    assert_eq!(attribute_index(0), Some(0));
    assert_eq!(attribute_index(7), Some(7));
    assert_eq!(attribute_index(i32::MAX), Some(i32::MAX as u32));
}

#[test]
fn attribute_index_of_missing_location() {
    assert_eq!(attribute_index(-1), None);
    assert_eq!(attribute_index(i32::MIN), None);
}
