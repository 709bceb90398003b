use cert_storage::error::CertificateRequestError;
use cert_storage::ssm::is_allowed_in_path;
use cert_storage::ssm::validate_and_sanitize_ssm_parameter_path;
use cert_storage::ssm::SsmParameterStorage;

fn sanitized(path: &str) -> Option<String> {
    validate_and_sanitize_ssm_parameter_path(path)
}

#[test]
fn trailing_slash_is_stripped() {
    assert_eq!(sanitized("/certs/"), Some("/certs".to_string()));
}

#[test]
fn path_without_leading_slash_is_rejected() {
    assert_eq!(sanitized("certs"), None);
}

#[test]
fn normal_path_is_kept() {
    assert_eq!(sanitized("/certs"), Some("/certs".to_string()));
    assert_eq!(sanitized("/a/b-c/d_e.f"), Some("/a/b-c/d_e.f".to_string()));
    assert_eq!(sanitized("/A/Z/0/9"), Some("/A/Z/0/9".to_string()));
}

#[test]
fn sanitizing_twice_changes_nothing_more() {
    let once = sanitized("/prod/certs/").unwrap();
    assert_eq!(sanitized(&once), Some(once.clone()));
    assert_eq!(once, "/prod/certs");
}

#[test]
fn empty_path_is_rejected() {
    assert_eq!(sanitized(""), None);
}

#[test]
fn lone_slash_is_rejected() {
    assert_eq!(sanitized("/"), None);
}

#[test]
fn empty_level_is_rejected() {
    assert_eq!(sanitized("//"), None);
    assert_eq!(sanitized("/a//b"), None);
    assert_eq!(sanitized("//a"), None);
    assert_eq!(sanitized("/a//"), None);
}

#[test]
fn disallowed_characters_are_rejected() {
    assert_eq!(sanitized("/a b"), None);
    assert_eq!(sanitized("/a:b"), None);
    assert_eq!(sanitized("/a*"), None);
    assert_eq!(sanitized("/caf\u{e9}"), None);
    assert_eq!(sanitized("/a\n"), None);
}

#[test]
fn allowed_characters() {
    for c in ['a', 'z', 'A', 'Z', '0', '9', '_', '.', '-', '/'] {
        assert!(is_allowed_in_path(c));
    }
    for c in [' ', ':', '@', '[', '`', '{', '\u{e9}', '\\', '+'] {
        assert!(!is_allowed_in_path(c));
    }
}

#[test]
fn validate_replaces_path_by_its_stored_form() {
    let mut storage = SsmParameterStorage { path: "/certs/".to_string() };
    assert_eq!(storage.validate(), Ok(()));
    assert_eq!(storage.path, "/certs");
}

#[test]
fn validate_reports_the_path_as_given() {
    let mut storage = SsmParameterStorage { path: "certs".to_string() };
    assert_eq!(
        storage.validate(),
        Err(CertificateRequestError::InvalidSsmParameterPath("certs".to_string()))
    );
    assert_eq!(storage.path, "certs");
}
