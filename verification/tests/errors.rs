use cert_storage::error::CertificateRequestError;

fn text(s: &str) -> String {
    s.to_string()
}

#[test]
fn configuration_errors_are_told_apart() {
    assert!(CertificateRequestError::InvalidAcmConfiguration(text("x")).is_configuration());
    assert!(CertificateRequestError::InvalidAcmCertificateArn(text("x")).is_configuration());
    assert!(CertificateRequestError::InvalidS3Bucket(text("x")).is_configuration());
    assert!(CertificateRequestError::InvalidS3Location(text("x")).is_configuration());
    assert!(CertificateRequestError::InvalidSsmParameterPath(text("x")).is_configuration());
    assert!(!CertificateRequestError::UnexpectedAwsResponse(text("x")).is_configuration());
    assert!(!CertificateRequestError::ServiceFailure(text("x")).is_configuration());
    assert!(!CertificateRequestError::Internal(text("x")).is_configuration());
    assert!(!CertificateRequestError::NotImplemented.is_configuration());
}

#[test]
fn messages_name_what_was_wrong() {
    assert_eq!(
        CertificateRequestError::InvalidAcmConfiguration(text("both")).message(),
        "Invalid ACM configuration: both"
    );
    assert_eq!(
        CertificateRequestError::InvalidAcmCertificateArn(text("arn:x")).message(),
        "Invalid ACM certificate ARN: arn:x"
    );
    assert_eq!(
        CertificateRequestError::InvalidS3Bucket(text("b")).message(),
        "Invalid S3 bucket: b"
    );
    assert_eq!(
        CertificateRequestError::InvalidS3Location(text("l")).message(),
        "Invalid S3 bucket location: l"
    );
    assert_eq!(
        CertificateRequestError::InvalidSsmParameterPath(text("p")).message(),
        "Invalid SSM parameter path: p"
    );
    assert_eq!(
        CertificateRequestError::UnexpectedAwsResponse(text("u")).message(),
        "Unexpected AWS response: u"
    );
    assert_eq!(CertificateRequestError::ServiceFailure(text("s")).message(), "s");
    assert_eq!(CertificateRequestError::Internal(text("i")).message(), "Internal error: i");
    assert_eq!(CertificateRequestError::NotImplemented.message(), "Not implemented");
}
