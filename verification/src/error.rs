//! The errors that end a request.

use vstd::prelude::*;
use vstd::string::StringExecFns;

verus! {

/// Why a request could not be carried out.
///
/// The first five are faults of the configuration and are found when it is
/// validated, before anything is written; the others arise while saving.
#[derive(Clone, Debug, PartialEq, Eq)]
pub enum CertificateRequestError {
    /// The certificate-manager settings contradict each other.
    InvalidAcmConfiguration(String),
    /// The text is not the identifier of a managed certificate.
    InvalidAcmCertificateArn(String),
    /// The bucket is unnamed or cannot be reached.
    InvalidS3Bucket(String),
    /// The location reported for a bucket is no region.
    InvalidS3Location(String),
    /// The text is not a usable parameter path.
    InvalidSsmParameterPath(String),
    /// A service answered, but not with what was needed.
    UnexpectedAwsResponse(String),
    /// A service call failed; the text is the service's own.
    ServiceFailure(String),
    /// The request reached a backend in a state it cannot work from.
    Internal(String),
    /// The backend cannot store certificates.
    NotImplemented,
}

/// A request error as a value of specifications.
pub enum ErrorView {
    InvalidAcmConfiguration(Seq<char>),
    InvalidAcmCertificateArn(Seq<char>),
    InvalidS3Bucket(Seq<char>),
    InvalidS3Location(Seq<char>),
    InvalidSsmParameterPath(Seq<char>),
    UnexpectedAwsResponse(Seq<char>),
    ServiceFailure(Seq<char>),
    Internal(Seq<char>),
    NotImplemented,
}

impl ErrorView {
    /// Whether the error is a fault of the configuration.
    pub open spec fn is_configuration(self) -> bool {
        self is InvalidAcmConfiguration || self is InvalidAcmCertificateArn
            || self is InvalidS3Bucket || self is InvalidS3Location
            || self is InvalidSsmParameterPath
    }

    /// The sentence that reports the error.
    pub open spec fn message(self) -> Seq<char> {
        match self {
            ErrorView::InvalidAcmConfiguration(reason) => "Invalid ACM configuration: "@ + reason,
            ErrorView::InvalidAcmCertificateArn(arn) => "Invalid ACM certificate ARN: "@ + arn,
            ErrorView::InvalidS3Bucket(bucket) => "Invalid S3 bucket: "@ + bucket,
            ErrorView::InvalidS3Location(token) => "Invalid S3 bucket location: "@ + token,
            ErrorView::InvalidSsmParameterPath(path) => "Invalid SSM parameter path: "@ + path,
            ErrorView::UnexpectedAwsResponse(detail) => "Unexpected AWS response: "@ + detail,
            ErrorView::ServiceFailure(detail) => detail,
            ErrorView::Internal(detail) => "Internal error: "@ + detail,
            ErrorView::NotImplemented => "Not implemented"@,
        }
    }
}

impl View for CertificateRequestError {
    type V = ErrorView;

    open spec fn view(&self) -> ErrorView {
        match self {
            CertificateRequestError::InvalidAcmConfiguration(s) => ErrorView::InvalidAcmConfiguration(s@),
            CertificateRequestError::InvalidAcmCertificateArn(s) => ErrorView::InvalidAcmCertificateArn(s@),
            CertificateRequestError::InvalidS3Bucket(s) => ErrorView::InvalidS3Bucket(s@),
            CertificateRequestError::InvalidS3Location(s) => ErrorView::InvalidS3Location(s@),
            CertificateRequestError::InvalidSsmParameterPath(s) => ErrorView::InvalidSsmParameterPath(s@),
            CertificateRequestError::UnexpectedAwsResponse(s) => ErrorView::UnexpectedAwsResponse(s@),
            CertificateRequestError::ServiceFailure(s) => ErrorView::ServiceFailure(s@),
            CertificateRequestError::Internal(s) => ErrorView::Internal(s@),
            CertificateRequestError::NotImplemented => ErrorView::NotImplemented,
        }
    }
}

/// `prefix` followed by `rest`.
fn prefixed(prefix: &str, rest: &String) -> (text: String)
    ensures
        text@ == prefix@ + rest@,
{
    let text = String::from_str(prefix);
    text.concat(rest.as_str())
}

impl CertificateRequestError {
    /// Whether the error is a fault of the configuration.
    pub fn is_configuration(&self) -> (yes: bool)
        ensures
            yes == self@.is_configuration(),
    {
        match self {
            CertificateRequestError::InvalidAcmConfiguration(_) => true,
            CertificateRequestError::InvalidAcmCertificateArn(_) => true,
            CertificateRequestError::InvalidS3Bucket(_) => true,
            CertificateRequestError::InvalidS3Location(_) => true,
            CertificateRequestError::InvalidSsmParameterPath(_) => true,
            _ => false,
        }
    }

    /// The sentence that reports the error.
    pub fn message(&self) -> (text: String)
        ensures
            text@ == self@.message(),
    {
        match self {
            CertificateRequestError::InvalidAcmConfiguration(s) => prefixed("Invalid ACM configuration: ", s),
            CertificateRequestError::InvalidAcmCertificateArn(s) => prefixed("Invalid ACM certificate ARN: ", s),
            CertificateRequestError::InvalidS3Bucket(s) => prefixed("Invalid S3 bucket: ", s),
            CertificateRequestError::InvalidS3Location(s) => prefixed("Invalid S3 bucket location: ", s),
            CertificateRequestError::InvalidSsmParameterPath(s) => prefixed("Invalid SSM parameter path: ", s),
            CertificateRequestError::UnexpectedAwsResponse(s) => prefixed("Unexpected AWS response: ", s),
            CertificateRequestError::ServiceFailure(s) => s.clone(),
            CertificateRequestError::Internal(s) => prefixed("Internal error: ", s),
            CertificateRequestError::NotImplemented => String::from_str("Not implemented"),
        }
    }
}

} // verus!
