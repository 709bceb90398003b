//! The records that a save reports, one for each place written to.

use vstd::prelude::*;

verus! {

/// Where a certificate ended up in the certificate manager.
#[derive(Clone, Debug, PartialEq, Eq)]
pub struct AcmStorageResult {
    /// The identifier of the managed certificate.
    pub certificate_arn: String,
}

/// Where a certificate ended up in the object store.
#[derive(Clone, Debug, PartialEq, Eq)]
pub struct S3StorageResult {
    pub bucket: String,
    /// The key of the certificate itself.
    pub certificate: String,
    /// The key of the intermediate chain.
    pub chain: String,
    /// The key of certificate and chain together.
    pub full_chain: String,
    /// The key of the private key.
    pub private_key: String,
}

/// Where a certificate ended up in the parameter store: the name of each of
/// the four parameters, and the identifier that the store gave it.
#[derive(Clone, Debug, PartialEq, Eq)]
pub struct SsmParameterStorageResult {
    pub cert_param: String,
    pub chain_param: String,
    pub fullchain_param: String,
    pub pkey_param: String,
    pub cert_arn: String,
    pub chain_arn: String,
    pub fullchain_arn: String,
    pub pkey_arn: String,
}

/// The outcome for one place written to: where the material is, or why it is
/// not there.
#[derive(Clone, Debug, PartialEq, Eq)]
pub enum CertificateStorageResult {
    Acm(AcmStorageResult),
    S3(S3StorageResult),
    SsmParameter(SsmParameterStorageResult),
    Error(String),
}

/// A parameter-store record as a value of specifications.
pub struct SsmParameterResultView {
    pub cert_param: Seq<char>,
    pub chain_param: Seq<char>,
    pub fullchain_param: Seq<char>,
    pub pkey_param: Seq<char>,
    pub cert_arn: Seq<char>,
    pub chain_arn: Seq<char>,
    pub fullchain_arn: Seq<char>,
    pub pkey_arn: Seq<char>,
}

/// An object-store record as a value of specifications.
pub struct S3ResultView {
    pub bucket: Seq<char>,
    pub certificate: Seq<char>,
    pub chain: Seq<char>,
    pub full_chain: Seq<char>,
    pub private_key: Seq<char>,
}

/// An outcome as a value of specifications.
pub enum ResultView {
    Acm(Seq<char>),
    S3(S3ResultView),
    SsmParameter(SsmParameterResultView),
    Error(Seq<char>),
}

impl View for AcmStorageResult {
    type V = Seq<char>;

    open spec fn view(&self) -> Seq<char> {
        self.certificate_arn@
    }
}

impl View for S3StorageResult {
    type V = S3ResultView;

    open spec fn view(&self) -> S3ResultView {
        S3ResultView {
            bucket: self.bucket@,
            certificate: self.certificate@,
            chain: self.chain@,
            full_chain: self.full_chain@,
            private_key: self.private_key@,
        }
    }
}

impl View for SsmParameterStorageResult {
    type V = SsmParameterResultView;

    open spec fn view(&self) -> SsmParameterResultView {
        SsmParameterResultView {
            cert_param: self.cert_param@,
            chain_param: self.chain_param@,
            fullchain_param: self.fullchain_param@,
            pkey_param: self.pkey_param@,
            cert_arn: self.cert_arn@,
            chain_arn: self.chain_arn@,
            fullchain_arn: self.fullchain_arn@,
            pkey_arn: self.pkey_arn@,
        }
    }
}

impl View for CertificateStorageResult {
    type V = ResultView;

    open spec fn view(&self) -> ResultView {
        match self {
            CertificateStorageResult::Acm(r) => ResultView::Acm(r@),
            CertificateStorageResult::S3(r) => ResultView::S3(r@),
            CertificateStorageResult::SsmParameter(r) => ResultView::SsmParameter(r@),
            CertificateStorageResult::Error(message) => ResultView::Error(message@),
        }
    }
}

/// The outcomes in `results`, each as a value of specifications.
pub open spec fn result_views(results: Seq<CertificateStorageResult>) -> Seq<ResultView> {
    Seq::new(results.len(), |i: int| results[i]@)
}

} // verus!
