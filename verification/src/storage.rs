//! The backends under one type: callers check and save through it and need
//! not know which backend they have.

use crate::acm::AcmStep;
use crate::acm::AcmStorage;
use crate::error::CertificateRequestError;
use crate::error::ErrorView;
use crate::s3::S3Storage;
use crate::s3::located_region;
use crate::ssm::ParameterWrite;
use crate::ssm::SsmParameterStorage;
use crate::ssm::are_writes_of;
use crate::ssm::path_is_normal;
use crate::ssm::sanitized_path;
use crate::ssm::unnamed_error;
use crate::text::texts;
use vstd::prelude::*;
use vstd::string::StringExecFns;

verus! {

/// Where a certificate is kept.
#[derive(Clone, Debug, PartialEq, Eq)]
pub enum CertificateStorage {
    Acm(AcmStorage),
    S3(S3Storage),
    SsmParameter(SsmParameterStorage),
}

/// What is left to do once the settings themselves were found in order.
#[derive(Clone, Debug, PartialEq, Eq)]
pub enum ValidationStep {
    /// Nothing: the settings are valid.
    Done,
    /// The location of this bucket is to be asked for and handed to
    /// `bucket_located`.
    LocateBucket(String),
}

/// What a save does first.
#[derive(Clone, Debug, PartialEq, Eq)]
pub enum SaveStep {
    Acm(AcmStep),
    /// Write these parameters, all at once.
    SsmParameter(Vec<ParameterWrite>),
}

/// Whether a check went through, and if not, why not.
pub open spec fn outcome(checked: Result<ValidationStep, CertificateRequestError>) -> Result<
    (),
    CertificateRequestError,
> {
    match checked {
        Ok(_) => Ok(()),
        Err(e) => Err(e),
    }
}

impl CertificateStorage {
    /// Checks the settings of the backend, and brings them into the form in
    /// which they are worked from.
    pub fn validate(&mut self) -> (checked: Result<ValidationStep, CertificateRequestError>)
        ensures
            checked matches Err(e) ==> e@.is_configuration(),
            match *old(self) {
                CertificateStorage::Acm(acm) => {
                    &&& *final(self) == *old(self)
                    &&& checked matches Ok(step) ==> step is Done
                    &&& acm.is_checked_as(outcome(checked))
                },
                CertificateStorage::S3(s3) => {
                    &&& *final(self) == *old(self)
                    &&& match checked {
                        Ok(ValidationStep::LocateBucket(bucket)) => s3.bucket@.len() > 0 && bucket@
                            == s3.bucket@,
                        Ok(_) => false,
                        Err(e) => s3.bucket@.len() == 0 && e@ == ErrorView::InvalidS3Bucket(
                            s3.bucket@,
                        ),
                    }
                },
                CertificateStorage::SsmParameter(ssm) => match sanitized_path(ssm.path@) {
                    Some(path) => {
                        &&& checked matches Ok(step)
                        &&& step is Done
                        &&& *final(self) matches CertificateStorage::SsmParameter(kept)
                        &&& kept.path@ == path
                        &&& path_is_normal(kept.path@)
                    },
                    None => {
                        &&& checked matches Err(e)
                        &&& e@ == ErrorView::InvalidSsmParameterPath(ssm.path@)
                        &&& *final(self) matches CertificateStorage::SsmParameter(kept)
                        &&& kept.path@ == ssm.path@
                    },
                },
            },
    {
        match self {
            CertificateStorage::Acm(storage) => match storage.validate() {
                Ok(_) => Ok(ValidationStep::Done),
                Err(e) => Err(e),
            },
            CertificateStorage::S3(storage) => match storage.validate() {
                Ok(bucket) => Ok(ValidationStep::LocateBucket(bucket)),
                Err(e) => Err(e),
            },
            CertificateStorage::SsmParameter(storage) => match storage.validate() {
                Ok(_) => Ok(ValidationStep::Done),
                Err(e) => Err(e),
            },
        }
    }

    /// Reads the answer to asking for the bucket's location, which ends the
    /// check of an object store's settings. No other backend has a bucket
    /// to locate.
    pub fn bucket_located(&mut self, lookup: Result<Option<String>, String>) -> (checked: Result<
        (),
        CertificateRequestError,
    >)
        ensures
            match *old(self) {
                CertificateStorage::S3(s3) => {
                    &&& *final(self) matches CertificateStorage::S3(kept)
                    &&& kept.bucket == s3.bucket
                    &&& kept.prefix == s3.prefix
                    &&& match located_region(lookup) {
                        Some(region) => checked is Ok && kept.region_view() == Some(region),
                        None => {
                            &&& kept.region == s3.region
                            &&& checked matches Err(e)
                            &&& e@.is_configuration()
                            &&& e@ == (match lookup {
                                Ok(Some(location)) => ErrorView::InvalidS3Location(location@),
                                _ => ErrorView::InvalidS3Bucket(s3.bucket@),
                            })
                        },
                    }
                },
                _ => {
                    &&& *final(self) == *old(self)
                    &&& checked matches Err(e)
                    &&& e@ == ErrorView::Internal("no bucket to locate"@)
                },
            },
    {
        match self {
            CertificateStorage::S3(storage) => storage.located(lookup),
            _ => Err(CertificateRequestError::Internal(String::from_str("no bucket to locate"))),
        }
    }

    /// What a save in the backend does first.
    pub fn save_certificate(
        &self,
        domain_names: &Vec<String>,
        certificate_pem: String,
        chain_pem: String,
        fullchain_pem: String,
        private_key_pem: String,
    ) -> (step: Result<SaveStep, CertificateRequestError>)
        ensures
            step matches Err(e) ==> !e@.is_configuration(),
            match *self {
                CertificateStorage::Acm(acm) => {
                    let inner: Result<AcmStep, CertificateRequestError> = match step {
                        Ok(SaveStep::Acm(s)) => Ok(s),
                        Ok(_) => Err(CertificateRequestError::NotImplemented),
                        Err(e) => Err(e),
                    };
                    &&& step matches Ok(s) ==> s is Acm
                    &&& acm.begins_save(
                        inner,
                        texts(domain_names@),
                        certificate_pem@,
                        chain_pem@,
                        private_key_pem@,
                    )
                },
                CertificateStorage::S3(_) => step matches Err(e) && e@ == ErrorView::NotImplemented,
                CertificateStorage::SsmParameter(ssm) => match step {
                    Ok(SaveStep::SsmParameter(writes)) => domain_names.len() > 0 && are_writes_of(
                        writes@,
                        ssm.path@,
                        domain_names[0]@,
                        certificate_pem@,
                        chain_pem@,
                        fullchain_pem@,
                        private_key_pem@,
                    ),
                    Ok(_) => false,
                    Err(e) => domain_names.len() == 0 && e@ == unnamed_error(),
                },
            },
    {
        match self {
            CertificateStorage::Acm(storage) => {
                match storage.save_certificate(
                    domain_names,
                    certificate_pem,
                    chain_pem,
                    fullchain_pem,
                    private_key_pem,
                ) {
                    Ok(step) => Ok(SaveStep::Acm(step)),
                    Err(e) => Err(e),
                }
            },
            CertificateStorage::S3(storage) => {
                match storage.save_certificate(
                    domain_names,
                    certificate_pem,
                    chain_pem,
                    fullchain_pem,
                    private_key_pem,
                ) {
                    Ok(_) => Err(CertificateRequestError::NotImplemented),
                    Err(e) => Err(e),
                }
            },
            CertificateStorage::SsmParameter(storage) => {
                match storage.save_certificate(
                    domain_names,
                    certificate_pem,
                    chain_pem,
                    fullchain_pem,
                    private_key_pem,
                ) {
                    Ok(writes) => Ok(SaveStep::SsmParameter(writes)),
                    Err(e) => Err(e),
                }
            },
        }
    }
}

} // verus!
