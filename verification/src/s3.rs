//! The object-store backend. Its settings can be checked; storing in it is
//! not provided.

use crate::error::CertificateRequestError;
use crate::error::ErrorView;
use crate::region::bucket_region;
use crate::region::location_view;
use crate::region::s3_bucket_location_constraint_to_region;
use crate::result::CertificateStorageResult;
use vstd::prelude::*;

verus! {

/// Where the object store keeps certificates.
#[derive(Clone, Debug, PartialEq, Eq)]
pub struct S3Storage {
    pub bucket: String,
    /// What each key starts with. No `/` is put behind it.
    pub prefix: String,
    /// The region that the bucket lies in, once the settings were checked.
    pub region: Option<String>,
}

/// What the bucket's region becomes when its location was asked for: the
/// region that the answer gives, where there is an answer and it gives one.
pub open spec fn located_region(lookup: Result<Option<String>, String>) -> Option<Seq<char>> {
    match lookup {
        Ok(location_constraint) => bucket_region(location_view(location_constraint)),
        Err(_) => None,
    }
}

impl S3Storage {
    /// The region that the bucket lies in, as a text.
    pub open spec fn region_view(&self) -> Option<Seq<char>> {
        match self.region {
            Some(region) => Some(region@),
            None => None,
        }
    }

    /// Checks what can be checked without the object store, and names the
    /// bucket whose location is to be asked for. A bucket without a name is
    /// refused.
    pub fn validate(&self) -> (bucket: Result<String, CertificateRequestError>)
        ensures
            match bucket {
                Ok(name) => self.bucket@.len() > 0 && name@ == self.bucket@,
                Err(e) => self.bucket@.len() == 0 && e@ == ErrorView::InvalidS3Bucket(self.bucket@),
            },
    {
        if self.bucket.as_str().is_empty() {
            return Err(CertificateRequestError::InvalidS3Bucket(self.bucket.clone()));
        }
        Ok(self.bucket.clone())
    }

    /// Reads the answer to asking for the bucket's location and keeps the
    /// region. Where asking failed, the bucket is refused, without a word of
    /// how asking failed; where the location names no region, the location
    /// is refused. Either way the settings stay as they were.
    pub fn located(&mut self, lookup: Result<Option<String>, String>) -> (checked: Result<
        (),
        CertificateRequestError,
    >)
        ensures
            final(self).bucket == old(self).bucket,
            final(self).prefix == old(self).prefix,
            match located_region(lookup) {
                Some(region) => checked is Ok && final(self).region_view() == Some(region),
                None => {
                    &&& final(self).region == old(self).region
                    &&& checked matches Err(e)
                    &&& e@ == (match lookup {
                        Ok(Some(location)) => ErrorView::InvalidS3Location(location@),
                        _ => ErrorView::InvalidS3Bucket(old(self).bucket@),
                    })
                },
            },
    {
        match lookup {
            Ok(location_constraint) => {
                match s3_bucket_location_constraint_to_region(location_constraint) {
                    Ok(region) => {
                        self.region = Some(region);
                        Ok(())
                    },
                    Err(e) => Err(e),
                }
            },
            Err(_) => Err(CertificateRequestError::InvalidS3Bucket(self.bucket.clone())),
        }
    }

    /// Storing in the object store is not provided: every save is refused.
    pub fn save_certificate(
        &self,
        _domain_names: &Vec<String>,
        _certificate_pem: String,
        _chain_pem: String,
        _fullchain_pem: String,
        _private_key_pem: String,
    ) -> (saved: Result<Vec<CertificateStorageResult>, CertificateRequestError>)
        ensures
            saved matches Err(e) && e@ == ErrorView::NotImplemented,
    {
        Err(CertificateRequestError::NotImplemented)
    }
}

} // verus!
