//! Region names, as the AWS SDK knows them.

use crate::error::CertificateRequestError;
use crate::error::ErrorView;
use rusoto_core::Region;
use std::str::FromStr;
use vstd::prelude::*;

verus! {

/// The canonical name of the region that the SDK reads `name` as, if it reads
/// it as one. This is what `Region::from_str` decides: a fixed table of the
/// SDK, looked up without regard to letter case.
pub uninterp spec fn region_of_name(name: Seq<char>) -> Option<Seq<char>>;

/// Looks `name` up with `rusoto_core::Region::from_str` and gives the name of
/// the region found, as `Region::name` returns it. Trusted: the result is
/// `region_of_name` of the argument, which holds because the SDK's table
/// depends on nothing but the text handed in.
#[verifier::external_body]
pub(crate) fn lookup_region(name: &str) -> (found: Option<String>)
    ensures
        found.is_some() == region_of_name(name@).is_some(),
        found matches Some(region) ==> Some(region@) == region_of_name(name@),
{
    match Region::from_str(name) {
        Ok(region) => Some(region.name().to_string()),
        Err(_) => None,
    }
}

/// The region that a bucket lies in when it reports no location.
pub const DEFAULT_BUCKET_REGION: &'static str = "us-east-1";

/// The region that a bucket lies in, from the location that it reports: the
/// region that the location names or, where it reports none, the default.
/// A location that names no region gives nothing.
pub open spec fn bucket_region(location_constraint: Option<Seq<char>>) -> Option<Seq<char>> {
    match location_constraint {
        Some(location) => region_of_name(location),
        None => Some(DEFAULT_BUCKET_REGION@),
    }
}

/// The name of the region that a bucket lies in, from the location that it
/// reports. A location that names no region is refused by its name.
pub fn s3_bucket_location_constraint_to_region(location_constraint: Option<String>) -> (region:
    Result<String, CertificateRequestError>)
    ensures
        match region {
            Ok(name) => Some(name@) == bucket_region(location_view(location_constraint)),
            Err(e) => {
                &&& bucket_region(location_view(location_constraint)) is None
                &&& location_constraint matches Some(location)
                &&& e@ == ErrorView::InvalidS3Location(location@)
            },
        },
{
    match location_constraint {
        None => Ok(DEFAULT_BUCKET_REGION.to_owned()),
        Some(location) => match lookup_region(location.as_str()) {
            Some(name) => Ok(name),
            None => Err(CertificateRequestError::InvalidS3Location(location)),
        },
    }
}

/// The location that a bucket reports, as a text.
pub open spec fn location_view(location_constraint: Option<String>) -> Option<Seq<char>> {
    match location_constraint {
        Some(location) => Some(location@),
        None => None,
    }
}

} // verus!
