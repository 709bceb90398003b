//! The certificate-manager backend: a certificate is imported as a new
//! managed certificate, or imported again over existing ones.

use crate::arn::arn_is_valid;
use crate::arn::arn_region;
use crate::arn::is_valid_arn;
use crate::arn::region_of_arn;
use crate::error::CertificateRequestError;
use crate::error::ErrorView;
use crate::matching::ListRequest;
use crate::matching::MatchScan;
use crate::matching::listed_statuses;
use crate::matching::no_domains_error;
use crate::result::AcmStorageResult;
use crate::result::CertificateStorageResult;
use crate::result::ResultView;
use crate::result::result_views;
use crate::text::join4;
use crate::text::texts;
use vstd::prelude::*;
use vstd::string::StringExecFns;

verus! {

/// Where the certificate manager keeps a certificate.
#[derive(Clone, Debug, PartialEq, Eq)]
pub struct AcmStorage {
    /// The managed certificates to import over. Not together with
    /// `force_new_import`. An empty list names none, as no list does.
    pub certificate_arns: Option<Vec<String>>,
    /// Whether a new managed certificate is made in any case. Without it
    /// the certificate is imported over those named or, where none is named,
    /// over those found for the same domains, and new only if none is found.
    pub force_new_import: bool,
}

/// An import to ask the certificate manager for.
#[derive(Clone, Debug, PartialEq, Eq)]
pub struct ImportRequest {
    pub certificate: String,
    /// The managed certificate to import over; none for a new one.
    pub certificate_arn: Option<String>,
    pub certificate_chain: Option<String>,
    pub private_key: String,
}

/// One import over an existing certificate, to be asked of the certificate
/// manager of one region.
#[derive(Clone, Debug, PartialEq, Eq)]
pub struct AcmImportTask {
    /// The region that the certificate lives in.
    pub region: String,
    pub req: ImportRequest,
}

/// What became of one import over an existing certificate.
#[derive(Debug, PartialEq, Eq)]
pub struct ReimportOutcome {
    /// The managed certificate that the import was to go over.
    pub certificate_arn: String,
    /// The identifier that the manager reported, or why the import failed.
    pub response: Result<String, String>,
}

/// What a save does first.
#[derive(Clone, Debug, PartialEq, Eq)]
pub enum AcmStep {
    /// Import a new managed certificate.
    Import(ImportRequest),
    /// Import over each of these, all at once and whatever becomes of the
    /// others.
    Reimport(Vec<AcmImportTask>),
    /// Look for managed certificates for the same domains, beginning with
    /// this page of the listing.
    Match(MatchScan, ListRequest),
}

/// Whether `request` asks to import the material over `target`, or as a new
/// certificate where there is no target.
pub open spec fn is_import_of(
    request: ImportRequest,
    target: Option<Seq<char>>,
    cert_pem: Seq<char>,
    chain_pem: Seq<char>,
    pkey_pem: Seq<char>,
) -> bool {
    &&& request.certificate@ == cert_pem
    &&& match target {
        Some(arn) => request.certificate_arn matches Some(a) && a@ == arn,
        None => request.certificate_arn is None,
    }
    &&& request.certificate_chain matches Some(chain) && chain@ == chain_pem
    &&& request.private_key@ == pkey_pem
}

/// Whether `tasks` are the imports of the material over `arns`: one for each
/// identifier, in order, each for the region that its identifier names.
pub open spec fn are_reimports_of(
    tasks: Seq<AcmImportTask>,
    arns: Seq<Seq<char>>,
    cert_pem: Seq<char>,
    chain_pem: Seq<char>,
    pkey_pem: Seq<char>,
) -> bool {
    &&& tasks.len() == arns.len()
    &&& forall|i: int|
        0 <= i < tasks.len() ==> {
            &&& Some((#[trigger] tasks[i]).region@) == arn_region(arns[i])
            &&& is_import_of(tasks[i].req, Some(arns[i]), cert_pem, chain_pem, pkey_pem)
        }
}

/// The record of an import of a new certificate.
pub open spec fn import_record(response: Result<String, String>) -> ResultView {
    match response {
        Ok(arn) => ResultView::Acm(arn@),
        Err(reason) => ResultView::Error("Failed to import certificate: "@ + reason@),
    }
}

/// The record of an import over an existing certificate. A failure names
/// the certificate that the import was to go over.
pub open spec fn reimport_record(outcome: ReimportOutcome) -> ResultView {
    match outcome.response {
        Ok(arn) => ResultView::Acm(arn@),
        Err(reason) => ResultView::Error(
            "Failed to reimport certificate "@ + outcome.certificate_arn@ + ": "@ + reason@,
        ),
    }
}

/// Whether the text at `at` is the first in `arns` that is no valid
/// identifier.
pub open spec fn first_invalid(arns: Seq<Seq<char>>, at: int) -> bool {
    &&& 0 <= at < arns.len()
    &&& !arn_is_valid(arns[at])
    &&& forall|j: int| 0 <= j < at ==> arn_is_valid(#[trigger] arns[j])
}

/// Whether the text at `at` is the first in `arns` that names no region.
pub open spec fn lacks_region_first(arns: Seq<Seq<char>>, at: int) -> bool {
    &&& 0 <= at < arns.len()
    &&& arn_region(arns[at]) is None
    &&& forall|j: int| 0 <= j < at ==> arn_region(#[trigger] arns[j]) is Some
}

/// What is reported of an identifier that names no region.
pub open spec fn no_region_error(arn: Seq<char>) -> ErrorView {
    ErrorView::Internal("no region in certificate identifier "@ + arn)
}

/// What is reported of an import over no certificate at all.
pub open spec fn no_target_error() -> ErrorView {
    ErrorView::Internal("no certificate to import over"@)
}

/// Whether `failure` is why the material cannot be imported over `arns`:
/// there is nothing to import over, or the first identifier that names no
/// region.
pub open spec fn refuses_reimport(failure: ErrorView, arns: Seq<Seq<char>>) -> bool {
    if arns.len() == 0 {
        failure == no_target_error()
    } else {
        exists|at: int|
            lacks_region_first(arns, at) && failure == no_region_error(#[trigger] arns[at])
    }
}

/// Whether `step` is how the imports over `arns` begin: the imports
/// themselves, of which there is at least one, or the report of why there
/// are none.
pub open spec fn begins_reimport(
    step: Result<AcmStep, CertificateRequestError>,
    arns: Seq<Seq<char>>,
    cert_pem: Seq<char>,
    chain_pem: Seq<char>,
    pkey_pem: Seq<char>,
) -> bool {
    match step {
        Ok(AcmStep::Reimport(tasks)) => {
            &&& tasks.len() >= 1
            &&& are_reimports_of(tasks@, arns, cert_pem, chain_pem, pkey_pem)
        },
        Ok(_) => false,
        Err(e) => refuses_reimport(e@, arns),
    }
}

/// Whether `step` is how the import of a new certificate begins.
pub open spec fn begins_import(
    step: Result<AcmStep, CertificateRequestError>,
    cert_pem: Seq<char>,
    chain_pem: Seq<char>,
    pkey_pem: Seq<char>,
) -> bool {
    step matches Ok(AcmStep::Import(request)) && is_import_of(
        request,
        None,
        cert_pem,
        chain_pem,
        pkey_pem,
    )
}

/// Whether `step` is how the search for certificates for `domains` begins:
/// a scan for these domains that has found nothing yet, with the request
/// for the first page of the listing; or, for no domains, a refusal.
pub open spec fn begins_match(
    step: Result<AcmStep, CertificateRequestError>,
    domains: Seq<Seq<char>>,
) -> bool {
    match step {
        Ok(AcmStep::Match(scan, request)) => {
            &&& domains.len() > 0
            &&& scan.wf()
            &&& scan.domains() == domains
            &&& scan.candidates() == Seq::<Seq<char>>::empty()
            &&& texts(request.statuses@) == listed_statuses()
            &&& request.next_token is None
        },
        Ok(_) => false,
        Err(e) => domains.len() == 0 && e@ == no_domains_error(),
    }
}

impl AcmImportTask {
    /// The import over `cert_arn` that `req` asks for, for the region that
    /// the identifier names. An identifier that names no region has no
    /// import.
    pub fn new(cert_arn: String, req: ImportRequest) -> (task: AcmImportTask)
        requires
            arn_region(cert_arn@) is Some,
        ensures
            Some(task.region@) == arn_region(cert_arn@),
            task.req == req,
    {
        let region = region_of_arn(cert_arn.as_str()).unwrap();
        AcmImportTask { region, req }
    }
}

impl AcmStorage {
    /// The identifiers to import over, as texts.
    pub open spec fn arns(&self) -> Option<Seq<Seq<char>>> {
        match self.certificate_arns {
            Some(arns) => Some(texts(arns@)),
            None => None,
        }
    }

    /// Whether the settings contradict each other: certificates to import
    /// over are named, and a new one is asked for.
    pub open spec fn is_contradictory(&self) -> bool {
        self.certificate_arns is Some && self.force_new_import
    }

    /// Whether the settings name certificates to import over: there is a
    /// list of them, and it is not empty.
    pub open spec fn names_certificates(&self) -> bool {
        self.arns() matches Some(arns) && arns.len() > 0
    }

    /// Whether the settings can be worked from: they do not contradict
    /// each other, and each certificate named is named by a valid identifier.
    pub open spec fn is_valid(&self) -> bool {
        &&& !self.is_contradictory()
        &&& self.arns() matches Some(arns) ==> forall|i: int|
            0 <= i < arns.len() ==> arn_is_valid(#[trigger] arns[i])
    }

    /// Whether `checked` is what checking the settings comes to: success
    /// where they are valid, the contradiction where they contradict each
    /// other, and otherwise the first text that is no valid identifier.
    pub open spec fn is_checked_as(&self, checked: Result<(), CertificateRequestError>) -> bool {
        &&& checked is Ok <==> self.is_valid()
        &&& checked matches Err(e) ==> if self.is_contradictory() {
            e@ == ErrorView::InvalidAcmConfiguration(
                "Cannot specify CertificateArn and ForceNewImport"@,
            )
        } else {
            exists|at: int|
                first_invalid(self.arns()->0, at) && e@ == ErrorView::InvalidAcmCertificateArn(
                    #[trigger] self.arns()->0[at],
                )
        }
    }

    /// Checks the settings. Contradictory settings are refused whatever they
    /// name; otherwise the first text that is no valid identifier is
    /// reported.
    pub fn validate(&self) -> (checked: Result<(), CertificateRequestError>)
        ensures
            self.is_checked_as(checked),
    {
        if let Some(existing_arns) = &self.certificate_arns {
            if self.force_new_import {
                return Err(
                    CertificateRequestError::InvalidAcmConfiguration(
                        String::from_str("Cannot specify CertificateArn and ForceNewImport"),
                    ),
                );
            }
            let ghost arns = texts(existing_arns@);
            let mut i: usize = 0;
            while i < existing_arns.len()
                invariant
                    i <= existing_arns.len(),
                    arns == texts(existing_arns@),
                    self.arns() == Some(arns),
                    !self.force_new_import,
                    forall|j: int| 0 <= j < i ==> arn_is_valid(#[trigger] arns[j]),
                decreases existing_arns.len() - i,
            {
                assert(arns[i as int] == existing_arns[i as int]@);
                if !is_valid_arn(existing_arns[i].as_str()) {
                    assert(first_invalid(arns, i as int));
                    assert(self.arns()->0[i as int] == existing_arns[i as int]@);
                    return Err(
                        CertificateRequestError::InvalidAcmCertificateArn(existing_arns[i].clone()),
                    );
                }
                i += 1;
            }
        }
        Ok(())
    }

    /// The request that imports the material.
    fn import_request(
        certificate_arn: Option<String>,
        cert_pem: &String,
        chain_pem: &String,
        pkey_pem: &String,
    ) -> (request: ImportRequest)
        ensures
            request.certificate@ == cert_pem@,
            request.certificate_arn == certificate_arn,
            request.certificate_chain matches Some(chain) && chain@ == chain_pem@,
            request.private_key@ == pkey_pem@,
    {
        ImportRequest {
            certificate: cert_pem.clone(),
            certificate_arn,
            certificate_chain: Some(chain_pem.clone()),
            private_key: pkey_pem.clone(),
        }
    }

    /// The request that imports the material as a new managed certificate.
    pub fn import_new_certificate(cert_pem: String, chain_pem: String, pkey_pem: String) -> (request:
        ImportRequest)
        ensures
            is_import_of(request, None, cert_pem@, chain_pem@, pkey_pem@),
    {
        Self::import_request(None, &cert_pem, &chain_pem, &pkey_pem)
    }

    /// The record of an import of a new certificate: where it is, or why it
    /// is not there. Either way it is the one record of the save.
    pub fn import_result(response: Result<String, String>) -> (results: Vec<
        CertificateStorageResult,
    >)
        ensures
            result_views(results@) == seq![import_record(response)],
    {
        let record = match response {
            Ok(certificate_arn) => CertificateStorageResult::Acm(
                AcmStorageResult { certificate_arn },
            ),
            Err(reason) => {
                let mut message = String::from_str("Failed to import certificate: ");
                message.append(reason.as_str());
                CertificateStorageResult::Error(message)
            },
        };
        let mut results: Vec<CertificateStorageResult> = Vec::new();
        results.push(record);
        assert(result_views(results@) =~= seq![import_record(response)]);
        results
    }

    /// The imports of the material over `existing_arns`: one for each
    /// identifier, in order, each for the region that its own identifier
    /// names, and at least one. An empty list, and an identifier that names
    /// no region, are faults of whoever let them through; they are
    /// reported, and nothing is imported.
    pub fn reimport_certificate(
        existing_arns: &Vec<String>,
        cert_pem: String,
        chain_pem: String,
        pkey_pem: String,
    ) -> (tasks: Result<Vec<AcmImportTask>, CertificateRequestError>)
        ensures
            match tasks {
                Ok(tasks) => {
                    &&& tasks.len() >= 1
                    &&& are_reimports_of(
                        tasks@,
                        texts(existing_arns@),
                        cert_pem@,
                        chain_pem@,
                        pkey_pem@,
                    )
                },
                Err(e) => refuses_reimport(e@, texts(existing_arns@)),
            },
    {
        if existing_arns.len() == 0 {
            return Err(
                CertificateRequestError::Internal(String::from_str("no certificate to import over")),
            );
        }
        let mut tasks: Vec<AcmImportTask> = Vec::new();
        let mut i: usize = 0;
        while i < existing_arns.len()
            invariant
                i <= existing_arns.len(),
                existing_arns.len() > 0,
                are_reimports_of(
                    tasks@,
                    texts(existing_arns@).take(i as int),
                    cert_pem@,
                    chain_pem@,
                    pkey_pem@,
                ),
                forall|j: int|
                    0 <= j < i ==> arn_region(#[trigger] texts(existing_arns@)[j]) is Some,
            decreases existing_arns.len() - i,
        {
            let cert_arn = &existing_arns[i];
            if region_of_arn(cert_arn.as_str()).is_none() {
                assert(lacks_region_first(texts(existing_arns@), i as int));
                return Err(
                    CertificateRequestError::Internal(
                        String::from_str("no region in certificate identifier ").concat(
                            cert_arn.as_str(),
                        ),
                    ),
                );
            }
            let req = Self::import_request(Some(cert_arn.clone()), &cert_pem, &chain_pem, &pkey_pem);
            tasks.push(AcmImportTask::new(cert_arn.clone(), req));
            i += 1;
        }
        assert(texts(existing_arns@).take(existing_arns.len() as int) =~= texts(existing_arns@));
        Ok(tasks)
    }

    /// The records of the imports over existing certificates: one for each
    /// outcome, in the order in which the outcomes came in, whatever became
    /// of the others.
    pub fn reimport_results(outcomes: &Vec<ReimportOutcome>) -> (results: Vec<
        CertificateStorageResult,
    >)
        ensures
            result_views(results@) == Seq::new(
                outcomes.len() as nat,
                |i: int| reimport_record(outcomes[i]),
            ),
    {
        let mut results: Vec<CertificateStorageResult> = Vec::new();
        let mut i: usize = 0;
        while i < outcomes.len()
            invariant
                i <= outcomes.len(),
                results.len() == i,
                forall|k: int| 0 <= k < i ==> (#[trigger] results[k])@ == reimport_record(outcomes[k]),
            decreases outcomes.len() - i,
        {
            let outcome = &outcomes[i];
            let record = match &outcome.response {
                Ok(certificate_arn) => CertificateStorageResult::Acm(
                    AcmStorageResult { certificate_arn: certificate_arn.clone() },
                ),
                Err(reason) => CertificateStorageResult::Error(
                    join4(
                        "Failed to reimport certificate ",
                        outcome.certificate_arn.as_str(),
                        ": ",
                        reason.as_str(),
                    ),
                ),
            };
            results.push(record);
            i += 1;
        }
        assert(result_views(results@) =~= Seq::new(
            outcomes.len() as nat,
            |i: int| reimport_record(outcomes[i]),
        ));
        results
    }

    /// Whether `step` is what a save does first. Where a new certificate is
    /// asked for, it is imported, whatever there is already. Otherwise,
    /// where certificates are named, the material is imported over each of
    /// them. Otherwise the certificates for `domains` are looked for.
    pub open spec fn begins_save(
        &self,
        step: Result<AcmStep, CertificateRequestError>,
        domains: Seq<Seq<char>>,
        cert_pem: Seq<char>,
        chain_pem: Seq<char>,
        pkey_pem: Seq<char>,
    ) -> bool {
        if self.force_new_import {
            begins_import(step, cert_pem, chain_pem, pkey_pem)
        } else if self.names_certificates() {
            begins_reimport(step, self.arns()->0, cert_pem, chain_pem, pkey_pem)
        } else {
            begins_match(step, domains)
        }
    }

    /// What a save does first. Where a new certificate is asked for, it
    /// is imported, whatever there is already. Otherwise, where certificates
    /// are named, the material is imported over each of them. Otherwise,
    /// with no list of certificates or an empty one, the certificates for the
    /// same domains are looked for.
    pub fn save_certificate(
        &self,
        domain_names: &Vec<String>,
        cert_pem: String,
        chain_pem: String,
        _fullchain_pem: String,
        pkey_pem: String,
    ) -> (step: Result<AcmStep, CertificateRequestError>)
        ensures
            self.begins_save(step, texts(domain_names@), cert_pem@, chain_pem@, pkey_pem@),
    {
        if self.force_new_import {
            return Ok(AcmStep::Import(Self::import_new_certificate(cert_pem, chain_pem, pkey_pem)));
        }
        if let Some(existing_arns) = &self.certificate_arns {
            if existing_arns.len() > 0 {
                return match Self::reimport_certificate(existing_arns, cert_pem, chain_pem, pkey_pem) {
                    Ok(tasks) => Ok(AcmStep::Reimport(tasks)),
                    Err(e) => Err(e),
                };
            }
        }
        match MatchScan::start(domain_names) {
            Ok((scan, request)) => Ok(AcmStep::Match(scan, request)),
            Err(e) => Err(e),
        }
    }

    /// What a save does once the search is over. Where it found nothing, a
    /// new certificate is imported; otherwise the material is imported over
    /// each certificate found.
    pub fn save_matched(
        existing_arns: &Vec<String>,
        cert_pem: String,
        chain_pem: String,
        pkey_pem: String,
    ) -> (step: Result<AcmStep, CertificateRequestError>)
        ensures
            if existing_arns.len() == 0 {
                begins_import(step, cert_pem@, chain_pem@, pkey_pem@)
            } else {
                begins_reimport(step, texts(existing_arns@), cert_pem@, chain_pem@, pkey_pem@)
            },
    {
        if existing_arns.len() == 0 {
            Ok(AcmStep::Import(Self::import_new_certificate(cert_pem, chain_pem, pkey_pem)))
        } else {
            match Self::reimport_certificate(existing_arns, cert_pem, chain_pem, pkey_pem) {
                Ok(tasks) => Ok(AcmStep::Reimport(tasks)),
                Err(e) => Err(e),
            }
        }
    }
}

} // verus!
